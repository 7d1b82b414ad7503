//! The build profile that selects between the two sets of defaults.

use vstd::prelude::*;

verus! {

/// The profile a binary was built for. It decides the defaults that apply to
/// settings the operator left unset.
#[derive(Clone, Copy, Debug, PartialEq, Eq, Structural)]
pub enum BuildProfile {
    Development,
    Production,
}

impl BuildProfile {
    /// Whether this is the development profile.
    pub fn is_development(&self) -> (r: bool)
        ensures
            r == (*self == BuildProfile::Development),
    {
        match self {
            BuildProfile::Development => true,
            BuildProfile::Production => false,
        }
    }
}

} // verus!
