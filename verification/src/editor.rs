//! The two operations of the settings editor, as decisions on what was found
//! in storage.
//!
//! Reading and writing the stored document is the caller's work. The caller
//! says what it found, and these functions say what the operation returns and
//! what, if anything, is to be written back. They keep nothing between calls:
//! a caller that edits from several places has to put its read, edit and write
//! in one critical section of its own.

use vstd::prelude::*;
use crate::edit::{edit, EditError, EditErrorView};
use crate::models::{
    ProxyConfiguration, ProxyConfigurationInner, ProxyConfigurationInnerView,
    ProxyConfigurationView,
};
use crate::profile::BuildProfile;
use crate::resolve::{resolve, ValidationError};

verus! {

/// What was found where the document is kept.
#[derive(Debug, PartialEq, Eq)]
pub enum StoredDocument {
    /// There is no document.
    Missing,
    /// There is a text, and it is no document of this schema.
    Malformed,
    /// There is a document.
    Present(ProxyConfiguration),
}

/// The view of [`StoredDocument`]: its texts as sequences of characters.
pub enum StoredDocumentView {
    Missing,
    Malformed,
    Present(ProxyConfigurationView),
}

impl View for StoredDocument {
    type V = StoredDocumentView;

    open spec fn view(&self) -> StoredDocumentView {
        match self {
            StoredDocument::Missing => StoredDocumentView::Missing,
            StoredDocument::Malformed => StoredDocumentView::Malformed,
            StoredDocument::Present(document) => StoredDocumentView::Present(document@),
        }
    }
}

/// Why an operation of the editor failed.
#[derive(Debug, PartialEq, Eq)]
pub enum ConfigError {
    /// There is no document. The caller may go on with the defaults.
    NotFound,
    /// The stored text is no document of this schema.
    MalformedDocument,
    /// A setting of the document breaks its constraint.
    Validation(ValidationError),
    /// The text of an edit could not be read as a value of the setting.
    Edit(EditError),
}

/// The view of [`ConfigError`]: its texts as sequences of characters.
pub enum ConfigErrorView {
    NotFound,
    MalformedDocument,
    Validation(ValidationError),
    Edit(EditErrorView),
}

impl View for ConfigError {
    type V = ConfigErrorView;

    open spec fn view(&self) -> ConfigErrorView {
        match self {
            ConfigError::NotFound => ConfigErrorView::NotFound,
            ConfigError::MalformedDocument => ConfigErrorView::MalformedDocument,
            ConfigError::Validation(error) => ConfigErrorView::Validation(*error),
            ConfigError::Edit(error) => ConfigErrorView::Edit(error@),
        }
    }
}

/// The effective configuration of what was found: that of the document, if
/// there is one and it is valid. A missing document is told apart from one
/// that is there and wrong.
pub open spec fn configuration_of(stored: StoredDocumentView, profile: BuildProfile) -> Result<
    ProxyConfigurationInnerView,
    ConfigErrorView,
> {
    match stored {
        StoredDocumentView::Missing => Err(ConfigErrorView::NotFound),
        StoredDocumentView::Malformed => Err(ConfigErrorView::MalformedDocument),
        StoredDocumentView::Present(raw) => match resolve(raw, true, profile) {
            Ok(effective) => Ok(effective),
            Err(error) => Err(ConfigErrorView::Validation(error)),
        },
    }
}

/// The document to write back after the edit of the setting called `name`
/// with `text`: none where there is no document, the edited one where there
/// is. A refused edit writes nothing.
pub open spec fn document_to_save(
    stored: StoredDocumentView,
    name: Seq<char>,
    text: Seq<char>,
) -> Result<Option<ProxyConfigurationView>, ConfigErrorView> {
    match stored {
        StoredDocumentView::Missing => Ok(None),
        StoredDocumentView::Malformed => Err(ConfigErrorView::MalformedDocument),
        StoredDocumentView::Present(raw) => match edit(raw, name, text) {
            Ok(document) => Ok(Some(document)),
            Err(error) => Err(ConfigErrorView::Edit(error)),
        },
    }
}

/// The current effective configuration, from what was found in storage.
pub fn get_configuration(stored: &StoredDocument, profile: BuildProfile) -> (r: Result<
    ProxyConfigurationInner,
    ConfigError,
>)
    ensures
        match configuration_of(stored@, profile) {
            Ok(effective) => r matches Ok(inner) && inner@ == effective && inner@.is_consistent()
                && inner@.configuration_file_found,
            Err(error) => r matches Err(e) && e@ == error,
        },
{
    match stored {
        StoredDocument::Missing => Err(ConfigError::NotFound),
        StoredDocument::Malformed => Err(ConfigError::MalformedDocument),
        StoredDocument::Present(document) => match document.into_inner(true, profile) {
            Ok(inner) => Ok(inner),
            Err(error) => Err(ConfigError::Validation(error)),
        },
    }
}

/// Edits the setting called `setting_name` in what was found in storage, and
/// hands back the document to write, if there is one. `Ok(None)` says that
/// there was no document to edit, and that nothing is to be written.
pub fn save_value(stored: StoredDocument, setting_name: &str, setting_value: &str) -> (r: Result<
    Option<ProxyConfiguration>,
    ConfigError,
>)
    ensures
        match document_to_save(stored@, setting_name@, setting_value@) {
            Ok(Some(document)) => r matches Ok(Some(d)) && d@ == document,
            Ok(None) => r matches Ok(None),
            Err(error) => r matches Err(e) && e@ == error,
        },
{
    match stored {
        StoredDocument::Missing => Ok(None),
        StoredDocument::Malformed => Err(ConfigError::MalformedDocument),
        StoredDocument::Present(document) => {
            let mut document = document;
            match document.apply_edit(setting_name, setting_value) {
                Ok(_) => Ok(Some(document)),
                Err(error) => Err(ConfigError::Edit(error)),
            }
        },
    }
}

} // verus!
