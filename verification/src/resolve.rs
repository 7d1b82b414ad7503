//! The resolution engine: from a raw document, in which every setting is
//! optional, to the effective configuration.
//!
//! A setting that is present is validated and used; one that is absent takes
//! the default of the build profile, or stays unset where it has none. One
//! invalid setting rejects the whole document: there is no partial result
//! and no fall back to a default.

use vstd::prelude::*;
use crate::address::{is_ip_address, is_ip_literal, lemma_all_zero_address_is_ip};
use crate::models::{
    copy_list, copy_text, ProxyConfiguration, ProxyConfigurationInner,
    ProxyConfigurationInnerView, ProxyConfigurationView, ProxyRuleView,
};
use crate::profile::BuildProfile;
use crate::text::{chars_of, has_prefix, same_chars};

verus! {

/// The logging level of the development profile.
pub const DEV_LOGGING_LEVEL: &'static str = "debug";

/// The logging level of the production profile.
pub const PROD_LOGGING_LEVEL: &'static str = "error";

/// A setting that is validated when it is present.
#[derive(Debug, Clone, Copy, PartialEq, Eq, Structural)]
pub enum ValidatedField {
    ListeningAddress,
    ListeningPortHttp,
    ListeningPortHttps,
    LoggingLevel,
    ProxyMinTlsVersion,
}

/// What a validated setting has to be.
#[derive(Debug, Clone, Copy, PartialEq, Eq, Structural)]
pub enum Constraint {
    /// An IPv4 or IPv6 literal.
    IpLiteral,
    /// A number from 0 to 65535.
    PortRange,
    /// A text that begins with `off`, `trace`, `debug`, `info`, `warn` or `error`.
    LoggingLevel,
    /// One of `TLS_1_0`, `TLS_1_1`, `TLS_1_2`, `TLS_1_3`.
    TlsVersion,
}

/// The rejection of a document: the first setting that breaks its
/// constraint, and the constraint.
#[derive(Debug, Clone, Copy, PartialEq, Eq, Structural)]
pub struct ValidationError {
    pub field: ValidatedField,
    pub reason: Constraint,
}

/// What `field` has to be.
pub open spec fn constraint_of(field: ValidatedField) -> Constraint {
    match field {
        ValidatedField::ListeningAddress => Constraint::IpLiteral,
        ValidatedField::ListeningPortHttp => Constraint::PortRange,
        ValidatedField::ListeningPortHttps => Constraint::PortRange,
        ValidatedField::LoggingLevel => Constraint::LoggingLevel,
        ValidatedField::ProxyMinTlsVersion => Constraint::TlsVersion,
    }
}

/// The rejection of a document for what it holds in `field`.
pub open spec fn violation(field: ValidatedField) -> ValidationError {
    ValidationError { field, reason: constraint_of(field) }
}

/// The name under which the document holds `field`.
pub open spec fn validated_field_name(field: ValidatedField) -> Seq<char> {
    match field {
        ValidatedField::ListeningAddress => "listening_address"@,
        ValidatedField::ListeningPortHttp => "listening_port_http"@,
        ValidatedField::ListeningPortHttps => "listening_port_https"@,
        ValidatedField::LoggingLevel => "logging_level"@,
        ValidatedField::ProxyMinTlsVersion => "proxy_min_tls_version"@,
    }
}

/// What the operator is told that a setting has to be.
pub open spec fn constraint_description(constraint: Constraint) -> Seq<char> {
    match constraint {
        Constraint::IpLiteral => "must be an IPv4 or IPv6 address."@,
        Constraint::PortRange => "must be between 0 and 65535."@,
        Constraint::LoggingLevel => "must be one of those: off, trace, debug, info, warn, error."@,
        Constraint::TlsVersion => "must be one of those: TLS_1_0, TLS_1_1, TLS_1_2, TLS_1_3."@,
    }
}

impl ValidatedField {
    /// The name under which the document holds this setting.
    pub fn name(&self) -> (r: &'static str)
        ensures
            r@ == validated_field_name(*self),
    {
        match self {
            ValidatedField::ListeningAddress => "listening_address",
            ValidatedField::ListeningPortHttp => "listening_port_http",
            ValidatedField::ListeningPortHttps => "listening_port_https",
            ValidatedField::LoggingLevel => "logging_level",
            ValidatedField::ProxyMinTlsVersion => "proxy_min_tls_version",
        }
    }
}

impl Constraint {
    /// What the operator is told that a setting has to be.
    pub fn description(&self) -> (r: &'static str)
        ensures
            r@ == constraint_description(*self),
    {
        match self {
            Constraint::IpLiteral => "must be an IPv4 or IPv6 address.",
            Constraint::PortRange => "must be between 0 and 65535.",
            Constraint::LoggingLevel => "must be one of those: off, trace, debug, info, warn, error.",
            Constraint::TlsVersion => "must be one of those: TLS_1_0, TLS_1_1, TLS_1_2, TLS_1_3.",
        }
    }
}

impl ValidationError {
    /// The rejection of a document for what it holds in `field`.
    pub fn of(field: ValidatedField) -> (r: ValidationError)
        ensures
            r == violation(field),
    {
        let reason = match field {
            ValidatedField::ListeningAddress => Constraint::IpLiteral,
            ValidatedField::ListeningPortHttp => Constraint::PortRange,
            ValidatedField::ListeningPortHttps => Constraint::PortRange,
            ValidatedField::LoggingLevel => Constraint::LoggingLevel,
            ValidatedField::ProxyMinTlsVersion => Constraint::TlsVersion,
        };
        ValidationError { field, reason }
    }
}

/// Whether `port` fits the range of port numbers.
pub open spec fn is_port(port: int) -> bool {
    0 <= port <= 0xffff
}

/// Whether `level` begins with the name of a logging level. The names are
/// matched as prefixes and by case, so `errors` is a level and `Error` is not.
pub open spec fn is_logging_level(level: Seq<char>) -> bool {
    ||| "off"@.is_prefix_of(level)
    ||| "trace"@.is_prefix_of(level)
    ||| "debug"@.is_prefix_of(level)
    ||| "info"@.is_prefix_of(level)
    ||| "warn"@.is_prefix_of(level)
    ||| "error"@.is_prefix_of(level)
}

/// Whether `version` names a TLS version.
pub open spec fn is_tls_version(version: Seq<char>) -> bool {
    ||| version == "TLS_1_0"@
    ||| version == "TLS_1_1"@
    ||| version == "TLS_1_2"@
    ||| version == "TLS_1_3"@
}

/// The configuration of a profile when no document was loaded. The profiles
/// differ in backtracing, in the logging level, and in whether rate limiting
/// and logging are switched on.
pub open spec fn defaults(profile: BuildProfile) -> ProxyConfigurationInnerView {
    let development = profile == BuildProfile::Development;
    ProxyConfigurationInnerView {
        configuration_file_found: false,
        listening_address: "0.0.0.0"@,
        listening_port_http: 80,
        listening_port_https: 443,
        backtracing: development,
        add_caching: true,
        add_rate_limiting: !development,
        add_logging: !development,
        disable_default_body_limit: false,
        api_key: None,
        azure_table_storage_key: None,
        proxy_rules: Seq::<ProxyRuleView>::empty(),
        logging_level: if development {
            DEV_LOGGING_LEVEL@
        } else {
            PROD_LOGGING_LEVEL@
        },
        add_sql_injection_protection: false,
        lets_encrypt_contact_email: None,
        enable_compression: false,
        compression_flags: None,
        recv_buffer_size: None,
        send_buffer_size: None,
        ip_ttl: None,
        tcp_keep_alive_seconds: None,
        max_backlog: None,
        enable_streaming: true,
        nonblocking: true,
        nodelay: true,
        proxy_nodelay: true,
        proxy_keepalive_sec: 120,
        proxy_timeout: 45,
        proxy_min_tls_version: "TLS_1_3"@,
    }
}

/// The value of a setting: the one given, or else the default.
pub open spec fn or_default<T>(value: Option<T>, default: T) -> T {
    match value {
        Some(v) => v,
        None => default,
    }
}

/// The first setting of `raw`, in the order of the document, that is present
/// and breaks its constraint.
pub open spec fn first_violation(raw: ProxyConfigurationView) -> Option<ValidationError> {
    if raw.listening_address matches Some(address) && !is_ip_literal(address) {
        Some(violation(ValidatedField::ListeningAddress))
    } else if raw.listening_port_http matches Some(port) && !is_port(port as int) {
        Some(violation(ValidatedField::ListeningPortHttp))
    } else if raw.listening_port_https matches Some(port) && !is_port(port as int) {
        Some(violation(ValidatedField::ListeningPortHttps))
    } else if raw.logging_level matches Some(level) && !is_logging_level(level) {
        Some(violation(ValidatedField::LoggingLevel))
    } else if raw.proxy_min_tls_version matches Some(version) && !is_tls_version(version) {
        Some(violation(ValidatedField::ProxyMinTlsVersion))
    } else {
        None
    }
}

/// The effective configuration of `raw`, setting by setting: the value given,
/// or the default of `profile`. The settings without a default and the proxy
/// rules are taken over as they are.
pub open spec fn filled_in(
    raw: ProxyConfigurationView,
    found: bool,
    profile: BuildProfile,
) -> ProxyConfigurationInnerView {
    let base = defaults(profile);
    ProxyConfigurationInnerView {
        configuration_file_found: found,
        listening_address: or_default(raw.listening_address, base.listening_address),
        listening_port_http: or_default(raw.listening_port_http, base.listening_port_http),
        listening_port_https: or_default(raw.listening_port_https, base.listening_port_https),
        backtracing: or_default(raw.backtracing, base.backtracing),
        add_caching: or_default(raw.add_caching, base.add_caching),
        add_rate_limiting: or_default(raw.add_rate_limiting, base.add_rate_limiting),
        add_logging: or_default(raw.add_logging, base.add_logging),
        disable_default_body_limit: or_default(
            raw.disable_default_body_limit,
            base.disable_default_body_limit,
        ),
        api_key: raw.api_key,
        azure_table_storage_key: raw.azure_table_storage_key,
        proxy_rules: raw.proxy_rules,
        logging_level: or_default(raw.logging_level, base.logging_level),
        add_sql_injection_protection: or_default(
            raw.add_sql_injection_protection,
            base.add_sql_injection_protection,
        ),
        lets_encrypt_contact_email: raw.lets_encrypt_contact_email,
        enable_compression: or_default(raw.enable_compression, base.enable_compression),
        compression_flags: raw.compression_flags,
        recv_buffer_size: raw.recv_buffer_size,
        send_buffer_size: raw.send_buffer_size,
        ip_ttl: raw.ip_ttl,
        tcp_keep_alive_seconds: raw.tcp_keep_alive_seconds,
        max_backlog: raw.max_backlog,
        enable_streaming: or_default(raw.enable_streaming, base.enable_streaming),
        nonblocking: or_default(raw.nonblocking, base.nonblocking),
        nodelay: or_default(raw.nodelay, base.nodelay),
        proxy_nodelay: or_default(raw.proxy_nodelay, base.proxy_nodelay),
        proxy_keepalive_sec: or_default(raw.proxy_keepalive_sec, base.proxy_keepalive_sec),
        proxy_timeout: or_default(raw.proxy_timeout, base.proxy_timeout),
        proxy_min_tls_version: or_default(raw.proxy_min_tls_version, base.proxy_min_tls_version),
    }
}

/// What resolution makes of `raw`: the rejection for its first violation, or
/// else its effective configuration.
pub open spec fn resolve(
    raw: ProxyConfigurationView,
    found: bool,
    profile: BuildProfile,
) -> Result<ProxyConfigurationInnerView, ValidationError> {
    match first_violation(raw) {
        Some(error) => Err(error),
        None => Ok(filled_in(raw, found, profile)),
    }
}

impl ProxyConfigurationInnerView {
    /// Whether every validated setting meets its constraint. This holds of
    /// every effective configuration the engine hands out.
    pub open spec fn is_consistent(self) -> bool {
        &&& is_ip_literal(self.listening_address)
        &&& is_port(self.listening_port_http as int)
        &&& is_port(self.listening_port_https as int)
        &&& is_logging_level(self.logging_level)
        &&& is_tls_version(self.proxy_min_tls_version)
    }
}

/// Whether `level` begins with the name of a logging level.
pub fn check_logging_level(level: &str) -> (r: bool)
    ensures
        r == is_logging_level(level@),
{
    let chars = chars_of(level);
    has_prefix(&chars, &chars_of("off")) || has_prefix(&chars, &chars_of("trace")) || has_prefix(
        &chars,
        &chars_of("debug"),
    ) || has_prefix(&chars, &chars_of("info")) || has_prefix(&chars, &chars_of("warn"))
        || has_prefix(&chars, &chars_of("error"))
}

/// Whether `version` names a TLS version.
pub fn check_tls_version(version: &str) -> (r: bool)
    ensures
        r == is_tls_version(version@),
{
    let chars = chars_of(version);
    same_chars(&chars, &chars_of("TLS_1_0")) || same_chars(&chars, &chars_of("TLS_1_1"))
        || same_chars(&chars, &chars_of("TLS_1_2")) || same_chars(&chars, &chars_of("TLS_1_3"))
}

/// Whether `port` fits the range of port numbers.
pub fn check_port(port: u16) -> (r: bool)
    ensures
        r == is_port(port as int),
{
    port as u32 <= 0xffff
}

impl ProxyConfiguration {
    /// Validates the settings that are present: `Err` with the first that
    /// breaks its constraint, in the order of the document.
    pub fn validate(&self) -> (r: Result<(), ValidationError>)
        ensures
            r == match first_violation(self@) {
                Some(error) => Err::<(), ValidationError>(error),
                None => Ok(()),
            },
    {
        if let Some(address) = &self.listening_address {
            if !is_ip_address(address.as_str()) {
                return Err(ValidationError::of(ValidatedField::ListeningAddress));
            }
        }
        if let Some(port) = self.listening_port_http {
            if !check_port(port) {
                return Err(ValidationError::of(ValidatedField::ListeningPortHttp));
            }
        }
        if let Some(port) = self.listening_port_https {
            if !check_port(port) {
                return Err(ValidationError::of(ValidatedField::ListeningPortHttps));
            }
        }
        if let Some(level) = &self.logging_level {
            if !check_logging_level(level.as_str()) {
                return Err(ValidationError::of(ValidatedField::LoggingLevel));
            }
        }
        if let Some(version) = &self.proxy_min_tls_version {
            if !check_tls_version(version.as_str()) {
                return Err(ValidationError::of(ValidatedField::ProxyMinTlsVersion));
            }
        }
        Ok(())
    }

    /// The effective configuration of the document, setting by setting,
    /// whether or not the settings are valid.
    fn fill_in(&self, config_file_found: bool, profile: BuildProfile) -> (r:
        ProxyConfigurationInner)
        ensures
            r@ == filled_in(self@, config_file_found, profile),
    {
        let base = ProxyConfiguration::default_inner(profile);
        ProxyConfigurationInner {
            configuration_file_found: config_file_found,
            listening_address: match &self.listening_address {
                Some(address) => address.clone(),
                None => base.listening_address,
            },
            listening_port_http: self.listening_port_http.unwrap_or(base.listening_port_http),
            listening_port_https: self.listening_port_https.unwrap_or(base.listening_port_https),
            backtracing: self.backtracing.unwrap_or(base.backtracing),
            add_caching: self.add_caching.unwrap_or(base.add_caching),
            add_rate_limiting: self.add_rate_limiting.unwrap_or(base.add_rate_limiting),
            add_logging: self.add_logging.unwrap_or(base.add_logging),
            disable_default_body_limit: self.disable_default_body_limit.unwrap_or(
                base.disable_default_body_limit,
            ),
            api_key: copy_text(&self.api_key),
            azure_table_storage_key: copy_text(&self.azure_table_storage_key),
            proxy_rules: copy_list(&self.proxy_rules),
            logging_level: match &self.logging_level {
                Some(level) => level.clone(),
                None => base.logging_level,
            },
            add_sql_injection_protection: self.add_sql_injection_protection.unwrap_or(
                base.add_sql_injection_protection,
            ),
            lets_encrypt_contact_email: copy_text(&self.lets_encrypt_contact_email),
            enable_compression: self.enable_compression.unwrap_or(base.enable_compression),
            compression_flags: copy_text(&self.compression_flags),
            recv_buffer_size: self.recv_buffer_size,
            send_buffer_size: self.send_buffer_size,
            ip_ttl: self.ip_ttl,
            tcp_keep_alive_seconds: self.tcp_keep_alive_seconds,
            max_backlog: self.max_backlog,
            enable_streaming: self.enable_streaming.unwrap_or(base.enable_streaming),
            nonblocking: self.nonblocking.unwrap_or(base.nonblocking),
            nodelay: self.nodelay.unwrap_or(base.nodelay),
            proxy_nodelay: self.proxy_nodelay.unwrap_or(base.proxy_nodelay),
            proxy_keepalive_sec: self.proxy_keepalive_sec.unwrap_or(base.proxy_keepalive_sec),
            proxy_timeout: self.proxy_timeout.unwrap_or(base.proxy_timeout),
            proxy_min_tls_version: match &self.proxy_min_tls_version {
                Some(version) => version.clone(),
                None => base.proxy_min_tls_version,
            },
        }
    }

    /// Resolves the document into the effective configuration, or rejects it
    /// for the first setting that breaks its constraint. `config_file_found`
    /// is recorded in the result as it is given.
    pub fn into_inner(&self, config_file_found: bool, profile: BuildProfile) -> (r: Result<
        ProxyConfigurationInner,
        ValidationError,
    >)
        ensures
            match resolve(self@, config_file_found, profile) {
                Ok(effective) => r matches Ok(inner) && inner@ == effective,
                Err(error) => r matches Err(e) && e == error,
            },
            r matches Ok(inner) ==> inner@.is_consistent(),
    {
        proof {
            lemma_resolved_is_consistent(self@, config_file_found, profile);
        }
        match self.validate() {
            Ok(()) => Ok(self.fill_in(config_file_found, profile)),
            Err(error) => Err(error),
        }
    }

    /// The document that sets nothing.
    pub fn blank() -> (r: ProxyConfiguration)
        ensures
            is_blank(r@),
    {
        ProxyConfiguration {
            listening_address: None,
            listening_port_http: None,
            listening_port_https: None,
            backtracing: None,
            add_caching: None,
            add_rate_limiting: None,
            add_logging: None,
            disable_default_body_limit: None,
            api_key: None,
            azure_table_storage_key: None,
            proxy_rules: Vec::new(),
            logging_level: None,
            add_sql_injection_protection: None,
            lets_encrypt_contact_email: None,
            enable_compression: None,
            compression_flags: None,
            recv_buffer_size: None,
            send_buffer_size: None,
            ip_ttl: None,
            tcp_keep_alive_seconds: None,
            max_backlog: None,
            enable_streaming: None,
            nonblocking: None,
            nodelay: None,
            proxy_nodelay: None,
            proxy_keepalive_sec: None,
            proxy_timeout: None,
            proxy_min_tls_version: None,
        }
    }

    /// The configuration of `profile` when no document was loaded.
    pub fn default_inner(profile: BuildProfile) -> (r: ProxyConfigurationInner)
        ensures
            r@ == defaults(profile),
            r@.is_consistent(),
    {
        proof {
            lemma_defaults_are_consistent(profile);
        }
        let development = profile.is_development();
        let r = ProxyConfigurationInner {
            configuration_file_found: false,
            listening_address: "0.0.0.0".to_owned(),
            listening_port_http: 80,
            listening_port_https: 443,
            backtracing: development,
            add_caching: true,
            add_rate_limiting: !development,
            add_logging: !development,
            disable_default_body_limit: false,
            api_key: None,
            azure_table_storage_key: None,
            proxy_rules: Vec::new(),
            logging_level: if development {
                DEV_LOGGING_LEVEL.to_owned()
            } else {
                PROD_LOGGING_LEVEL.to_owned()
            },
            add_sql_injection_protection: false,
            lets_encrypt_contact_email: None,
            enable_compression: false,
            compression_flags: None,
            recv_buffer_size: None,
            send_buffer_size: None,
            ip_ttl: None,
            tcp_keep_alive_seconds: None,
            max_backlog: None,
            enable_streaming: true,
            nonblocking: true,
            nodelay: true,
            proxy_nodelay: true,
            proxy_keepalive_sec: 120,
            proxy_timeout: 45,
            proxy_min_tls_version: "TLS_1_3".to_owned(),
        };
        assert(r.proxy_rules.deep_view() =~= Seq::<ProxyRuleView>::empty());
        r
    }
}

/// The defaults of either profile meet every constraint: no setting of them
/// is left to validate.
pub proof fn lemma_defaults_are_consistent(profile: BuildProfile)
    ensures
        defaults(profile).is_consistent(),
{
    lemma_all_zero_address_is_ip();
    assert("debug"@.is_prefix_of(DEV_LOGGING_LEVEL@));
    assert("error"@.is_prefix_of(PROD_LOGGING_LEVEL@));
}

/// Resolution hands out consistent configurations only.
pub proof fn lemma_resolved_is_consistent(
    raw: ProxyConfigurationView,
    found: bool,
    profile: BuildProfile,
)
    ensures
        resolve(raw, found, profile) matches Ok(effective) ==> effective.is_consistent(),
{
    lemma_defaults_are_consistent(profile);
}

/// The raw document that sets every setting to what `effective` holds.
pub open spec fn as_document(effective: ProxyConfigurationInnerView) -> ProxyConfigurationView {
    ProxyConfigurationView {
        listening_address: Some(effective.listening_address),
        listening_port_http: Some(effective.listening_port_http),
        listening_port_https: Some(effective.listening_port_https),
        backtracing: Some(effective.backtracing),
        add_caching: Some(effective.add_caching),
        add_rate_limiting: Some(effective.add_rate_limiting),
        add_logging: Some(effective.add_logging),
        disable_default_body_limit: Some(effective.disable_default_body_limit),
        api_key: effective.api_key,
        azure_table_storage_key: effective.azure_table_storage_key,
        proxy_rules: effective.proxy_rules,
        logging_level: Some(effective.logging_level),
        add_sql_injection_protection: Some(effective.add_sql_injection_protection),
        lets_encrypt_contact_email: effective.lets_encrypt_contact_email,
        enable_compression: Some(effective.enable_compression),
        compression_flags: effective.compression_flags,
        recv_buffer_size: effective.recv_buffer_size,
        send_buffer_size: effective.send_buffer_size,
        ip_ttl: effective.ip_ttl,
        tcp_keep_alive_seconds: effective.tcp_keep_alive_seconds,
        max_backlog: effective.max_backlog,
        enable_streaming: Some(effective.enable_streaming),
        nonblocking: Some(effective.nonblocking),
        nodelay: Some(effective.nodelay),
        proxy_nodelay: Some(effective.proxy_nodelay),
        proxy_keepalive_sec: Some(effective.proxy_keepalive_sec),
        proxy_timeout: Some(effective.proxy_timeout),
        proxy_min_tls_version: Some(effective.proxy_min_tls_version),
    }
}

/// A consistent configuration, written out as a document in which every
/// setting is set, resolves to itself under either profile. So do the
/// defaults, which makes them a baseline that resolution does not move.
pub proof fn lemma_consistent_configuration_resolves_to_itself(
    effective: ProxyConfigurationInnerView,
    profile: BuildProfile,
)
    requires
        effective.is_consistent(),
    ensures
        resolve(as_document(effective), effective.configuration_file_found, profile) == Ok::<
            ProxyConfigurationInnerView,
            ValidationError,
        >(effective),
        resolve(as_document(defaults(profile)), false, profile) == Ok::<
            ProxyConfigurationInnerView,
            ValidationError,
        >(defaults(profile)),
{
    lemma_defaults_are_consistent(profile);
}

/// Whether `raw` sets none of its optional settings.
pub open spec fn sets_nothing(raw: ProxyConfigurationView) -> bool {
    &&& raw.listening_address is None
    &&& raw.listening_port_http is None
    &&& raw.listening_port_https is None
    &&& raw.backtracing is None
    &&& raw.add_caching is None
    &&& raw.add_rate_limiting is None
    &&& raw.add_logging is None
    &&& raw.disable_default_body_limit is None
    &&& raw.api_key is None
    &&& raw.azure_table_storage_key is None
    &&& raw.logging_level is None
    &&& raw.add_sql_injection_protection is None
    &&& raw.lets_encrypt_contact_email is None
    &&& raw.enable_compression is None
    &&& raw.compression_flags is None
    &&& raw.recv_buffer_size is None
    &&& raw.send_buffer_size is None
    &&& raw.ip_ttl is None
    &&& raw.tcp_keep_alive_seconds is None
    &&& raw.max_backlog is None
    &&& raw.enable_streaming is None
    &&& raw.nonblocking is None
    &&& raw.nodelay is None
    &&& raw.proxy_nodelay is None
    &&& raw.proxy_keepalive_sec is None
    &&& raw.proxy_timeout is None
    &&& raw.proxy_min_tls_version is None
}

/// Whether `raw` sets none of its optional settings and holds no proxy rule.
pub open spec fn is_blank(raw: ProxyConfigurationView) -> bool {
    sets_nothing(raw) && raw.proxy_rules.len() == 0
}

/// A document that sets nothing and holds no rule resolves to the defaults of
/// the profile, but for the record of whether a document was found.
pub proof fn lemma_blank_document_resolves_to_defaults(
    raw: ProxyConfigurationView,
    found: bool,
    profile: BuildProfile,
)
    requires
        is_blank(raw),
    ensures
        resolve(raw, found, profile) == Ok::<ProxyConfigurationInnerView, ValidationError>(
            ProxyConfigurationInnerView { configuration_file_found: found, ..defaults(profile) },
        ),
{
    assert(raw.proxy_rules =~= Seq::<ProxyRuleView>::empty());
}

/// A document that sets nothing resolves to the defaults of the profile with
/// the document's own proxy rules in them.
pub proof fn lemma_unset_document_resolves_to_defaults_with_its_rules(
    raw: ProxyConfigurationView,
    found: bool,
    profile: BuildProfile,
)
    requires
        sets_nothing(raw),
    ensures
        resolve(raw, found, profile) == Ok::<ProxyConfigurationInnerView, ValidationError>(
            ProxyConfigurationInnerView {
                configuration_file_found: found,
                proxy_rules: raw.proxy_rules,
                ..defaults(profile)
            },
        ),
{
}

/// Whether the settings that are validated before the TLS version, in the
/// order of the document, are absent or meet their constraints.
pub open spec fn valid_before_tls_version(raw: ProxyConfigurationView) -> bool {
    first_violation(ProxyConfigurationView { proxy_min_tls_version: None, ..raw }) is None
}

/// Whether the settings that are validated before the logging level, in the
/// order of the document, are absent or meet their constraints.
pub open spec fn valid_before_logging_level(raw: ProxyConfigurationView) -> bool {
    first_violation(
        ProxyConfigurationView { logging_level: None, proxy_min_tls_version: None, ..raw },
    ) is None
}

/// A TLS version outside the four names rejects the document, whatever else
/// it holds; the rejection names the TLS version unless an earlier setting is
/// invalid too.
pub proof fn lemma_unknown_tls_version_is_rejected(
    raw: ProxyConfigurationView,
    found: bool,
    profile: BuildProfile,
)
    requires
        raw.proxy_min_tls_version matches Some(version) && !is_tls_version(version),
    ensures
        resolve(raw, found, profile) is Err,
        valid_before_tls_version(raw) ==> resolve(raw, found, profile) == Err::<
            ProxyConfigurationInnerView,
            ValidationError,
        >(violation(ValidatedField::ProxyMinTlsVersion)),
{
}

/// `TLS_1_4` is no TLS version: a document that asks for it is rejected, and
/// the rejection names the TLS version unless an earlier setting is invalid
/// too.
pub proof fn lemma_tls_1_4_is_rejected(
    raw: ProxyConfigurationView,
    found: bool,
    profile: BuildProfile,
)
    requires
        raw.proxy_min_tls_version == Some("TLS_1_4"@),
    ensures
        resolve(raw, found, profile) is Err,
        valid_before_tls_version(raw) ==> resolve(raw, found, profile) == Err::<
            ProxyConfigurationInnerView,
            ValidationError,
        >(violation(ValidatedField::ProxyMinTlsVersion)),
{
    assert(!is_tls_version("TLS_1_4"@)) by {
        reveal_strlit("TLS_1_4");
        reveal_strlit("TLS_1_0");
        reveal_strlit("TLS_1_1");
        reveal_strlit("TLS_1_2");
        reveal_strlit("TLS_1_3");
        assert("TLS_1_4"@[6] == '4');
    }
    lemma_unknown_tls_version_is_rejected(raw, found, profile);
}

/// A TLS version among the four names is kept as it is written, where the
/// other settings are valid.
pub proof fn lemma_known_tls_version_is_kept(
    raw: ProxyConfigurationView,
    found: bool,
    profile: BuildProfile,
)
    requires
        raw.proxy_min_tls_version matches Some(version) && is_tls_version(version),
        valid_before_tls_version(raw),
    ensures
        resolve(raw, found, profile) matches Ok(effective) && Some(effective.proxy_min_tls_version)
            == raw.proxy_min_tls_version,
{
}

/// `TLS_1_2` is a TLS version: a document that asks for it, and is valid in
/// its other settings, resolves to `TLS_1_2` exactly.
pub proof fn lemma_tls_1_2_is_kept(
    raw: ProxyConfigurationView,
    found: bool,
    profile: BuildProfile,
)
    requires
        raw.proxy_min_tls_version == Some("TLS_1_2"@),
        valid_before_tls_version(raw),
    ensures
        resolve(raw, found, profile) matches Ok(effective) && effective.proxy_min_tls_version
            == "TLS_1_2"@,
{
    lemma_known_tls_version_is_kept(raw, found, profile);
}

/// A logging level that goes on after the name of a level is accepted and
/// kept as it is written, where the other settings are valid.
pub proof fn lemma_logging_level_prefix_is_accepted(
    raw: ProxyConfigurationView,
    found: bool,
    profile: BuildProfile,
)
    requires
        raw.logging_level matches Some(level) && is_logging_level(level),
        valid_before_logging_level(raw),
        raw.proxy_min_tls_version matches Some(version) ==> is_tls_version(version),
    ensures
        resolve(raw, found, profile) matches Ok(effective) && Some(effective.logging_level)
            == raw.logging_level,
{
}

/// `errorxyz` begins with `error`: a document with this logging level, and
/// valid in its other settings, is accepted, and the level is kept as it is
/// written.
pub proof fn lemma_errorxyz_is_accepted(
    raw: ProxyConfigurationView,
    found: bool,
    profile: BuildProfile,
)
    requires
        raw.logging_level == Some("errorxyz"@),
        valid_before_logging_level(raw),
        raw.proxy_min_tls_version matches Some(version) ==> is_tls_version(version),
    ensures
        resolve(raw, found, profile) matches Ok(effective) && effective.logging_level
            == "errorxyz"@,
{
    assert(is_logging_level("errorxyz"@)) by {
        reveal_strlit("errorxyz");
        reveal_strlit("error");
        assert("errorxyz"@.subrange(0, 5) =~= "error"@);
    }
    lemma_logging_level_prefix_is_accepted(raw, found, profile);
}

} // verus!
