//! Edits of one setting at a time, as the settings editor makes them.
//!
//! An edit works on the raw document, so it never brings in a default: an
//! empty text unsets the setting, any other text is read as the setting's
//! kind of value and stored. A text that cannot be read is an error, and
//! leaves the document as it was. A name that is no editable setting is no
//! error: the document stays as it was.

use vstd::prelude::*;
use crate::address::{check_ip, is_ip_literal};
use crate::models::{ProxyConfiguration, ProxyConfigurationView};
use crate::number::{
    bool_of_text, decimal_value, i32_of_text, parse_bool, parse_i32, parse_u16, parse_u32, parse_u64,
    parse_usize, u16_of_text, u32_of_text, u64_of_text, usize_of_text,
};
use crate::text::{chars_of, same_chars};

verus! {

/// The settings that can be edited one at a time. The proxy rules, the
/// secrets, the flag strings and the contact address are not among them.
#[derive(Debug, Clone, Copy, PartialEq, Eq, Structural)]
pub enum EditableField {
    /// `listening_address`: an IP literal.
    ListeningAddress,
    /// `listening_port_http`: a 16-bit unsigned number.
    ListeningPortHttp,
    /// `listening_port_https`: a 16-bit unsigned number.
    ListeningPortHttps,
    /// `logging_level`: any text.
    LoggingLevel,
    /// `add_caching`: `true` or `false`.
    AddCaching,
    /// `add_rate_limiting`: `true` or `false`.
    AddRateLimiting,
    /// `add_logging`: `true` or `false`.
    AddLogging,
    /// `disable_default_body_limit`: `true` or `false`.
    DisableDefaultBodyLimit,
    /// `add_sql_injection_protection`: `true` or `false`.
    AddSqlInjectionProtection,
    /// `recv_buffer_size`: an unsigned number of the machine's word size.
    RecvBufferSize,
    /// `send_buffer_size`: an unsigned number of the machine's word size.
    SendBufferSize,
    /// `ip_ttl`: a 32-bit unsigned number.
    IpTtl,
    /// `tcp_keep_alive_seconds`: a 64-bit unsigned number.
    TcpKeepAliveSeconds,
    /// `max_backlog`: a 32-bit signed number.
    MaxBacklog,
}

/// The name under which the document holds `field`.
pub open spec fn field_name(field: EditableField) -> Seq<char> {
    match field {
        EditableField::ListeningAddress => "listening_address"@,
        EditableField::ListeningPortHttp => "listening_port_http"@,
        EditableField::ListeningPortHttps => "listening_port_https"@,
        EditableField::LoggingLevel => "logging_level"@,
        EditableField::AddCaching => "add_caching"@,
        EditableField::AddRateLimiting => "add_rate_limiting"@,
        EditableField::AddLogging => "add_logging"@,
        EditableField::DisableDefaultBodyLimit => "disable_default_body_limit"@,
        EditableField::AddSqlInjectionProtection => "add_sql_injection_protection"@,
        EditableField::RecvBufferSize => "recv_buffer_size"@,
        EditableField::SendBufferSize => "send_buffer_size"@,
        EditableField::IpTtl => "ip_ttl"@,
        EditableField::TcpKeepAliveSeconds => "tcp_keep_alive_seconds"@,
        EditableField::MaxBacklog => "max_backlog"@,
    }
}

/// The editable setting that `name` names, if any.
pub open spec fn field_named(name: Seq<char>) -> Option<EditableField> {
    if name == "listening_address"@ {
        Some(EditableField::ListeningAddress)
    } else if name == "listening_port_http"@ {
        Some(EditableField::ListeningPortHttp)
    } else if name == "listening_port_https"@ {
        Some(EditableField::ListeningPortHttps)
    } else if name == "logging_level"@ {
        Some(EditableField::LoggingLevel)
    } else if name == "add_caching"@ {
        Some(EditableField::AddCaching)
    } else if name == "add_rate_limiting"@ {
        Some(EditableField::AddRateLimiting)
    } else if name == "add_logging"@ {
        Some(EditableField::AddLogging)
    } else if name == "disable_default_body_limit"@ {
        Some(EditableField::DisableDefaultBodyLimit)
    } else if name == "add_sql_injection_protection"@ {
        Some(EditableField::AddSqlInjectionProtection)
    } else if name == "recv_buffer_size"@ {
        Some(EditableField::RecvBufferSize)
    } else if name == "send_buffer_size"@ {
        Some(EditableField::SendBufferSize)
    } else if name == "ip_ttl"@ {
        Some(EditableField::IpTtl)
    } else if name == "tcp_keep_alive_seconds"@ {
        Some(EditableField::TcpKeepAliveSeconds)
    } else if name == "max_backlog"@ {
        Some(EditableField::MaxBacklog)
    } else {
        None
    }
}

/// An edit that was refused: the setting, and the text that could not be
/// read as a value of it.
#[derive(Debug, PartialEq, Eq)]
pub struct EditError {
    pub field: EditableField,
    pub received: String,
}

/// The view of [`EditError`]: its texts as sequences of characters.
pub struct EditErrorView {
    pub field: EditableField,
    pub received: Seq<char>,
}

impl View for EditError {
    type V = EditErrorView;

    open spec fn view(&self) -> EditErrorView {
        EditErrorView { field: self.field, received: self.received@ }
    }
}

impl Clone for EditError {
    fn clone(&self) -> (r: Self)
        ensures
            r@ == self@,
    {
        EditError { field: self.field, received: self.received.clone() }
    }
}

/// What an edit that was not refused did.
#[derive(Debug, Clone, Copy, PartialEq, Eq, Structural)]
pub enum EditOutcome {
    /// The setting was set or unset.
    Applied,
    /// The name is no editable setting; nothing was changed.
    UnknownField,
}

/// The document `raw` with `field` unset.
pub open spec fn cleared(raw: ProxyConfigurationView, field: EditableField) -> ProxyConfigurationView {
    match field {
        EditableField::ListeningAddress => ProxyConfigurationView { listening_address: None, ..raw },
        EditableField::ListeningPortHttp => ProxyConfigurationView { listening_port_http: None, ..raw },
        EditableField::ListeningPortHttps => ProxyConfigurationView { listening_port_https: None, ..raw },
        EditableField::LoggingLevel => ProxyConfigurationView { logging_level: None, ..raw },
        EditableField::AddCaching => ProxyConfigurationView { add_caching: None, ..raw },
        EditableField::AddRateLimiting => ProxyConfigurationView { add_rate_limiting: None, ..raw },
        EditableField::AddLogging => ProxyConfigurationView { add_logging: None, ..raw },
        EditableField::DisableDefaultBodyLimit => ProxyConfigurationView { disable_default_body_limit: None, ..raw },
        EditableField::AddSqlInjectionProtection => ProxyConfigurationView { add_sql_injection_protection: None, ..raw },
        EditableField::RecvBufferSize => ProxyConfigurationView { recv_buffer_size: None, ..raw },
        EditableField::SendBufferSize => ProxyConfigurationView { send_buffer_size: None, ..raw },
        EditableField::IpTtl => ProxyConfigurationView { ip_ttl: None, ..raw },
        EditableField::TcpKeepAliveSeconds => ProxyConfigurationView { tcp_keep_alive_seconds: None, ..raw },
        EditableField::MaxBacklog => ProxyConfigurationView { max_backlog: None, ..raw },
    }
}

/// The document `raw` with `field` set to the value that `text` denotes, if
/// it denotes one.
pub open spec fn assigned(
    raw: ProxyConfigurationView,
    field: EditableField,
    text: Seq<char>,
) -> Option<ProxyConfigurationView> {
    match field {
        EditableField::ListeningAddress => if is_ip_literal(text) {
            Some(ProxyConfigurationView { listening_address: Some(text), ..raw })
        } else {
            None
        },
        EditableField::ListeningPortHttp => match u16_of_text(text) {
            Some(value) => Some(ProxyConfigurationView { listening_port_http: Some(value), ..raw }),
            None => None,
        },
        EditableField::ListeningPortHttps => match u16_of_text(text) {
            Some(value) => Some(ProxyConfigurationView { listening_port_https: Some(value), ..raw }),
            None => None,
        },
        EditableField::LoggingLevel => Some(ProxyConfigurationView { logging_level: Some(text), ..raw }),
        EditableField::AddCaching => match bool_of_text(text) {
            Some(value) => Some(ProxyConfigurationView { add_caching: Some(value), ..raw }),
            None => None,
        },
        EditableField::AddRateLimiting => match bool_of_text(text) {
            Some(value) => Some(ProxyConfigurationView { add_rate_limiting: Some(value), ..raw }),
            None => None,
        },
        EditableField::AddLogging => match bool_of_text(text) {
            Some(value) => Some(ProxyConfigurationView { add_logging: Some(value), ..raw }),
            None => None,
        },
        EditableField::DisableDefaultBodyLimit => match bool_of_text(text) {
            Some(value) => Some(ProxyConfigurationView { disable_default_body_limit: Some(value), ..raw }),
            None => None,
        },
        EditableField::AddSqlInjectionProtection => match bool_of_text(text) {
            Some(value) => Some(ProxyConfigurationView { add_sql_injection_protection: Some(value), ..raw }),
            None => None,
        },
        EditableField::RecvBufferSize => match usize_of_text(text) {
            Some(value) => Some(ProxyConfigurationView { recv_buffer_size: Some(value), ..raw }),
            None => None,
        },
        EditableField::SendBufferSize => match usize_of_text(text) {
            Some(value) => Some(ProxyConfigurationView { send_buffer_size: Some(value), ..raw }),
            None => None,
        },
        EditableField::IpTtl => match u32_of_text(text) {
            Some(value) => Some(ProxyConfigurationView { ip_ttl: Some(value), ..raw }),
            None => None,
        },
        EditableField::TcpKeepAliveSeconds => match u64_of_text(text) {
            Some(value) => Some(ProxyConfigurationView { tcp_keep_alive_seconds: Some(value), ..raw }),
            None => None,
        },
        EditableField::MaxBacklog => match i32_of_text(text) {
            Some(value) => Some(ProxyConfigurationView { max_backlog: Some(value), ..raw }),
            None => None,
        },
    }
}

/// What the edit of `field` with `text` makes of `raw`: the empty text unsets
/// the setting, any other text sets it or is refused.
pub open spec fn edit_field(
    raw: ProxyConfigurationView,
    field: EditableField,
    text: Seq<char>,
) -> Result<ProxyConfigurationView, EditErrorView> {
    if text.len() == 0 {
        Ok(cleared(raw, field))
    } else {
        match assigned(raw, field, text) {
            Some(document) => Ok(document),
            None => Err(EditErrorView { field, received: text }),
        }
    }
}

/// What the edit of the setting called `name` with `text` makes of `raw`. A
/// name that is no editable setting leaves `raw` as it is.
pub open spec fn edit(
    raw: ProxyConfigurationView,
    name: Seq<char>,
    text: Seq<char>,
) -> Result<ProxyConfigurationView, EditErrorView> {
    match field_named(name) {
        Some(field) => edit_field(raw, field, text),
        None => Ok(raw),
    }
}

impl EditableField {
    /// The name under which the document holds this setting.
    pub fn name(&self) -> (r: &'static str)
        ensures
            r@ == field_name(*self),
    {
        match self {
            EditableField::ListeningAddress => "listening_address",
            EditableField::ListeningPortHttp => "listening_port_http",
            EditableField::ListeningPortHttps => "listening_port_https",
            EditableField::LoggingLevel => "logging_level",
            EditableField::AddCaching => "add_caching",
            EditableField::AddRateLimiting => "add_rate_limiting",
            EditableField::AddLogging => "add_logging",
            EditableField::DisableDefaultBodyLimit => "disable_default_body_limit",
            EditableField::AddSqlInjectionProtection => "add_sql_injection_protection",
            EditableField::RecvBufferSize => "recv_buffer_size",
            EditableField::SendBufferSize => "send_buffer_size",
            EditableField::IpTtl => "ip_ttl",
            EditableField::TcpKeepAliveSeconds => "tcp_keep_alive_seconds",
            EditableField::MaxBacklog => "max_backlog",
        }
    }

    /// The editable setting that `name` names, if any.
    pub fn from_name(name: &str) -> (r: Option<EditableField>)
        ensures
            r == field_named(name@),
    {
        let chars = chars_of(name);
        if same_chars(&chars, &chars_of("listening_address")) {
            Some(EditableField::ListeningAddress)
        } else if same_chars(&chars, &chars_of("listening_port_http")) {
            Some(EditableField::ListeningPortHttp)
        } else if same_chars(&chars, &chars_of("listening_port_https")) {
            Some(EditableField::ListeningPortHttps)
        } else if same_chars(&chars, &chars_of("logging_level")) {
            Some(EditableField::LoggingLevel)
        } else if same_chars(&chars, &chars_of("add_caching")) {
            Some(EditableField::AddCaching)
        } else if same_chars(&chars, &chars_of("add_rate_limiting")) {
            Some(EditableField::AddRateLimiting)
        } else if same_chars(&chars, &chars_of("add_logging")) {
            Some(EditableField::AddLogging)
        } else if same_chars(&chars, &chars_of("disable_default_body_limit")) {
            Some(EditableField::DisableDefaultBodyLimit)
        } else if same_chars(&chars, &chars_of("add_sql_injection_protection")) {
            Some(EditableField::AddSqlInjectionProtection)
        } else if same_chars(&chars, &chars_of("recv_buffer_size")) {
            Some(EditableField::RecvBufferSize)
        } else if same_chars(&chars, &chars_of("send_buffer_size")) {
            Some(EditableField::SendBufferSize)
        } else if same_chars(&chars, &chars_of("ip_ttl")) {
            Some(EditableField::IpTtl)
        } else if same_chars(&chars, &chars_of("tcp_keep_alive_seconds")) {
            Some(EditableField::TcpKeepAliveSeconds)
        } else if same_chars(&chars, &chars_of("max_backlog")) {
            Some(EditableField::MaxBacklog)
        } else {
            None
        }
    }
}

impl ProxyConfiguration {
    /// Unsets `field`.
    pub fn clear_field(&mut self, field: EditableField)
        ensures
            final(self)@ == cleared(old(self)@, field),
    {
        match field {
            EditableField::ListeningAddress => {
                self.listening_address = None;
            },
            EditableField::ListeningPortHttp => {
                self.listening_port_http = None;
            },
            EditableField::ListeningPortHttps => {
                self.listening_port_https = None;
            },
            EditableField::LoggingLevel => {
                self.logging_level = None;
            },
            EditableField::AddCaching => {
                self.add_caching = None;
            },
            EditableField::AddRateLimiting => {
                self.add_rate_limiting = None;
            },
            EditableField::AddLogging => {
                self.add_logging = None;
            },
            EditableField::DisableDefaultBodyLimit => {
                self.disable_default_body_limit = None;
            },
            EditableField::AddSqlInjectionProtection => {
                self.add_sql_injection_protection = None;
            },
            EditableField::RecvBufferSize => {
                self.recv_buffer_size = None;
            },
            EditableField::SendBufferSize => {
                self.send_buffer_size = None;
            },
            EditableField::IpTtl => {
                self.ip_ttl = None;
            },
            EditableField::TcpKeepAliveSeconds => {
                self.tcp_keep_alive_seconds = None;
            },
            EditableField::MaxBacklog => {
                self.max_backlog = None;
            },
        }
    }

    /// Edits `field`: the empty text unsets it, any other text is read as a
    /// value of its kind and stored. A text that cannot be read is refused,
    /// and the document stays as it was.
    pub fn set_field(&mut self, field: EditableField, setting_value: &str) -> (r: Result<
        (),
        EditError,
    >)
        ensures
            match edit_field(old(self)@, field, setting_value@) {
                Ok(document) => r is Ok && final(self)@ == document,
                Err(error) => r matches Err(e) && e@ == error && *final(self) == *old(self),
            },
    {
        let text = chars_of(setting_value);
        if text.len() == 0 {
            self.clear_field(field);
            return Ok(());
        }
        match field {
            EditableField::ListeningAddress => {
                if check_ip(&text) {
                    self.listening_address = Some(setting_value.to_owned());
                    Ok(())
                } else {
                    Err(EditError { field, received: setting_value.to_owned() })
                }
            },
            EditableField::ListeningPortHttp => match parse_u16(&text) {
                Some(value) => {
                    self.listening_port_http = Some(value);
                    Ok(())
                },
                None => Err(EditError { field, received: setting_value.to_owned() }),
            },
            EditableField::ListeningPortHttps => match parse_u16(&text) {
                Some(value) => {
                    self.listening_port_https = Some(value);
                    Ok(())
                },
                None => Err(EditError { field, received: setting_value.to_owned() }),
            },
            EditableField::LoggingLevel => {
                self.logging_level = Some(setting_value.to_owned());
                Ok(())
            },
            EditableField::AddCaching => match parse_bool(&text) {
                Some(value) => {
                    self.add_caching = Some(value);
                    Ok(())
                },
                None => Err(EditError { field, received: setting_value.to_owned() }),
            },
            EditableField::AddRateLimiting => match parse_bool(&text) {
                Some(value) => {
                    self.add_rate_limiting = Some(value);
                    Ok(())
                },
                None => Err(EditError { field, received: setting_value.to_owned() }),
            },
            EditableField::AddLogging => match parse_bool(&text) {
                Some(value) => {
                    self.add_logging = Some(value);
                    Ok(())
                },
                None => Err(EditError { field, received: setting_value.to_owned() }),
            },
            EditableField::DisableDefaultBodyLimit => match parse_bool(&text) {
                Some(value) => {
                    self.disable_default_body_limit = Some(value);
                    Ok(())
                },
                None => Err(EditError { field, received: setting_value.to_owned() }),
            },
            EditableField::AddSqlInjectionProtection => match parse_bool(&text) {
                Some(value) => {
                    self.add_sql_injection_protection = Some(value);
                    Ok(())
                },
                None => Err(EditError { field, received: setting_value.to_owned() }),
            },
            EditableField::RecvBufferSize => match parse_usize(&text) {
                Some(value) => {
                    self.recv_buffer_size = Some(value);
                    Ok(())
                },
                None => Err(EditError { field, received: setting_value.to_owned() }),
            },
            EditableField::SendBufferSize => match parse_usize(&text) {
                Some(value) => {
                    self.send_buffer_size = Some(value);
                    Ok(())
                },
                None => Err(EditError { field, received: setting_value.to_owned() }),
            },
            EditableField::IpTtl => match parse_u32(&text) {
                Some(value) => {
                    self.ip_ttl = Some(value);
                    Ok(())
                },
                None => Err(EditError { field, received: setting_value.to_owned() }),
            },
            EditableField::TcpKeepAliveSeconds => match parse_u64(&text) {
                Some(value) => {
                    self.tcp_keep_alive_seconds = Some(value);
                    Ok(())
                },
                None => Err(EditError { field, received: setting_value.to_owned() }),
            },
            EditableField::MaxBacklog => match parse_i32(&text) {
                Some(value) => {
                    self.max_backlog = Some(value);
                    Ok(())
                },
                None => Err(EditError { field, received: setting_value.to_owned() }),
            },
        }
    }

    /// Edits the setting called `setting_name`, as `set_field` does. A name
    /// that is no editable setting changes nothing and is no error.
    pub fn apply_edit(&mut self, setting_name: &str, setting_value: &str) -> (r: Result<
        EditOutcome,
        EditError,
    >)
        ensures
            match edit(old(self)@, setting_name@, setting_value@) {
                Ok(document) => final(self)@ == document && r == Ok::<EditOutcome, EditError>(
                    if field_named(setting_name@) is Some {
                        EditOutcome::Applied
                    } else {
                        EditOutcome::UnknownField
                    },
                ),
                Err(error) => r matches Err(e) && e@ == error && *final(self) == *old(self),
            },
            field_named(setting_name@) is None ==> *final(self) == *old(self),
    {
        match EditableField::from_name(setting_name) {
            Some(field) => match self.set_field(field, setting_value) {
                Ok(()) => Ok(EditOutcome::Applied),
                Err(error) => Err(error),
            },
            None => Ok(EditOutcome::UnknownField),
        }
    }
}

/// The lengths of the names of the editable settings, and two characters of
/// each: enough to tell any two of them apart.
proof fn lemma_names_of_fields()
    ensures
        "listening_address"@.len() == 17,
        "listening_address"@[0] == 'l',
        "listening_address"@[4] == 'e',
        "listening_port_http"@.len() == 19,
        "listening_port_http"@[0] == 'l',
        "listening_port_http"@[4] == 'e',
        "listening_port_https"@.len() == 20,
        "listening_port_https"@[0] == 'l',
        "listening_port_https"@[4] == 'e',
        "logging_level"@.len() == 13,
        "logging_level"@[0] == 'l',
        "logging_level"@[4] == 'i',
        "add_caching"@.len() == 11,
        "add_caching"@[0] == 'a',
        "add_caching"@[4] == 'c',
        "add_rate_limiting"@.len() == 17,
        "add_rate_limiting"@[0] == 'a',
        "add_rate_limiting"@[4] == 'r',
        "add_logging"@.len() == 11,
        "add_logging"@[0] == 'a',
        "add_logging"@[4] == 'l',
        "disable_default_body_limit"@.len() == 26,
        "disable_default_body_limit"@[0] == 'd',
        "disable_default_body_limit"@[4] == 'b',
        "add_sql_injection_protection"@.len() == 28,
        "add_sql_injection_protection"@[0] == 'a',
        "add_sql_injection_protection"@[4] == 's',
        "recv_buffer_size"@.len() == 16,
        "recv_buffer_size"@[0] == 'r',
        "recv_buffer_size"@[4] == '_',
        "send_buffer_size"@.len() == 16,
        "send_buffer_size"@[0] == 's',
        "send_buffer_size"@[4] == '_',
        "ip_ttl"@.len() == 6,
        "ip_ttl"@[0] == 'i',
        "ip_ttl"@[4] == 't',
        "tcp_keep_alive_seconds"@.len() == 22,
        "tcp_keep_alive_seconds"@[0] == 't',
        "tcp_keep_alive_seconds"@[4] == 'k',
        "max_backlog"@.len() == 11,
        "max_backlog"@[0] == 'm',
        "max_backlog"@[4] == 'b',
{
    reveal_strlit("listening_address");
    reveal_strlit("listening_port_http");
    reveal_strlit("listening_port_https");
    reveal_strlit("logging_level");
    reveal_strlit("add_caching");
    reveal_strlit("add_rate_limiting");
    reveal_strlit("add_logging");
    reveal_strlit("disable_default_body_limit");
    reveal_strlit("add_sql_injection_protection");
    reveal_strlit("recv_buffer_size");
    reveal_strlit("send_buffer_size");
    reveal_strlit("ip_ttl");
    reveal_strlit("tcp_keep_alive_seconds");
    reveal_strlit("max_backlog");
}

/// Every editable setting is found again under its own name: no two
/// settings share a name.
pub proof fn lemma_field_is_found_by_its_name(field: EditableField)
    ensures
        field_named(field_name(field)) == Some(field),
{
    lemma_names_of_fields();
}

/// The empty text unsets a setting, whatever the document held for it, and
/// leaves the other settings as they were. So it does for the HTTP port.
pub proof fn lemma_empty_text_unsets(raw: ProxyConfigurationView, field: EditableField)
    ensures
        edit(raw, field_name(field), Seq::<char>::empty()) == Ok::<
            ProxyConfigurationView,
            EditErrorView,
        >(cleared(raw, field)),
        edit(raw, "listening_port_http"@, ""@) == Ok::<ProxyConfigurationView, EditErrorView>(
            ProxyConfigurationView { listening_port_http: None, ..raw },
        ),
{
    lemma_field_is_found_by_its_name(field);
    lemma_field_is_found_by_its_name(EditableField::ListeningPortHttp);
    reveal_strlit("");
}

/// An edit that is not refused changes the setting it names and no other:
/// with that setting unset on both sides, the documents before and after are
/// the same.
pub proof fn lemma_edit_changes_one_field(
    raw: ProxyConfigurationView,
    field: EditableField,
    text: Seq<char>,
)
    ensures
        edit_field(raw, field, text) matches Ok(document) ==> cleared(document, field) == cleared(
            raw,
            field,
        ),
{
}

/// A text that does not denote a value of the setting is refused, with the
/// setting and the text in the error.
pub proof fn lemma_unreadable_text_is_refused(
    raw: ProxyConfigurationView,
    field: EditableField,
    text: Seq<char>,
)
    requires
        text.len() > 0,
        assigned(raw, field, text) is None,
    ensures
        edit(raw, field_name(field), text) == Err::<ProxyConfigurationView, EditErrorView>(
            EditErrorView { field, received: text },
        ),
{
    lemma_field_is_found_by_its_name(field);
}

/// `99999` is a number, but not one of 16 bits: as the HTTP port it is
/// refused, whatever the document holds.
pub proof fn lemma_port_above_range_is_refused(raw: ProxyConfigurationView)
    ensures
        edit(raw, "listening_port_http"@, "99999"@) == Err::<
            ProxyConfigurationView,
            EditErrorView,
        >(EditErrorView { field: EditableField::ListeningPortHttp, received: "99999"@ }),
{
    reveal_strlit("99999");
    let nines = "99999"@;
    assert(decimal_value(nines) == 99999) by {
        reveal_with_fuel(decimal_value, 6);
        assert(nines.drop_last() =~= seq!['9', '9', '9', '9']);
        assert(nines.drop_last().drop_last() =~= seq!['9', '9', '9']);
        assert(nines.drop_last().drop_last().drop_last() =~= seq!['9', '9']);
        assert(nines.drop_last().drop_last().drop_last().drop_last() =~= seq!['9']);
    }
    lemma_unreadable_text_is_refused(raw, EditableField::ListeningPortHttp, nines);
}

/// A name that is no editable setting leaves the document as it is, and is
/// no error.
pub proof fn lemma_unknown_name_changes_nothing(
    raw: ProxyConfigurationView,
    name: Seq<char>,
    text: Seq<char>,
)
    requires
        field_named(name) is None,
    ensures
        edit(raw, name, text) == Ok::<ProxyConfigurationView, EditErrorView>(raw),
{
}

/// `not_a_real_field` is no editable setting: an edit under this name leaves
/// the document as it is, whatever the text.
pub proof fn lemma_not_a_real_field_changes_nothing(raw: ProxyConfigurationView, text: Seq<char>)
    ensures
        field_named("not_a_real_field"@) is None,
        edit(raw, "not_a_real_field"@, text) == Ok::<ProxyConfigurationView, EditErrorView>(raw),
{
    lemma_names_of_fields();
    reveal_strlit("not_a_real_field");
    assert("not_a_real_field"@.len() == 16);
    assert("not_a_real_field"@[0] == 'n');
}

} // verus!
