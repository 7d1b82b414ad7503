use proxy_config::edit::{EditError, EditOutcome, EditableField};
use proxy_config::models::ProxyConfiguration;

const FIELDS: [(EditableField, &str); 14] = [
    (EditableField::ListeningAddress, "listening_address"),
    (EditableField::ListeningPortHttp, "listening_port_http"),
    (EditableField::ListeningPortHttps, "listening_port_https"),
    (EditableField::LoggingLevel, "logging_level"),
    (EditableField::AddCaching, "add_caching"),
    (EditableField::AddRateLimiting, "add_rate_limiting"),
    (EditableField::AddLogging, "add_logging"),
    (EditableField::DisableDefaultBodyLimit, "disable_default_body_limit"),
    (EditableField::AddSqlInjectionProtection, "add_sql_injection_protection"),
    (EditableField::RecvBufferSize, "recv_buffer_size"),
    (EditableField::SendBufferSize, "send_buffer_size"),
    (EditableField::IpTtl, "ip_ttl"),
    (EditableField::TcpKeepAliveSeconds, "tcp_keep_alive_seconds"),
    (EditableField::MaxBacklog, "max_backlog"),
];

fn filled() -> ProxyConfiguration {
    let mut raw = ProxyConfiguration::blank();
    raw.listening_address = Some("10.1.2.3".to_string());
    raw.listening_port_http = Some(8080);
    raw.listening_port_https = Some(8443);
    raw.logging_level = Some("info".to_string());
    raw.add_caching = Some(true);
    raw.add_rate_limiting = Some(false);
    raw.add_logging = Some(true);
    raw.disable_default_body_limit = Some(false);
    raw.add_sql_injection_protection = Some(true);
    raw.recv_buffer_size = Some(1);
    raw.send_buffer_size = Some(2);
    raw.ip_ttl = Some(3);
    raw.tcp_keep_alive_seconds = Some(4);
    raw.max_backlog = Some(5);
    raw.api_key = Some("secret".to_string());
    raw.proxy_timeout = Some(9);
    raw
}

#[test]
fn names_and_fields_correspond() {
    for (field, name) in FIELDS {
        assert_eq!(field.name(), name);
        assert_eq!(EditableField::from_name(name), Some(field));
    }
}

#[test]
fn other_names_are_no_editable_fields() {
    for name in [
        "", "not_a_real_field", "proxy_rules", "api_key", "azure_table_storage_key",
        "compression_flags", "lets_encrypt_contact_email", "Listening_address",
        "listening_address ", "listening_port", "listening_port_httpss", "ip_ttl\n",
        "proxy_timeout", "backtracing",
    ] {
        assert_eq!(EditableField::from_name(name), None, "{name}");
    }
}

#[test]
fn empty_text_unsets_the_http_port_whatever_it_held() {
    for before in [None, Some(0u16), Some(80), Some(65535)] {
        let mut raw = filled();
        raw.listening_port_http = before;
        let mut expected = raw.clone();
        expected.listening_port_http = None;
        assert_eq!(raw.apply_edit("listening_port_http", ""), Ok(EditOutcome::Applied));
        assert_eq!(raw.listening_port_http, None);
        assert_eq!(raw, expected);
    }
}

#[test]
fn empty_text_unsets_every_editable_field_and_no_other() {
    for (field, name) in FIELDS {
        let mut raw = filled();
        assert_eq!(raw.apply_edit(name, ""), Ok(EditOutcome::Applied));
        let mut expected = filled();
        expected.clear_field(field);
        assert_eq!(raw, expected);
        assert_ne!(raw, filled());
        let mut again = raw.clone();
        assert_eq!(again.set_field(field, ""), Ok(()));
        assert_eq!(again, raw);
    }
    let mut raw = filled();
    raw.clear_field(EditableField::IpTtl);
    assert_eq!(raw.ip_ttl, None);
    assert_eq!(raw.tcp_keep_alive_seconds, Some(4));
    assert_eq!(raw.api_key.as_deref(), Some("secret"));
}

#[test]
fn port_beyond_sixteen_bits_is_refused_and_changes_nothing() {
    let mut raw = filled();
    let r = raw.apply_edit("listening_port_http", "99999");
    assert_eq!(
        r,
        Err(EditError { field: EditableField::ListeningPortHttp, received: "99999".to_string() })
    );
    assert_eq!(raw, filled());
    let mut blank = ProxyConfiguration::blank();
    assert!(blank.apply_edit("listening_port_https", "65536").is_err());
    assert_eq!(blank, ProxyConfiguration::blank());
}

#[test]
fn unknown_name_changes_nothing_and_is_no_error() {
    let mut raw = filled();
    assert_eq!(raw.apply_edit("not_a_real_field", "x"), Ok(EditOutcome::UnknownField));
    assert_eq!(raw, filled());
    assert_eq!(raw.apply_edit("api_key", ""), Ok(EditOutcome::UnknownField));
    assert_eq!(raw.apply_edit("proxy_min_tls_version", "TLS_1_2"), Ok(EditOutcome::UnknownField));
    assert_eq!(raw, filled());
}

#[test]
fn each_kind_of_value_is_read_and_stored() {
    let mut raw = ProxyConfiguration::blank();
    assert_eq!(raw.apply_edit("listening_address", "192.168.0.1"), Ok(EditOutcome::Applied));
    assert_eq!(raw.apply_edit("listening_port_http", "8080"), Ok(EditOutcome::Applied));
    assert_eq!(raw.apply_edit("listening_port_https", "65535"), Ok(EditOutcome::Applied));
    assert_eq!(raw.apply_edit("logging_level", "anything at all"), Ok(EditOutcome::Applied));
    assert_eq!(raw.apply_edit("add_caching", "true"), Ok(EditOutcome::Applied));
    assert_eq!(raw.apply_edit("add_rate_limiting", "false"), Ok(EditOutcome::Applied));
    assert_eq!(raw.apply_edit("add_logging", "true"), Ok(EditOutcome::Applied));
    assert_eq!(raw.apply_edit("disable_default_body_limit", "false"), Ok(EditOutcome::Applied));
    assert_eq!(raw.apply_edit("add_sql_injection_protection", "true"), Ok(EditOutcome::Applied));
    assert_eq!(raw.apply_edit("recv_buffer_size", "65536"), Ok(EditOutcome::Applied));
    assert_eq!(raw.apply_edit("send_buffer_size", "+131072"), Ok(EditOutcome::Applied));
    assert_eq!(raw.apply_edit("ip_ttl", "4294967295"), Ok(EditOutcome::Applied));
    assert_eq!(
        raw.apply_edit("tcp_keep_alive_seconds", "18446744073709551615"),
        Ok(EditOutcome::Applied)
    );
    assert_eq!(raw.apply_edit("max_backlog", "-2147483648"), Ok(EditOutcome::Applied));
    let mut expected = ProxyConfiguration::blank();
    expected.listening_address = Some("192.168.0.1".to_string());
    expected.listening_port_http = Some(8080);
    expected.listening_port_https = Some(65535);
    expected.logging_level = Some("anything at all".to_string());
    expected.add_caching = Some(true);
    expected.add_rate_limiting = Some(false);
    expected.add_logging = Some(true);
    expected.disable_default_body_limit = Some(false);
    expected.add_sql_injection_protection = Some(true);
    expected.recv_buffer_size = Some(65536);
    expected.send_buffer_size = Some(131072);
    expected.ip_ttl = Some(4294967295);
    expected.tcp_keep_alive_seconds = Some(18446744073709551615);
    expected.max_backlog = Some(-2147483648);
    assert_eq!(raw, expected);
}

#[test]
fn a_refused_text_names_the_field_and_the_text() {
    let cases = [
        ("listening_address", "example.org"),
        ("listening_port_http", "-1"),
        ("listening_port_https", "80 "),
        ("add_caching", "yes"),
        ("add_rate_limiting", "True"),
        ("add_logging", "1"),
        ("disable_default_body_limit", " true"),
        ("add_sql_injection_protection", "falsee"),
        ("recv_buffer_size", "1e3"),
        ("send_buffer_size", "18446744073709551616"),
        ("ip_ttl", "4294967296"),
        ("tcp_keep_alive_seconds", "18446744073709551616"),
        ("max_backlog", "2147483648"),
        ("max_backlog", "-2147483649"),
        ("max_backlog", "--1"),
        ("ip_ttl", "+"),
    ];
    for (name, text) in cases {
        let mut raw = filled();
        let field = EditableField::from_name(name).unwrap();
        assert_eq!(
            raw.apply_edit(name, text),
            Err(EditError { field, received: text.to_string() }),
            "{name} {text}"
        );
        assert_eq!(raw, filled());
        assert_eq!(
            raw.set_field(field, text),
            Err(EditError { field, received: text.to_string() })
        );
        assert_eq!(raw, filled());
    }
}

#[test]
fn an_edit_changes_the_one_field_it_names() {
    let mut raw = filled();
    assert_eq!(raw.apply_edit("ip_ttl", "255"), Ok(EditOutcome::Applied));
    let mut expected = filled();
    expected.ip_ttl = Some(255);
    assert_eq!(raw, expected);
    assert_eq!(raw.set_field(EditableField::MaxBacklog, "-0"), Ok(()));
    expected.max_backlog = Some(0);
    assert_eq!(raw, expected);
}

#[test]
fn an_edited_address_is_an_ip_literal() {
    let mut raw = ProxyConfiguration::blank();
    assert_eq!(raw.apply_edit("listening_address", "::ffff:10.0.0.1"), Ok(EditOutcome::Applied));
    assert_eq!(raw.listening_address.as_deref(), Some("::ffff:10.0.0.1"));
    assert!(raw.apply_edit("listening_address", "10.0.0.256").is_err());
    assert_eq!(raw.listening_address.as_deref(), Some("::ffff:10.0.0.1"));
}

#[test]
fn edit_errors_can_be_cloned() {
    let e = EditError { field: EditableField::IpTtl, received: "x".to_string() };
    assert_eq!(e.clone(), e);
}
