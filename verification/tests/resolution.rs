use proxy_config::models::{
    MatchType, PathRule, ProxyConfiguration, ProxyRuleInner, RoutingLocation, RoutingMethod,
    RoutingRule, RuleType, UserAgentRule,
};
use proxy_config::profile::BuildProfile;
use proxy_config::resolve::{Constraint, ValidatedField, ValidationError};

fn sample_rule() -> ProxyRuleInner {
    ProxyRuleInner {
        domain: "example.org".to_string(),
        max_age_seconds: 3600,
        paths: Some(vec!["/a".to_string(), "/b".to_string()]),
        forward_addr: Some("10.0.0.1".to_string()),
        forward_ipv4: None,
        forward_ipv6: Some("::1".to_string()),
        forward_port_http: Some(8080),
        forward_port_https: None,
        rule_type: RuleType::Blacklist,
        enable_logging: true,
        path_rules: Some(vec![PathRule {
            max_age_seconds: 60,
            path: "/static".to_string(),
            match_type: MatchType::StartsWith,
            rule_type: RuleType::Whitelist,
        }]),
        routing_rules: Some(RoutingRule {
            routing_method: RoutingMethod::Weighted,
            routing_locations: vec![RoutingLocation {
                primary: Some(true),
                priority: Some(1),
                forward_addr: None,
                forward_ipv4: Some("10.0.0.2".to_string()),
                forward_ipv6: None,
                forward_port_http: Some(80),
                forward_port_https: Some(443),
            }],
            https_only: true,
            enable_health_checks: true,
            health_check_interval: 30,
            health_check_path: None,
        }),
        ignore_query_string: false,
        enable_sql_injection_protection: true,
        disallowed_user_agents: Some(vec![UserAgentRule {
            user_agent: "bot".to_string(),
            match_type: MatchType::Contains,
        }]),
        enable_compression: true,
        compression_flags: Some("gzip".to_string()),
        enable_minification: false,
        minification_flags: None,
        enable_webp_transformation: true,
        webp_transformation_min_age: Some(10),
    }
}

#[test]
fn development_defaults_are_exact() {
    let d = ProxyConfiguration::default_inner(BuildProfile::Development);
    assert!(!d.configuration_file_found);
    assert_eq!(d.listening_address, "0.0.0.0");
    assert_eq!(d.listening_port_http, 80);
    assert_eq!(d.listening_port_https, 443);
    assert!(d.backtracing);
    assert!(d.add_caching);
    assert!(!d.add_rate_limiting);
    assert!(!d.add_logging);
    assert!(!d.disable_default_body_limit);
    assert_eq!(d.api_key, None);
    assert_eq!(d.azure_table_storage_key, None);
    assert!(d.proxy_rules.is_empty());
    assert_eq!(d.logging_level, "debug");
    assert!(!d.add_sql_injection_protection);
    assert_eq!(d.lets_encrypt_contact_email, None);
    assert!(!d.enable_compression);
    assert_eq!(d.compression_flags, None);
    assert_eq!(d.recv_buffer_size, None);
    assert_eq!(d.send_buffer_size, None);
    assert_eq!(d.ip_ttl, None);
    assert_eq!(d.tcp_keep_alive_seconds, None);
    assert_eq!(d.max_backlog, None);
    assert!(d.enable_streaming);
    assert!(d.nonblocking);
    assert!(d.nodelay);
    assert!(d.proxy_nodelay);
    assert_eq!(d.proxy_keepalive_sec, 120);
    assert_eq!(d.proxy_timeout, 45);
    assert_eq!(d.proxy_min_tls_version, "TLS_1_3");
}

#[test]
fn production_defaults_differ_in_four_settings_only() {
    let dev = ProxyConfiguration::default_inner(BuildProfile::Development);
    let mut prod = ProxyConfiguration::default_inner(BuildProfile::Production);
    assert!(!prod.backtracing);
    assert!(prod.add_caching);
    assert!(prod.add_rate_limiting);
    assert!(prod.add_logging);
    assert_eq!(prod.logging_level, "error");
    prod.backtracing = true;
    prod.add_rate_limiting = false;
    prod.add_logging = false;
    prod.logging_level = "debug".to_string();
    assert_eq!(prod, dev);
}

#[test]
fn defaults_are_the_same_on_every_call() {
    for profile in [BuildProfile::Development, BuildProfile::Production] {
        assert_eq!(
            ProxyConfiguration::default_inner(profile),
            ProxyConfiguration::default_inner(profile)
        );
    }
}

#[test]
fn blank_document_resolves_to_defaults_but_for_the_found_flag() {
    for profile in [BuildProfile::Development, BuildProfile::Production] {
        let resolved = ProxyConfiguration::blank().into_inner(true, profile).unwrap();
        assert!(resolved.configuration_file_found);
        let mut expected = ProxyConfiguration::default_inner(profile);
        assert_ne!(resolved, expected);
        expected.configuration_file_found = true;
        assert_eq!(resolved, expected);
        let unfound = ProxyConfiguration::blank().into_inner(false, profile).unwrap();
        assert_eq!(unfound, ProxyConfiguration::default_inner(profile));
    }
}

#[test]
fn absent_toggles_take_the_defaults_of_the_profile() {
    let dev = ProxyConfiguration::blank().into_inner(true, BuildProfile::Development).unwrap();
    assert!(dev.backtracing);
    assert!(dev.add_caching);
    assert!(!dev.add_rate_limiting);
    assert!(!dev.add_logging);
    assert_eq!(dev.logging_level, "debug");
    let prod = ProxyConfiguration::blank().into_inner(true, BuildProfile::Production).unwrap();
    assert!(!prod.backtracing);
    assert!(prod.add_caching);
    assert!(prod.add_rate_limiting);
    assert!(prod.add_logging);
    assert_eq!(prod.logging_level, "error");
}

#[test]
fn production_document_without_add_caching_resolves_to_caching() {
    let mut raw = ProxyConfiguration::blank();
    raw.listening_port_http = Some(8080);
    let resolved = raw.into_inner(true, BuildProfile::Production).unwrap();
    assert!(resolved.add_caching);
    assert_eq!(resolved.listening_port_http, 8080);
}

#[test]
fn present_settings_are_used_as_they_are() {
    let mut raw = ProxyConfiguration::blank();
    raw.listening_address = Some("::1".to_string());
    raw.listening_port_http = Some(0);
    raw.listening_port_https = Some(65535);
    raw.backtracing = Some(false);
    raw.add_caching = Some(false);
    raw.add_rate_limiting = Some(true);
    raw.add_logging = Some(true);
    raw.disable_default_body_limit = Some(true);
    raw.api_key = Some("key".to_string());
    raw.azure_table_storage_key = Some("azure".to_string());
    raw.proxy_rules = vec![sample_rule(), sample_rule()];
    raw.logging_level = Some("info".to_string());
    raw.add_sql_injection_protection = Some(true);
    raw.lets_encrypt_contact_email = Some("ops@example.org".to_string());
    raw.enable_compression = Some(true);
    raw.compression_flags = Some("br".to_string());
    raw.recv_buffer_size = Some(4096);
    raw.send_buffer_size = Some(8192);
    raw.ip_ttl = Some(64);
    raw.tcp_keep_alive_seconds = Some(7200);
    raw.max_backlog = Some(-1);
    raw.enable_streaming = Some(false);
    raw.nonblocking = Some(false);
    raw.nodelay = Some(false);
    raw.proxy_nodelay = Some(false);
    raw.proxy_keepalive_sec = Some(5);
    raw.proxy_timeout = Some(1);
    raw.proxy_min_tls_version = Some("TLS_1_0".to_string());
    let r = raw.into_inner(true, BuildProfile::Development).unwrap();
    assert!(r.configuration_file_found);
    assert_eq!(r.listening_address, "::1");
    assert_eq!(r.listening_port_http, 0);
    assert_eq!(r.listening_port_https, 65535);
    assert!(!r.backtracing);
    assert!(!r.add_caching);
    assert!(r.add_rate_limiting);
    assert!(r.add_logging);
    assert!(r.disable_default_body_limit);
    assert_eq!(r.api_key.as_deref(), Some("key"));
    assert_eq!(r.azure_table_storage_key.as_deref(), Some("azure"));
    assert_eq!(r.proxy_rules, vec![sample_rule(), sample_rule()]);
    assert_eq!(r.logging_level, "info");
    assert!(r.add_sql_injection_protection);
    assert_eq!(r.lets_encrypt_contact_email.as_deref(), Some("ops@example.org"));
    assert!(r.enable_compression);
    assert_eq!(r.compression_flags.as_deref(), Some("br"));
    assert_eq!(r.recv_buffer_size, Some(4096));
    assert_eq!(r.send_buffer_size, Some(8192));
    assert_eq!(r.ip_ttl, Some(64));
    assert_eq!(r.tcp_keep_alive_seconds, Some(7200));
    assert_eq!(r.max_backlog, Some(-1));
    assert!(!r.enable_streaming);
    assert!(!r.nonblocking);
    assert!(!r.nodelay);
    assert!(!r.proxy_nodelay);
    assert_eq!(r.proxy_keepalive_sec, 5);
    assert_eq!(r.proxy_timeout, 1);
    assert_eq!(r.proxy_min_tls_version, "TLS_1_0");
}

#[test]
fn resolution_leaves_the_document_as_it_was() {
    let mut raw = ProxyConfiguration::blank();
    raw.proxy_rules = vec![sample_rule()];
    raw.logging_level = Some("warn".to_string());
    let before = raw.clone();
    let _ = raw.into_inner(true, BuildProfile::Production);
    assert_eq!(raw, before);
}

#[test]
fn incoherent_rules_pass_through_unvalidated() {
    let mut rule = sample_rule();
    rule.routing_rules.as_mut().unwrap().health_check_path = None;
    rule.forward_addr = Some("not an address".to_string());
    let mut raw = ProxyConfiguration::blank();
    raw.proxy_rules = vec![rule.clone(), rule.clone()];
    let r = raw.into_inner(true, BuildProfile::Production).unwrap();
    assert_eq!(r.proxy_rules, vec![rule.clone(), rule]);
}

#[test]
fn invalid_listening_address_is_rejected() {
    for bad in ["localhost", "", "1.2.3", "256.0.0.1", "1.2.3.4:80", " 0.0.0.0", "::1%eth0"] {
        let mut raw = ProxyConfiguration::blank();
        raw.listening_address = Some(bad.to_string());
        assert_eq!(
            raw.into_inner(true, BuildProfile::Production),
            Err(ValidationError {
                field: ValidatedField::ListeningAddress,
                reason: Constraint::IpLiteral
            }),
            "{bad}"
        );
    }
}

#[test]
fn valid_listening_addresses_are_kept() {
    for good in ["0.0.0.0", "127.0.0.1", "::", "::1", "fe80::1", "2001:db8::ff00:42:8329"] {
        let mut raw = ProxyConfiguration::blank();
        raw.listening_address = Some(good.to_string());
        let r = raw.into_inner(true, BuildProfile::Production).unwrap();
        assert_eq!(r.listening_address, good);
    }
}

#[test]
fn every_port_of_sixteen_bits_is_accepted() {
    for port in [0u16, 1, 80, 443, 65534, 65535] {
        let mut raw = ProxyConfiguration::blank();
        raw.listening_port_http = Some(port);
        raw.listening_port_https = Some(port);
        let r = raw.into_inner(true, BuildProfile::Development).unwrap();
        assert_eq!(r.listening_port_http, port);
        assert_eq!(r.listening_port_https, port);
    }
}

#[test]
fn unknown_tls_version_is_rejected_and_named() {
    let mut raw = ProxyConfiguration::blank();
    raw.proxy_min_tls_version = Some("TLS_1_4".to_string());
    assert_eq!(
        raw.into_inner(true, BuildProfile::Production),
        Err(ValidationError {
            field: ValidatedField::ProxyMinTlsVersion,
            reason: Constraint::TlsVersion
        })
    );
    for bad in ["", "TLS 1.3", "tls_1_2", "TLS_1_2 ", "TLS_1_23", "TLS_1_"] {
        let mut raw = ProxyConfiguration::blank();
        raw.proxy_min_tls_version = Some(bad.to_string());
        assert_eq!(
            raw.into_inner(false, BuildProfile::Development).unwrap_err().field,
            ValidatedField::ProxyMinTlsVersion,
            "{bad}"
        );
    }
}

#[test]
fn known_tls_versions_resolve_to_themselves() {
    for version in ["TLS_1_0", "TLS_1_1", "TLS_1_2", "TLS_1_3"] {
        let mut raw = ProxyConfiguration::blank();
        raw.proxy_min_tls_version = Some(version.to_string());
        let r = raw.into_inner(true, BuildProfile::Production).unwrap();
        assert_eq!(r.proxy_min_tls_version, version);
    }
}

#[test]
fn logging_level_is_matched_by_prefix() {
    for level in ["off", "trace", "debug", "info", "warn", "error", "errorxyz", "errorish", "offline", "information", "warning!"] {
        let mut raw = ProxyConfiguration::blank();
        raw.logging_level = Some(level.to_string());
        let r = raw.into_inner(true, BuildProfile::Production).unwrap();
        assert_eq!(r.logging_level, level);
    }
}

#[test]
fn logging_level_without_a_known_prefix_is_rejected() {
    for level in ["", "of", "Error", "ERROR", " error", "verbose", "erro", "inf", "xerror"] {
        let mut raw = ProxyConfiguration::blank();
        raw.logging_level = Some(level.to_string());
        assert_eq!(
            raw.into_inner(true, BuildProfile::Development),
            Err(ValidationError {
                field: ValidatedField::LoggingLevel,
                reason: Constraint::LoggingLevel
            }),
            "{level}"
        );
    }
}

#[test]
fn the_first_invalid_setting_is_the_one_reported() {
    let mut raw = ProxyConfiguration::blank();
    raw.listening_address = Some("nowhere".to_string());
    raw.logging_level = Some("loud".to_string());
    raw.proxy_min_tls_version = Some("TLS_1_4".to_string());
    assert_eq!(
        raw.into_inner(true, BuildProfile::Production).unwrap_err().field,
        ValidatedField::ListeningAddress
    );
    raw.listening_address = None;
    assert_eq!(
        raw.into_inner(true, BuildProfile::Production).unwrap_err().field,
        ValidatedField::LoggingLevel
    );
    raw.logging_level = Some("trace".to_string());
    assert_eq!(
        raw.into_inner(true, BuildProfile::Production).unwrap_err().field,
        ValidatedField::ProxyMinTlsVersion
    );
}

#[test]
fn blank_document_sets_nothing() {
    let raw = ProxyConfiguration::blank();
    assert_eq!(raw.listening_address, None);
    assert_eq!(raw.add_caching, None);
    assert!(raw.proxy_rules.is_empty());
    assert_eq!(raw.proxy_min_tls_version, None);
}

#[test]
fn clones_are_equal_to_their_originals() {
    let rule = sample_rule();
    assert_eq!(rule.clone(), rule);
    let mut raw = ProxyConfiguration::blank();
    raw.proxy_rules = vec![sample_rule()];
    raw.api_key = Some("k".to_string());
    assert_eq!(raw.clone(), raw);
    let inner = raw.into_inner(true, BuildProfile::Production).unwrap();
    assert_eq!(inner.clone(), inner);
}

#[test]
fn routing_method_defaults_to_priority() {
    assert_eq!(RoutingMethod::default(), RoutingMethod::Priority);
}

#[test]
fn validation_alone_reports_the_first_violation() {
    assert_eq!(ProxyConfiguration::blank().validate(), Ok(()));
    let mut raw = ProxyConfiguration::blank();
    raw.proxy_min_tls_version = Some("SSL_3".to_string());
    assert_eq!(raw.validate(), Err(ValidationError::of(ValidatedField::ProxyMinTlsVersion)));
    raw.listening_address = Some("10.0.0".to_string());
    assert_eq!(raw.validate(), Err(ValidationError::of(ValidatedField::ListeningAddress)));
    raw.listening_address = Some("10.0.0.1".to_string());
    raw.proxy_min_tls_version = Some("TLS_1_1".to_string());
    raw.proxy_rules = vec![sample_rule()];
    assert_eq!(raw.validate(), Ok(()));
}

#[test]
fn every_validated_field_has_its_constraint_and_its_name() {
    let table = [
        (ValidatedField::ListeningAddress, Constraint::IpLiteral, "listening_address"),
        (ValidatedField::ListeningPortHttp, Constraint::PortRange, "listening_port_http"),
        (ValidatedField::ListeningPortHttps, Constraint::PortRange, "listening_port_https"),
        (ValidatedField::LoggingLevel, Constraint::LoggingLevel, "logging_level"),
        (ValidatedField::ProxyMinTlsVersion, Constraint::TlsVersion, "proxy_min_tls_version"),
    ];
    for (field, reason, name) in table {
        assert_eq!(ValidationError::of(field), ValidationError { field, reason });
        assert_eq!(field.name(), name);
    }
    assert_eq!(Constraint::IpLiteral.description(), "must be an IPv4 or IPv6 address.");
    assert_eq!(Constraint::PortRange.description(), "must be between 0 and 65535.");
    assert_eq!(
        Constraint::LoggingLevel.description(),
        "must be one of those: off, trace, debug, info, warn, error."
    );
    assert_eq!(
        Constraint::TlsVersion.description(),
        "must be one of those: TLS_1_0, TLS_1_1, TLS_1_2, TLS_1_3."
    );
}
