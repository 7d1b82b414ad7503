//! The configuration schema: the raw document as the operator wrote it, the
//! effective configuration resolved from it, and the per-domain proxy rules
//! that both carry.
//!
//! Every type has a view that holds its text as `Seq<char>` and its lists as
//! `Seq`; the contracts of the crate are stated over these views.

use vstd::prelude::*;

verus! {

/// How a list of paths is read: as the only paths allowed, or as the paths refused.
#[derive(Debug, Clone, Copy, PartialEq, Eq, Structural)]
pub enum RuleType {
    Whitelist,
    Blacklist,
}

/// How a pattern is held against a path or a user agent.
#[derive(Debug, Clone, Copy, PartialEq, Eq, Structural)]
pub enum MatchType {
    Contains,
    Equals,
    StartsWith,
    EndsWith,
    DoesNotContain,
    DoesNotEqual,
}

/// How requests are spread over the locations of a routing rule.
#[derive(Debug, Clone, Copy, PartialEq, Eq, Structural)]
pub enum RoutingMethod {
    Weighted,
    Priority,
    Performance,
}

impl Default for RoutingMethod {
    /// The method used where none is given: by priority.
    fn default() -> (r: Self)
        ensures
            r == RoutingMethod::Priority,
    {
        RoutingMethod::Priority
    }
}

/// A rule on the paths of one domain, with its own cache lifetime.
#[derive(Debug, PartialEq, Eq)]
pub struct PathRule {
    pub max_age_seconds: u64,
    pub path: String,
    pub match_type: MatchType,
    pub rule_type: RuleType,
}

/// The view of [`PathRule`]: its texts as sequences of characters.
pub struct PathRuleView {
    pub max_age_seconds: u64,
    pub path: Seq<char>,
    pub match_type: MatchType,
    pub rule_type: RuleType,
}

impl View for PathRule {
    type V = PathRuleView;

    open spec fn view(&self) -> PathRuleView {
        PathRuleView {
            max_age_seconds: self.max_age_seconds,
            path: self.path@,
            match_type: self.match_type,
            rule_type: self.rule_type,
        }
    }
}

impl DeepView for PathRule {
    type V = PathRuleView;

    open spec fn deep_view(&self) -> PathRuleView {
        self@
    }
}

impl Clone for PathRule {
    fn clone(&self) -> (r: Self)
        ensures
            r@ == self@,
    {
        PathRule {
            max_age_seconds: self.max_age_seconds,
            path: self.path.clone(),
            match_type: self.match_type,
            rule_type: self.rule_type,
        }
    }
}

/// A user agent that a domain refuses, with the way it is matched.
#[derive(Debug, PartialEq, Eq)]
pub struct UserAgentRule {
    pub user_agent: String,
    pub match_type: MatchType,
}

/// The view of [`UserAgentRule`]: its texts as sequences of characters.
pub struct UserAgentRuleView {
    pub user_agent: Seq<char>,
    pub match_type: MatchType,
}

impl View for UserAgentRule {
    type V = UserAgentRuleView;

    open spec fn view(&self) -> UserAgentRuleView {
        UserAgentRuleView { user_agent: self.user_agent@, match_type: self.match_type }
    }
}

impl DeepView for UserAgentRule {
    type V = UserAgentRuleView;

    open spec fn deep_view(&self) -> UserAgentRuleView {
        self@
    }
}

impl Clone for UserAgentRule {
    fn clone(&self) -> (r: Self)
        ensures
            r@ == self@,
    {
        UserAgentRule { user_agent: self.user_agent.clone(), match_type: self.match_type }
    }
}

/// One backend of a routing rule.
#[derive(Debug, PartialEq, Eq)]
pub struct RoutingLocation {
    pub primary: Option<bool>,
    pub priority: Option<u16>,
    pub forward_addr: Option<String>,
    pub forward_ipv4: Option<String>,
    pub forward_ipv6: Option<String>,
    pub forward_port_http: Option<u16>,
    pub forward_port_https: Option<u16>,
}

/// The view of [`RoutingLocation`]: its texts as sequences of characters.
pub struct RoutingLocationView {
    pub primary: Option<bool>,
    pub priority: Option<u16>,
    pub forward_addr: Option<Seq<char>>,
    pub forward_ipv4: Option<Seq<char>>,
    pub forward_ipv6: Option<Seq<char>>,
    pub forward_port_http: Option<u16>,
    pub forward_port_https: Option<u16>,
}

impl View for RoutingLocation {
    type V = RoutingLocationView;

    open spec fn view(&self) -> RoutingLocationView {
        RoutingLocationView {
            primary: self.primary,
            priority: self.priority,
            forward_addr: self.forward_addr.deep_view(),
            forward_ipv4: self.forward_ipv4.deep_view(),
            forward_ipv6: self.forward_ipv6.deep_view(),
            forward_port_http: self.forward_port_http,
            forward_port_https: self.forward_port_https,
        }
    }
}

impl DeepView for RoutingLocation {
    type V = RoutingLocationView;

    open spec fn deep_view(&self) -> RoutingLocationView {
        self@
    }
}

impl Clone for RoutingLocation {
    fn clone(&self) -> (r: Self)
        ensures
            r@ == self@,
    {
        RoutingLocation {
            primary: self.primary,
            priority: self.priority,
            forward_addr: copy_text(&self.forward_addr),
            forward_ipv4: copy_text(&self.forward_ipv4),
            forward_ipv6: copy_text(&self.forward_ipv6),
            forward_port_http: self.forward_port_http,
            forward_port_https: self.forward_port_https,
        }
    }
}

/// How the requests for one domain are spread over several backends.
#[derive(Debug, PartialEq, Eq)]
pub struct RoutingRule {
    pub routing_method: RoutingMethod,
    pub routing_locations: Vec<RoutingLocation>,
    pub https_only: bool,
    pub enable_health_checks: bool,
    pub health_check_interval: u32,
    pub health_check_path: Option<String>,
}

/// The view of [`RoutingRule`]: its texts as sequences of characters.
pub struct RoutingRuleView {
    pub routing_method: RoutingMethod,
    pub routing_locations: Seq<RoutingLocationView>,
    pub https_only: bool,
    pub enable_health_checks: bool,
    pub health_check_interval: u32,
    pub health_check_path: Option<Seq<char>>,
}

impl View for RoutingRule {
    type V = RoutingRuleView;

    open spec fn view(&self) -> RoutingRuleView {
        RoutingRuleView {
            routing_method: self.routing_method,
            routing_locations: self.routing_locations.deep_view(),
            https_only: self.https_only,
            enable_health_checks: self.enable_health_checks,
            health_check_interval: self.health_check_interval,
            health_check_path: self.health_check_path.deep_view(),
        }
    }
}

impl DeepView for RoutingRule {
    type V = RoutingRuleView;

    open spec fn deep_view(&self) -> RoutingRuleView {
        self@
    }
}

impl Clone for RoutingRule {
    fn clone(&self) -> (r: Self)
        ensures
            r@ == self@,
    {
        RoutingRule {
            routing_method: self.routing_method,
            routing_locations: copy_list(&self.routing_locations),
            https_only: self.https_only,
            enable_health_checks: self.enable_health_checks,
            health_check_interval: self.health_check_interval,
            health_check_path: copy_text(&self.health_check_path),
        }
    }
}

/// The rule for one domain that the proxy fronts.
#[derive(Debug, PartialEq, Eq)]
pub struct ProxyRuleInner {
    pub domain: String,
    pub max_age_seconds: u64,
    pub paths: Option<Vec<String>>,
    pub forward_addr: Option<String>,
    pub forward_ipv4: Option<String>,
    pub forward_ipv6: Option<String>,
    pub forward_port_http: Option<u16>,
    pub forward_port_https: Option<u16>,
    pub rule_type: RuleType,
    pub enable_logging: bool,
    pub path_rules: Option<Vec<PathRule>>,
    pub routing_rules: Option<RoutingRule>,
    pub ignore_query_string: bool,
    pub enable_sql_injection_protection: bool,
    pub disallowed_user_agents: Option<Vec<UserAgentRule>>,
    pub enable_compression: bool,
    pub compression_flags: Option<String>,
    pub enable_minification: bool,
    pub minification_flags: Option<String>,
    pub enable_webp_transformation: bool,
    pub webp_transformation_min_age: Option<u64>,
}

/// The view of [`ProxyRuleInner`]: its texts as sequences of characters.
pub struct ProxyRuleView {
    pub domain: Seq<char>,
    pub max_age_seconds: u64,
    pub paths: Option<Seq<Seq<char>>>,
    pub forward_addr: Option<Seq<char>>,
    pub forward_ipv4: Option<Seq<char>>,
    pub forward_ipv6: Option<Seq<char>>,
    pub forward_port_http: Option<u16>,
    pub forward_port_https: Option<u16>,
    pub rule_type: RuleType,
    pub enable_logging: bool,
    pub path_rules: Option<Seq<PathRuleView>>,
    pub routing_rules: Option<RoutingRuleView>,
    pub ignore_query_string: bool,
    pub enable_sql_injection_protection: bool,
    pub disallowed_user_agents: Option<Seq<UserAgentRuleView>>,
    pub enable_compression: bool,
    pub compression_flags: Option<Seq<char>>,
    pub enable_minification: bool,
    pub minification_flags: Option<Seq<char>>,
    pub enable_webp_transformation: bool,
    pub webp_transformation_min_age: Option<u64>,
}

impl View for ProxyRuleInner {
    type V = ProxyRuleView;

    open spec fn view(&self) -> ProxyRuleView {
        ProxyRuleView {
            domain: self.domain@,
            max_age_seconds: self.max_age_seconds,
            paths: self.paths.deep_view(),
            forward_addr: self.forward_addr.deep_view(),
            forward_ipv4: self.forward_ipv4.deep_view(),
            forward_ipv6: self.forward_ipv6.deep_view(),
            forward_port_http: self.forward_port_http,
            forward_port_https: self.forward_port_https,
            rule_type: self.rule_type,
            enable_logging: self.enable_logging,
            path_rules: self.path_rules.deep_view(),
            routing_rules: self.routing_rules.deep_view(),
            ignore_query_string: self.ignore_query_string,
            enable_sql_injection_protection: self.enable_sql_injection_protection,
            disallowed_user_agents: self.disallowed_user_agents.deep_view(),
            enable_compression: self.enable_compression,
            compression_flags: self.compression_flags.deep_view(),
            enable_minification: self.enable_minification,
            minification_flags: self.minification_flags.deep_view(),
            enable_webp_transformation: self.enable_webp_transformation,
            webp_transformation_min_age: self.webp_transformation_min_age,
        }
    }
}

impl DeepView for ProxyRuleInner {
    type V = ProxyRuleView;

    open spec fn deep_view(&self) -> ProxyRuleView {
        self@
    }
}

impl Clone for ProxyRuleInner {
    fn clone(&self) -> (r: Self)
        ensures
            r@ == self@,
    {
        ProxyRuleInner {
            domain: self.domain.clone(),
            max_age_seconds: self.max_age_seconds,
            paths: match &self.paths {
                Some(paths) => Some(copy_list(paths)),
                None => None,
            },
            forward_addr: copy_text(&self.forward_addr),
            forward_ipv4: copy_text(&self.forward_ipv4),
            forward_ipv6: copy_text(&self.forward_ipv6),
            forward_port_http: self.forward_port_http,
            forward_port_https: self.forward_port_https,
            rule_type: self.rule_type,
            enable_logging: self.enable_logging,
            path_rules: match &self.path_rules {
                Some(rules) => Some(copy_list(rules)),
                None => None,
            },
            routing_rules: match &self.routing_rules {
                Some(rule) => Some(rule.clone()),
                None => None,
            },
            ignore_query_string: self.ignore_query_string,
            enable_sql_injection_protection: self.enable_sql_injection_protection,
            disallowed_user_agents: match &self.disallowed_user_agents {
                Some(agents) => Some(copy_list(agents)),
                None => None,
            },
            enable_compression: self.enable_compression,
            compression_flags: copy_text(&self.compression_flags),
            enable_minification: self.enable_minification,
            minification_flags: copy_text(&self.minification_flags),
            enable_webp_transformation: self.enable_webp_transformation,
            webp_transformation_min_age: self.webp_transformation_min_age,
        }
    }
}

/// The raw document: what the operator set, and nothing else. A setting that
/// is `None` was left unset, which no value stands for.
#[derive(Debug, PartialEq, Eq)]
pub struct ProxyConfiguration {
    pub listening_address: Option<String>,
    pub listening_port_http: Option<u16>,
    pub listening_port_https: Option<u16>,
    pub backtracing: Option<bool>,
    pub add_caching: Option<bool>,
    pub add_rate_limiting: Option<bool>,
    pub add_logging: Option<bool>,
    pub disable_default_body_limit: Option<bool>,
    pub api_key: Option<String>,
    pub azure_table_storage_key: Option<String>,
    pub proxy_rules: Vec<ProxyRuleInner>,
    pub logging_level: Option<String>,
    pub add_sql_injection_protection: Option<bool>,
    pub lets_encrypt_contact_email: Option<String>,
    pub enable_compression: Option<bool>,
    pub compression_flags: Option<String>,
    pub recv_buffer_size: Option<usize>,
    pub send_buffer_size: Option<usize>,
    pub ip_ttl: Option<u32>,
    pub tcp_keep_alive_seconds: Option<u64>,
    pub max_backlog: Option<i32>,
    pub enable_streaming: Option<bool>,
    pub nonblocking: Option<bool>,
    pub nodelay: Option<bool>,
    pub proxy_nodelay: Option<bool>,
    pub proxy_keepalive_sec: Option<u32>,
    pub proxy_timeout: Option<u16>,
    pub proxy_min_tls_version: Option<String>,
}

/// The view of [`ProxyConfiguration`]: its texts as sequences of characters.
pub struct ProxyConfigurationView {
    pub listening_address: Option<Seq<char>>,
    pub listening_port_http: Option<u16>,
    pub listening_port_https: Option<u16>,
    pub backtracing: Option<bool>,
    pub add_caching: Option<bool>,
    pub add_rate_limiting: Option<bool>,
    pub add_logging: Option<bool>,
    pub disable_default_body_limit: Option<bool>,
    pub api_key: Option<Seq<char>>,
    pub azure_table_storage_key: Option<Seq<char>>,
    pub proxy_rules: Seq<ProxyRuleView>,
    pub logging_level: Option<Seq<char>>,
    pub add_sql_injection_protection: Option<bool>,
    pub lets_encrypt_contact_email: Option<Seq<char>>,
    pub enable_compression: Option<bool>,
    pub compression_flags: Option<Seq<char>>,
    pub recv_buffer_size: Option<usize>,
    pub send_buffer_size: Option<usize>,
    pub ip_ttl: Option<u32>,
    pub tcp_keep_alive_seconds: Option<u64>,
    pub max_backlog: Option<i32>,
    pub enable_streaming: Option<bool>,
    pub nonblocking: Option<bool>,
    pub nodelay: Option<bool>,
    pub proxy_nodelay: Option<bool>,
    pub proxy_keepalive_sec: Option<u32>,
    pub proxy_timeout: Option<u16>,
    pub proxy_min_tls_version: Option<Seq<char>>,
}

impl View for ProxyConfiguration {
    type V = ProxyConfigurationView;

    open spec fn view(&self) -> ProxyConfigurationView {
        ProxyConfigurationView {
            listening_address: self.listening_address.deep_view(),
            listening_port_http: self.listening_port_http,
            listening_port_https: self.listening_port_https,
            backtracing: self.backtracing,
            add_caching: self.add_caching,
            add_rate_limiting: self.add_rate_limiting,
            add_logging: self.add_logging,
            disable_default_body_limit: self.disable_default_body_limit,
            api_key: self.api_key.deep_view(),
            azure_table_storage_key: self.azure_table_storage_key.deep_view(),
            proxy_rules: self.proxy_rules.deep_view(),
            logging_level: self.logging_level.deep_view(),
            add_sql_injection_protection: self.add_sql_injection_protection,
            lets_encrypt_contact_email: self.lets_encrypt_contact_email.deep_view(),
            enable_compression: self.enable_compression,
            compression_flags: self.compression_flags.deep_view(),
            recv_buffer_size: self.recv_buffer_size,
            send_buffer_size: self.send_buffer_size,
            ip_ttl: self.ip_ttl,
            tcp_keep_alive_seconds: self.tcp_keep_alive_seconds,
            max_backlog: self.max_backlog,
            enable_streaming: self.enable_streaming,
            nonblocking: self.nonblocking,
            nodelay: self.nodelay,
            proxy_nodelay: self.proxy_nodelay,
            proxy_keepalive_sec: self.proxy_keepalive_sec,
            proxy_timeout: self.proxy_timeout,
            proxy_min_tls_version: self.proxy_min_tls_version.deep_view(),
        }
    }
}

impl Clone for ProxyConfiguration {
    fn clone(&self) -> (r: Self)
        ensures
            r@ == self@,
    {
        ProxyConfiguration {
            listening_address: copy_text(&self.listening_address),
            listening_port_http: self.listening_port_http,
            listening_port_https: self.listening_port_https,
            backtracing: self.backtracing,
            add_caching: self.add_caching,
            add_rate_limiting: self.add_rate_limiting,
            add_logging: self.add_logging,
            disable_default_body_limit: self.disable_default_body_limit,
            api_key: copy_text(&self.api_key),
            azure_table_storage_key: copy_text(&self.azure_table_storage_key),
            proxy_rules: copy_list(&self.proxy_rules),
            logging_level: copy_text(&self.logging_level),
            add_sql_injection_protection: self.add_sql_injection_protection,
            lets_encrypt_contact_email: copy_text(&self.lets_encrypt_contact_email),
            enable_compression: self.enable_compression,
            compression_flags: copy_text(&self.compression_flags),
            recv_buffer_size: self.recv_buffer_size,
            send_buffer_size: self.send_buffer_size,
            ip_ttl: self.ip_ttl,
            tcp_keep_alive_seconds: self.tcp_keep_alive_seconds,
            max_backlog: self.max_backlog,
            enable_streaming: self.enable_streaming,
            nonblocking: self.nonblocking,
            nodelay: self.nodelay,
            proxy_nodelay: self.proxy_nodelay,
            proxy_keepalive_sec: self.proxy_keepalive_sec,
            proxy_timeout: self.proxy_timeout,
            proxy_min_tls_version: copy_text(&self.proxy_min_tls_version),
        }
    }
}

/// The effective configuration: every setting that has a default holds a
/// value. The secrets and the socket tuning knobs have none, and stay optional.
#[derive(Debug, PartialEq, Eq)]
pub struct ProxyConfigurationInner {
    pub configuration_file_found: bool,
    pub listening_address: String,
    pub listening_port_http: u16,
    pub listening_port_https: u16,
    pub backtracing: bool,
    pub add_caching: bool,
    pub add_rate_limiting: bool,
    pub add_logging: bool,
    pub disable_default_body_limit: bool,
    pub api_key: Option<String>,
    pub azure_table_storage_key: Option<String>,
    pub proxy_rules: Vec<ProxyRuleInner>,
    pub logging_level: String,
    pub add_sql_injection_protection: bool,
    pub lets_encrypt_contact_email: Option<String>,
    pub enable_compression: bool,
    pub compression_flags: Option<String>,
    pub recv_buffer_size: Option<usize>,
    pub send_buffer_size: Option<usize>,
    pub ip_ttl: Option<u32>,
    pub tcp_keep_alive_seconds: Option<u64>,
    pub max_backlog: Option<i32>,
    pub enable_streaming: bool,
    pub nonblocking: bool,
    pub nodelay: bool,
    pub proxy_nodelay: bool,
    pub proxy_keepalive_sec: u32,
    pub proxy_timeout: u16,
    pub proxy_min_tls_version: String,
}

/// The view of [`ProxyConfigurationInner`]: its texts as sequences of characters.
pub struct ProxyConfigurationInnerView {
    pub configuration_file_found: bool,
    pub listening_address: Seq<char>,
    pub listening_port_http: u16,
    pub listening_port_https: u16,
    pub backtracing: bool,
    pub add_caching: bool,
    pub add_rate_limiting: bool,
    pub add_logging: bool,
    pub disable_default_body_limit: bool,
    pub api_key: Option<Seq<char>>,
    pub azure_table_storage_key: Option<Seq<char>>,
    pub proxy_rules: Seq<ProxyRuleView>,
    pub logging_level: Seq<char>,
    pub add_sql_injection_protection: bool,
    pub lets_encrypt_contact_email: Option<Seq<char>>,
    pub enable_compression: bool,
    pub compression_flags: Option<Seq<char>>,
    pub recv_buffer_size: Option<usize>,
    pub send_buffer_size: Option<usize>,
    pub ip_ttl: Option<u32>,
    pub tcp_keep_alive_seconds: Option<u64>,
    pub max_backlog: Option<i32>,
    pub enable_streaming: bool,
    pub nonblocking: bool,
    pub nodelay: bool,
    pub proxy_nodelay: bool,
    pub proxy_keepalive_sec: u32,
    pub proxy_timeout: u16,
    pub proxy_min_tls_version: Seq<char>,
}

impl View for ProxyConfigurationInner {
    type V = ProxyConfigurationInnerView;

    open spec fn view(&self) -> ProxyConfigurationInnerView {
        ProxyConfigurationInnerView {
            configuration_file_found: self.configuration_file_found,
            listening_address: self.listening_address@,
            listening_port_http: self.listening_port_http,
            listening_port_https: self.listening_port_https,
            backtracing: self.backtracing,
            add_caching: self.add_caching,
            add_rate_limiting: self.add_rate_limiting,
            add_logging: self.add_logging,
            disable_default_body_limit: self.disable_default_body_limit,
            api_key: self.api_key.deep_view(),
            azure_table_storage_key: self.azure_table_storage_key.deep_view(),
            proxy_rules: self.proxy_rules.deep_view(),
            logging_level: self.logging_level@,
            add_sql_injection_protection: self.add_sql_injection_protection,
            lets_encrypt_contact_email: self.lets_encrypt_contact_email.deep_view(),
            enable_compression: self.enable_compression,
            compression_flags: self.compression_flags.deep_view(),
            recv_buffer_size: self.recv_buffer_size,
            send_buffer_size: self.send_buffer_size,
            ip_ttl: self.ip_ttl,
            tcp_keep_alive_seconds: self.tcp_keep_alive_seconds,
            max_backlog: self.max_backlog,
            enable_streaming: self.enable_streaming,
            nonblocking: self.nonblocking,
            nodelay: self.nodelay,
            proxy_nodelay: self.proxy_nodelay,
            proxy_keepalive_sec: self.proxy_keepalive_sec,
            proxy_timeout: self.proxy_timeout,
            proxy_min_tls_version: self.proxy_min_tls_version@,
        }
    }
}

impl Clone for ProxyConfigurationInner {
    fn clone(&self) -> (r: Self)
        ensures
            r@ == self@,
    {
        ProxyConfigurationInner {
            configuration_file_found: self.configuration_file_found,
            listening_address: self.listening_address.clone(),
            listening_port_http: self.listening_port_http,
            listening_port_https: self.listening_port_https,
            backtracing: self.backtracing,
            add_caching: self.add_caching,
            add_rate_limiting: self.add_rate_limiting,
            add_logging: self.add_logging,
            disable_default_body_limit: self.disable_default_body_limit,
            api_key: copy_text(&self.api_key),
            azure_table_storage_key: copy_text(&self.azure_table_storage_key),
            proxy_rules: copy_list(&self.proxy_rules),
            logging_level: self.logging_level.clone(),
            add_sql_injection_protection: self.add_sql_injection_protection,
            lets_encrypt_contact_email: copy_text(&self.lets_encrypt_contact_email),
            enable_compression: self.enable_compression,
            compression_flags: copy_text(&self.compression_flags),
            recv_buffer_size: self.recv_buffer_size,
            send_buffer_size: self.send_buffer_size,
            ip_ttl: self.ip_ttl,
            tcp_keep_alive_seconds: self.tcp_keep_alive_seconds,
            max_backlog: self.max_backlog,
            enable_streaming: self.enable_streaming,
            nonblocking: self.nonblocking,
            nodelay: self.nodelay,
            proxy_nodelay: self.proxy_nodelay,
            proxy_keepalive_sec: self.proxy_keepalive_sec,
            proxy_timeout: self.proxy_timeout,
            proxy_min_tls_version: self.proxy_min_tls_version.clone(),
        }
    }
}

/// A copy of an optional text.
pub fn copy_text(text: &Option<String>) -> (r: Option<String>)
    ensures
        r.deep_view() == text.deep_view(),
{
    match text {
        Some(s) => Some(s.clone()),
        None => None,
    }
}

/// A copy of a list, item by item, where a copy of an item has the item's view.
pub fn copy_list<T: Clone + DeepView>(list: &Vec<T>) -> (r: Vec<T>)
    requires
        forall|a: T, b: T| #[trigger] cloned(a, b) ==> a.deep_view() == b.deep_view(),
    ensures
        r.deep_view() == list.deep_view(),
{
    let r = list.clone();
    assert(r.deep_view() =~= list.deep_view());
    r
}

} // verus!
