//! The desired configuration: static options and the services to run.

use vstd::prelude::*;
use vstd::string::StringExecFns;
use crate::allow_deny_ip::{AllowDenyObject, AllowDenyObjectView};
use crate::route::{clone_opt_string, LoadBalancer, LoadBalancerView};
use crate::text::{append_decimal, decimal, lemma_decimal_digits, lemma_decimal_injective};

verus! {

/// The protocol a listener speaks.
#[derive(Clone, Copy, Debug, PartialEq, Eq, Structural)]
pub enum ServiceType {
    HTTP,
    HTTPS,
    TCP,
}

/// The name of a protocol as it appears in listener keys.
pub open spec fn service_type_name(t: ServiceType) -> Seq<char> {
    match t {
        ServiceType::HTTP => "HTTP"@,
        ServiceType::HTTPS => "HTTPS"@,
        ServiceType::TCP => "TCP"@,
    }
}

impl ServiceType {
    /// The name of the protocol.
    pub fn as_str(&self) -> (r: &'static str)
        ensures
            r@ == service_type_name(*self),
    {
        match self {
            ServiceType::HTTP => "HTTP",
            ServiceType::HTTPS => "HTTPS",
            ServiceType::TCP => "TCP",
        }
    }

    /// The name of the protocol, as an owned string.
    pub fn to_string(&self) -> (r: String)
        ensures
            r@ == service_type_name(*self),
    {
        self.as_str().to_owned()
    }
}

/// The key that identifies a listener: the decimal port, a hyphen, and the
/// protocol name.
pub open spec fn listener_key(port: u16, server_type: ServiceType) -> Seq<char> {
    decimal(port as nat) + "-"@ + service_type_name(server_type)
}

/// Builds the key of the listener on `port` speaking `server_type`.
pub fn make_listener_key(port: u16, server_type: ServiceType) -> (r: String)
    ensures
        r@ == listener_key(port, server_type),
{
    let mut r = String::new();
    append_decimal(&mut r, port as u128);
    r.append("-");
    r.append(server_type.as_str());
    r
}

/// A listener key identifies its listener: two keys are the same text only
/// if they were made from the same port and the same protocol.
pub proof fn lemma_listener_key_injective(
    port_a: u16,
    type_a: ServiceType,
    port_b: u16,
    type_b: ServiceType,
)
    requires
        listener_key(port_a, type_a) == listener_key(port_b, type_b),
    ensures
        port_a == port_b,
        type_a == type_b,
{
    reveal_strlit("-");
    reveal_strlit("HTTP");
    reveal_strlit("HTTPS");
    reveal_strlit("TCP");
    let da = decimal(port_a as nat);
    let db = decimal(port_b as nat);
    let ka = listener_key(port_a, type_a);
    let kb = listener_key(port_b, type_b);
    lemma_decimal_digits(port_a as nat);
    lemma_decimal_digits(port_b as nat);
    assert(ka[da.len() as int] == '-');
    assert(kb[db.len() as int] == '-');
    assert(da =~= ka.subrange(0, da.len() as int));
    assert(db =~= kb.subrange(0, db.len() as int));
    lemma_decimal_injective(port_a as nat, port_b as nat);
    assert(ka.len() == da.len() + 1 + service_type_name(type_a).len());
}

/// Which requests a route takes, and the path it forwards them under.
#[derive(Debug, PartialEq, Eq)]
pub struct Matcher {
    pub prefix: String,
    pub prefix_rewrite: String,
}

pub struct MatcherView {
    pub prefix: Seq<char>,
    pub prefix_rewrite: Seq<char>,
}

impl DeepView for Matcher {
    type V = MatcherView;

    open spec fn deep_view(&self) -> MatcherView {
        MatcherView { prefix: self.prefix@, prefix_rewrite: self.prefix_rewrite@ }
    }
}

impl View for Matcher {
    type V = MatcherView;

    open spec fn view(&self) -> MatcherView {
        self.deep_view()
    }
}

impl Clone for Matcher {
    fn clone(&self) -> (r: Self)
        ensures
            r@ == self@,
    {
        Matcher { prefix: self.prefix.clone(), prefix_rewrite: self.prefix_rewrite.clone() }
    }
}

/// How a request proves who sent it.
#[derive(Debug, PartialEq, Eq)]
pub enum Authentication {
    /// The header called `key` must carry exactly `value`.
    ApiKey { key: String, value: String },
    /// The `Authorization` header must be `Basic ` followed by `credentials`.
    Basic { credentials: String },
}

pub enum AuthenticationView {
    ApiKey { key: Seq<char>, value: Seq<char> },
    Basic { credentials: Seq<char> },
}

impl DeepView for Authentication {
    type V = AuthenticationView;

    open spec fn deep_view(&self) -> AuthenticationView {
        match self {
            Authentication::ApiKey { key, value } => AuthenticationView::ApiKey {
                key: key@,
                value: value@,
            },
            Authentication::Basic { credentials } => AuthenticationView::Basic {
                credentials: credentials@,
            },
        }
    }
}

impl View for Authentication {
    type V = AuthenticationView;

    open spec fn view(&self) -> AuthenticationView {
        self.deep_view()
    }
}

impl Clone for Authentication {
    fn clone(&self) -> (r: Self)
        ensures
            r@ == self@,
    {
        match self {
            Authentication::ApiKey { key, value } => Authentication::ApiKey {
                key: key.clone(),
                value: value.clone(),
            },
            Authentication::Basic { credentials } => Authentication::Basic {
                credentials: credentials.clone(),
            },
        }
    }
}

/// How many requests one peer may send through a route.
#[derive(Clone, Copy, Debug, PartialEq, Eq, Structural)]
pub enum Ratelimit {
    /// At most `limit` requests in each window of `window_ms` milliseconds.
    FixedWindow { limit: u64, window_ms: u64 },
    /// A bucket of `capacity` tokens, one spent per request and one
    /// restored every `refill_ms` milliseconds.
    TokenBucket { capacity: u64, refill_ms: u64 },
}

/// One routing rule of a service.
#[derive(Debug, PartialEq, Eq)]
pub struct Route {
    pub route_id: String,
    pub host_name: Option<String>,
    pub matcher: Option<Matcher>,
    pub route_cluster: LoadBalancer,
    pub allow_deny_list: Option<Vec<AllowDenyObject>>,
    pub authentication: Option<Authentication>,
    pub ratelimit: Option<Ratelimit>,
}

pub struct RouteView {
    pub route_id: Seq<char>,
    pub host_name: Option<Seq<char>>,
    pub matcher: Option<MatcherView>,
    pub route_cluster: LoadBalancerView,
    pub allow_deny_list: Option<Seq<AllowDenyObjectView>>,
    pub authentication: Option<AuthenticationView>,
    pub ratelimit: Option<Ratelimit>,
}

impl DeepView for Route {
    type V = RouteView;

    open spec fn deep_view(&self) -> RouteView {
        RouteView {
            route_id: self.route_id@,
            host_name: self.host_name.deep_view(),
            matcher: self.matcher.deep_view(),
            route_cluster: self.route_cluster@,
            allow_deny_list: self.allow_deny_list.deep_view(),
            authentication: self.authentication.deep_view(),
            ratelimit: self.ratelimit,
        }
    }
}

impl View for Route {
    type V = RouteView;

    open spec fn view(&self) -> RouteView {
        self.deep_view()
    }
}

/// A copy of a rule list.
pub fn clone_rules(rules: &Vec<AllowDenyObject>) -> (r: Vec<AllowDenyObject>)
    ensures
        r.deep_view() == rules.deep_view(),
{
    let mut out: Vec<AllowDenyObject> = Vec::new();
    let mut i: usize = 0;
    while i < rules.len()
        invariant
            i <= rules.len(),
            out.len() == i,
            forall|j: int| 0 <= j < i ==> out[j]@ == rules[j]@,
        decreases rules.len() - i,
    {
        out.push(rules[i].clone());
        i += 1;
    }
    out
}

impl Clone for Route {
    fn clone(&self) -> (r: Self)
        ensures
            r@ == self@,
    {
        Route {
            route_id: self.route_id.clone(),
            host_name: clone_opt_string(&self.host_name),
            matcher: match &self.matcher {
                Some(m) => Some(m.clone()),
                None => None,
            },
            route_cluster: self.route_cluster.clone(),
            allow_deny_list: match &self.allow_deny_list {
                Some(l) => Some(clone_rules(l)),
                None => None,
            },
            authentication: match &self.authentication {
                Some(a) => Some(a.clone()),
                None => None,
            },
            ratelimit: self.ratelimit,
        }
    }
}

/// A copy of a route table.
pub fn clone_routes(routes: &Vec<Route>) -> (r: Vec<Route>)
    ensures
        r.deep_view() == routes.deep_view(),
{
    let mut out: Vec<Route> = Vec::new();
    let mut i: usize = 0;
    while i < routes.len()
        invariant
            i <= routes.len(),
            out.len() == i,
            forall|j: int| 0 <= j < i ==> out[j]@ == routes[j]@,
        decreases routes.len() - i,
    {
        out.push(routes[i].clone());
        i += 1;
    }
    out
}

/// What one listener serves: its protocol, its TLS material, its routes.
#[derive(Debug, PartialEq, Eq)]
pub struct ServiceConfig {
    pub server_type: ServiceType,
    pub cert_str: Option<String>,
    pub key_str: Option<String>,
    pub routes: Vec<Route>,
}

pub struct ServiceConfigView {
    pub server_type: ServiceType,
    pub cert_str: Option<Seq<char>>,
    pub key_str: Option<Seq<char>>,
    pub routes: Seq<RouteView>,
}

impl DeepView for ServiceConfig {
    type V = ServiceConfigView;

    open spec fn deep_view(&self) -> ServiceConfigView {
        ServiceConfigView {
            server_type: self.server_type,
            cert_str: self.cert_str.deep_view(),
            key_str: self.key_str.deep_view(),
            routes: self.routes.deep_view(),
        }
    }
}

impl View for ServiceConfig {
    type V = ServiceConfigView;

    open spec fn view(&self) -> ServiceConfigView {
        self.deep_view()
    }
}

impl Clone for ServiceConfig {
    fn clone(&self) -> (r: Self)
        ensures
            r@ == self@,
    {
        ServiceConfig {
            server_type: self.server_type,
            cert_str: clone_opt_string(&self.cert_str),
            key_str: clone_opt_string(&self.key_str),
            routes: clone_routes(&self.routes),
        }
    }
}

/// One desired listener: a port and what is served on it.
#[derive(Debug, PartialEq, Eq)]
pub struct ApiService {
    pub api_service_id: String,
    pub listen_port: u16,
    pub service_config: ServiceConfig,
}

pub struct ApiServiceView {
    pub api_service_id: Seq<char>,
    pub listen_port: u16,
    pub service_config: ServiceConfigView,
}

impl DeepView for ApiService {
    type V = ApiServiceView;

    open spec fn deep_view(&self) -> ApiServiceView {
        ApiServiceView {
            api_service_id: self.api_service_id@,
            listen_port: self.listen_port,
            service_config: self.service_config@,
        }
    }
}

impl View for ApiService {
    type V = ApiServiceView;

    open spec fn view(&self) -> ApiServiceView {
        self.deep_view()
    }
}

impl Clone for ApiService {
    fn clone(&self) -> (r: Self)
        ensures
            r@ == self@,
    {
        ApiService {
            api_service_id: self.api_service_id.clone(),
            listen_port: self.listen_port,
            service_config: self.service_config.clone(),
        }
    }
}

/// The key of the listener that a desired service asks for.
pub open spec fn service_key(service: ApiServiceView) -> Seq<char> {
    listener_key(service.listen_port, service.service_config.server_type)
}

impl ApiService {
    /// The key of the listener that this service asks for.
    pub fn listener_key(&self) -> (r: String)
        ensures
            r@ == service_key(self@),
    {
        make_listener_key(self.listen_port, self.service_config.server_type)
    }
}

/// A copy of a list of services.
pub fn clone_services(services: &Vec<ApiService>) -> (r: Vec<ApiService>)
    ensures
        r.deep_view() == services.deep_view(),
{
    let mut out: Vec<ApiService> = Vec::new();
    let mut i: usize = 0;
    while i < services.len()
        invariant
            i <= services.len(),
            out.len() == i,
            forall|j: int| 0 <= j < i ==> out[j]@ == services[j]@,
        decreases services.len() - i,
    {
        out.push(services[i].clone());
        i += 1;
    }
    out
}

/// Options fixed at startup.
#[derive(Debug, PartialEq, Eq)]
pub struct StaticConfig {
    pub access_log: Option<String>,
    pub database_url: Option<String>,
    pub admin_port: String,
    pub config_file_path: Option<String>,
}

pub struct StaticConfigView {
    pub access_log: Option<Seq<char>>,
    pub database_url: Option<Seq<char>>,
    pub admin_port: Seq<char>,
    pub config_file_path: Option<Seq<char>>,
}

impl DeepView for StaticConfig {
    type V = StaticConfigView;

    open spec fn deep_view(&self) -> StaticConfigView {
        StaticConfigView {
            access_log: self.access_log.deep_view(),
            database_url: self.database_url.deep_view(),
            admin_port: self.admin_port@,
            config_file_path: self.config_file_path.deep_view(),
        }
    }
}

impl View for StaticConfig {
    type V = StaticConfigView;

    open spec fn view(&self) -> StaticConfigView {
        self.deep_view()
    }
}

impl Clone for StaticConfig {
    fn clone(&self) -> (r: Self)
        ensures
            r@ == self@,
    {
        StaticConfig {
            access_log: clone_opt_string(&self.access_log),
            database_url: clone_opt_string(&self.database_url),
            admin_port: self.admin_port.clone(),
            config_file_path: clone_opt_string(&self.config_file_path),
        }
    }
}

impl Default for StaticConfig {
    fn default() -> (r: Self)
        ensures
            r@ == (StaticConfigView {
                access_log: None,
                database_url: None,
                admin_port: Seq::<char>::empty(),
                config_file_path: None,
            }),
    {
        StaticConfig {
            access_log: None,
            database_url: None,
            admin_port: String::new(),
            config_file_path: None,
        }
    }
}

/// The whole desired state.
#[derive(Debug, PartialEq, Eq)]
pub struct AppConfig {
    pub static_config: StaticConfig,
    pub api_service_config: Vec<ApiService>,
}

pub struct AppConfigView {
    pub static_config: StaticConfigView,
    pub api_service_config: Seq<ApiServiceView>,
}

impl DeepView for AppConfig {
    type V = AppConfigView;

    open spec fn deep_view(&self) -> AppConfigView {
        AppConfigView {
            static_config: self.static_config@,
            api_service_config: self.api_service_config.deep_view(),
        }
    }
}

impl View for AppConfig {
    type V = AppConfigView;

    open spec fn view(&self) -> AppConfigView {
        self.deep_view()
    }
}

impl Clone for AppConfig {
    fn clone(&self) -> (r: Self)
        ensures
            r@ == self@,
    {
        AppConfig {
            static_config: self.static_config.clone(),
            api_service_config: clone_services(&self.api_service_config),
        }
    }
}

impl Default for AppConfig {
    fn default() -> (r: Self)
        ensures
            r@.api_service_config == Seq::<ApiServiceView>::empty(),
            r@.static_config == (StaticConfigView {
                access_log: None,
                database_url: None,
                admin_port: Seq::<char>::empty(),
                config_file_path: None,
            }),
    {
        let r = AppConfig { static_config: StaticConfig::default(), api_service_config: Vec::new() };
        r
    }
}

} // verus!
