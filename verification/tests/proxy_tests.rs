use rust_proxy::allow_deny_ip::{AllowDenyObject, AllowType};
use rust_proxy::api_service_manager::ManagerTable;
use rust_proxy::app_config::{Authentication, Matcher, Ratelimit, Route, ServiceConfig, ServiceType};
use rust_proxy::constants::{DENY_RESPONSE, NOT_FOUND};
use rust_proxy::http_proxy::{
    access_log_line, assemble, dispatch, error_response, file_step, find_route, local_response,
    proxy, route_file, upstream_decision, upstream_failure, uses_tls, Decision, FileOutcome,
    FileStep, GeneralError, LocalResponse,
};
use rust_proxy::ratelimit::RateBook;
use rust_proxy::route::{BaseRoute, Draw, Header, LoadBalancer};
use rust_proxy::tcp_proxy::{tcp_dispatch, TcpDecision};

fn upstream(name: &str) -> BaseRoute {
    BaseRoute { endpoint: String::from(name), try_file: None }
}

fn route_to(prefix: &str, rewrite: &str, endpoint: &str) -> Route {
    Route {
        route_id: format!("route-{}", prefix),
        host_name: None,
        matcher: Some(Matcher {
            prefix: String::from(prefix),
            prefix_rewrite: String::from(rewrite),
        }),
        route_cluster: LoadBalancer::Random { routes: vec![upstream(endpoint)] },
        allow_deny_list: None,
        authentication: None,
        ratelimit: None,
    }
}

fn acl(limit_type: AllowType, value: Option<&str>) -> Option<Vec<AllowDenyObject>> {
    Some(vec![AllowDenyObject { limit_type, value: value.map(String::from) }])
}

fn header(name: &str, value: &str) -> Header {
    Header { name: String::from(name), value: String::from(value) }
}

fn no_draw() -> Draw {
    Draw { random: 0, turn: 0 }
}

fn run(routes: &Vec<Route>, path: &str, headers: &Vec<Header>, peer: &str) -> Decision {
    let mut book = RateBook::new();
    dispatch(routes, path, headers, peer, no_draw(), 0, &mut book)
}

fn service_with(server_type: ServiceType, routes: Vec<Route>) -> ServiceConfig {
    ServiceConfig { server_type, cert_str: None, key_str: None, routes }
}

#[test]
fn test_proxy_allow_all() {
    let mut route = route_to("/", "test", "http://httpbin.org:80");
    route.allow_deny_list = acl(AllowType::ALLOWALL, None);
    let mut table = ManagerTable::new();
    table.insert(String::from("9998-HTTP"), service_with(ServiceType::HTTP, vec![route]));
    let mut book = RateBook::new();
    let decision =
        proxy(&table, "9998-HTTP", "/get", &Vec::new(), "127.0.0.1", no_draw(), 0, &mut book);
    assert_eq!(
        decision,
        Decision::Forward(upstream("http://httpbin.org:80"), String::from("http://httpbin.org/test"))
    );
    assert_eq!(local_response(&decision), None);
}

#[test]
fn test_proxy_deny_ip() {
    let mut route = route_to("/", "test", "httpbin.org:80");
    route.allow_deny_list = acl(AllowType::DENY, Some("127.0.0.1"));
    let mut table = ManagerTable::new();
    table.insert(String::from("9999-HTTP"), service_with(ServiceType::TCP, vec![route]));
    let mut book = RateBook::new();
    let decision =
        proxy(&table, "9999-HTTP", "/get", &Vec::new(), "127.0.0.1", no_draw(), 0, &mut book);
    assert_eq!(decision, Decision::Forbidden);
    let response = local_response(&decision).unwrap();
    assert_eq!(response.status, 403);
    assert_eq!(response.body, DENY_RESPONSE);
}

#[test]
fn test_proxy_error() {
    let table = ManagerTable::new();
    let mut book = RateBook::new();
    let decision =
        proxy(&table, "test", "/get", &Vec::new(), "127.0.0.1", no_draw(), 0, &mut book);
    assert_eq!(
        decision,
        Decision::Error(GeneralError(String::from(
            "Can not find the config mapping on the key test!"
        )))
    );
}

#[test]
fn test_proxy_adapter_error() {
    let table = ManagerTable::new();
    let mut book = RateBook::new();
    let decision =
        proxy(&table, "test", "/get", &Vec::new(), "127.0.0.1", no_draw(), 0, &mut book);
    let response = local_response(&decision).unwrap();
    assert_eq!(response.status, 500);
    assert_eq!(
        response.body,
        "{\"response_code\":-1,\"response_object\":\"Can not find the config mapping on the key test!\"}"
    );
}

#[test]
fn test_generate_error_ok() {
    let message = String::from("error trying to connect: dns error");
    let general_error = GeneralError::_from(message.clone());
    assert_eq!(message, general_error.to_string());
}

#[test]
fn test_route_file_error() {
    let base_route = BaseRoute { endpoint: String::from("not_found"), try_file: None };
    let step = route_file(&base_route, FileOutcome::Missing);
    assert_eq!(step, FileStep::Fail(GeneralError(String::from("Please config the try_file!"))));
    let step = route_file(&base_route, FileOutcome::Failed);
    assert_eq!(step, FileStep::Fail(GeneralError(String::from("Please config the try_file!"))));
}

#[test]
fn test_route_file_ok() {
    let base_route = BaseRoute { endpoint: String::from("config"), try_file: None };
    assert_eq!(route_file(&base_route, FileOutcome::Found), FileStep::Respond);
}

#[test]
fn test_route_file_with_try_file_ok() {
    let base_route = BaseRoute {
        endpoint: String::from("config"),
        try_file: Some(String::from("app_config.yaml")),
    };
    assert_eq!(
        route_file(&base_route, FileOutcome::Missing),
        FileStep::Retry(String::from("app_config.yaml"))
    );
    assert_eq!(
        route_file(&base_route, FileOutcome::Failed),
        FileStep::Retry(String::from("app_config.yaml"))
    );
    assert_eq!(route_file(&base_route, FileOutcome::Found), FileStep::Respond);
}

#[test]
fn a_fallback_that_is_no_uri_is_reported() {
    let base_route = BaseRoute {
        endpoint: String::from("config"),
        try_file: Some(String::from("app config.yaml")),
    };
    let step = route_file(&base_route, FileOutcome::Missing);
    assert_eq!(step, FileStep::Fail(GeneralError(String::from("invalid uri character"))));
    assert_eq!(route_file(&base_route, FileOutcome::Found), FileStep::Respond);
    assert_eq!(
        file_step(&base_route, FileOutcome::Missing, None),
        FileStep::Retry(String::from("app config.yaml"))
    );
    assert_eq!(
        file_step(&base_route, FileOutcome::Failed, Some(String::from("why"))),
        FileStep::Fail(GeneralError(String::from("why")))
    );
}

#[test]
fn no_route_means_not_found() {
    let decision = run(&Vec::new(), "/get", &Vec::new(), "127.0.0.1");
    assert_eq!(decision, Decision::NotFound);
    assert_eq!(
        local_response(&decision),
        Some(LocalResponse { status: 404, body: String::from(NOT_FOUND) })
    );
    let routes = vec![route_to("/api", "x", "http://a.example")];
    assert_eq!(run(&routes, "/get", &Vec::new(), "127.0.0.1"), Decision::NotFound);
}

#[test]
fn the_first_matching_route_is_selected() {
    let routes = vec![
        route_to("/api/v2", "two", "http://two.example"),
        route_to("/api", "one", "http://one.example"),
        route_to("/", "root", "http://root.example"),
    ];
    assert_eq!(find_route(&routes, "/api/v2/users", &Vec::new()), Some(0));
    assert_eq!(find_route(&routes, "/api/v1/users", &Vec::new()), Some(1));
    assert_eq!(find_route(&routes, "/other", &Vec::new()), Some(2));
    assert_eq!(find_route(&routes, "other", &Vec::new()), None);
    assert_eq!(
        run(&routes, "/api/v1/users", &Vec::new(), "10.0.0.1"),
        Decision::Forward(upstream("http://one.example"), String::from("http://one.example/one"))
    );
    let shadowed = vec![
        route_to("/", "root", "http://root.example"),
        route_to("/api", "one", "http://one.example"),
    ];
    assert_eq!(find_route(&shadowed, "/api/x", &Vec::new()), Some(0));
}

#[test]
fn a_route_without_matcher_is_an_error() {
    let mut broken = route_to("/", "x", "http://a.example");
    broken.matcher = None;
    let routes = vec![route_to("/api", "one", "http://one.example"), broken];
    assert_eq!(
        run(&routes, "/other", &Vec::new(), "10.0.0.1"),
        Decision::Error(GeneralError(String::from("match prefix cound not be null!")))
    );
    assert_eq!(
        run(&routes, "/api", &Vec::new(), "10.0.0.1"),
        Decision::Forward(upstream("http://one.example"), String::from("http://one.example/one"))
    );
    assert_eq!(
        routes[1].is_matched("/other", &Vec::new()),
        Err(GeneralError(String::from("match prefix cound not be null!")))
    );
}

#[test]
fn host_names_are_matched_without_case() {
    let mut route = route_to("/", "x", "http://a.example");
    route.host_name = Some(String::from("Example.com"));
    let routes = vec![route];
    let matching = vec![header("Host", "EXAMPLE.COM")];
    let other = vec![header("Host", "example.org")];
    assert_eq!(routes[0].is_matched("/get", &matching), Ok(true));
    assert_eq!(routes[0].is_matched("/get", &other), Ok(false));
    assert_eq!(routes[0].is_matched("/get", &Vec::new()), Ok(false));
    assert_eq!(routes[0].is_matched("get", &matching), Ok(false));
    assert_eq!(run(&routes, "/get", &other, "10.0.0.1"), Decision::NotFound);
    assert_eq!(
        run(&routes, "/get", &matching, "10.0.0.1"),
        Decision::Forward(upstream("http://a.example"), String::from("http://a.example/x"))
    );
}

#[test]
fn authentication_is_checked_against_the_headers() {
    let api_value = format!("{}-{}", "open", "sesame");
    let mut keyed = route_to("/", "x", "http://a.example");
    keyed.authentication = Some(Authentication::ApiKey {
        key: String::from("x-api-key"),
        value: api_value.clone(),
    });
    assert!(keyed.is_authenticated(&vec![header("X-Api-Key", api_value.as_str())]));
    assert!(!keyed.is_authenticated(&vec![header("X-Api-Key", api_value.to_uppercase().as_str())]));
    assert!(!keyed.is_authenticated(&vec![header("X-Other", api_value.as_str())]));
    assert!(!keyed.is_authenticated(&Vec::new()));
    let credentials = format!("{}{}", "abc", "def");
    let scheme = "Basic";
    let mut basic = route_to("/", "x", "http://a.example");
    basic.authentication = Some(Authentication::Basic { credentials: credentials.clone() });
    let right = format!("{} {}", scheme, credentials);
    let bare = credentials.clone();
    let longer = format!("{} {}g", scheme, credentials);
    let lower = format!("{} {}", scheme.to_lowercase(), credentials);
    assert!(basic.is_authenticated(&vec![header("Authorization", right.as_str())]));
    assert!(basic.is_authenticated(&vec![header("authorization", right.as_str())]));
    assert!(!basic.is_authenticated(&vec![header("Authorization", bare.as_str())]));
    assert!(!basic.is_authenticated(&vec![header("Authorization", longer.as_str())]));
    assert!(!basic.is_authenticated(&vec![header("Authorization", lower.as_str())]));
    assert!(!basic.is_authenticated(&Vec::new()));
    assert!(route_to("/", "x", "y").is_authenticated(&Vec::new()));
    assert_eq!(run(&vec![keyed], "/get", &Vec::new(), "10.0.0.1"), Decision::Forbidden);
}

#[test]
fn the_rate_limit_forbids_once_the_budget_is_spent() {
    let mut limited = route_to("/", "x", "http://a.example");
    limited.ratelimit = Some(Ratelimit::FixedWindow { limit: 1, window_ms: 1000 });
    let routes = vec![limited];
    let mut book = RateBook::new();
    let forward =
        Decision::Forward(upstream("http://a.example"), String::from("http://a.example/x"));
    assert_eq!(dispatch(&routes, "/", &Vec::new(), "10.0.0.1", no_draw(), 0, &mut book), forward);
    assert_eq!(
        dispatch(&routes, "/", &Vec::new(), "10.0.0.1", no_draw(), 10, &mut book),
        Decision::Forbidden
    );
    assert_eq!(dispatch(&routes, "/", &Vec::new(), "10.0.0.2", no_draw(), 10, &mut book), forward);
    assert_eq!(
        dispatch(&routes, "/", &Vec::new(), "10.0.0.1", no_draw(), 1000, &mut book),
        forward
    );
}

#[test]
fn a_denied_peer_spends_no_budget() {
    let mut limited = route_to("/", "x", "http://a.example");
    limited.ratelimit = Some(Ratelimit::FixedWindow { limit: 1, window_ms: 1000 });
    limited.allow_deny_list = acl(AllowType::DENY, Some("10.0.0.9"));
    let routes = vec![limited];
    let mut book = RateBook::new();
    assert_eq!(
        dispatch(&routes, "/", &Vec::new(), "10.0.0.9", no_draw(), 0, &mut book),
        Decision::Forbidden
    );
    assert!(book.entries.is_empty());
}

#[test]
fn an_empty_cluster_is_an_error() {
    let mut route = route_to("/", "x", "http://a.example");
    route.route_cluster = LoadBalancer::RoundRobin { routes: vec![] };
    assert_eq!(
        run(&vec![route], "/", &Vec::new(), "10.0.0.1"),
        Decision::Error(GeneralError(String::from("The cluster has no endpoint!")))
    );
}

#[test]
fn endpoints_without_http_serve_files() {
    let endpoint = BaseRoute {
        endpoint: String::from("config"),
        try_file: Some(String::from("app_config.yaml")),
    };
    assert_eq!(assemble("/", endpoint.clone()), Decision::ServeFile(endpoint.clone()));
    let mut route = route_to("/", "ignored", "config");
    route.route_cluster = LoadBalancer::Random { routes: vec![endpoint.clone()] };
    assert_eq!(run(&vec![route], "/xxxxxx", &Vec::new(), "10.0.0.1"), Decision::ServeFile(endpoint));
}

#[test]
fn forwarding_uris_are_joined_not_concatenated() {
    assert_eq!(
        assemble("/", upstream("http://httpbin.org:80")),
        Decision::Forward(upstream("http://httpbin.org:80"), String::from("http://httpbin.org/"))
    );
    assert_eq!(
        assemble("c", upstream("https://host.example/a/b")),
        Decision::Forward(
            upstream("https://host.example/a/b"),
            String::from("https://host.example/a/c")
        )
    );
    assert_eq!(
        assemble("/z?q=1", upstream("http://host.example:8080/a/b/")),
        Decision::Forward(
            upstream("http://host.example:8080/a/b/"),
            String::from("http://host.example:8080/z?q=1")
        )
    );
}

#[test]
fn broken_upstreams_are_reported_with_their_reason() {
    assert_eq!(
        assemble("/", upstream("not-http-url")),
        Decision::Error(GeneralError(String::from("relative URL without a base")))
    );
    assert_eq!(
        assemble("/", upstream("http://")),
        Decision::Error(GeneralError(String::from("empty host")))
    );
    assert_eq!(
        assemble("http://[", upstream("http://host.example")),
        Decision::Error(GeneralError(String::from("invalid IPv6 address")))
    );
}

#[test]
fn upstream_decision_goes_by_the_given_results() {
    let http = upstream("http://a.example");
    assert_eq!(
        upstream_decision(upstream("dir"), Some(String::from("e1")), Err(String::from("e2")), None),
        Decision::ServeFile(upstream("dir"))
    );
    assert_eq!(
        upstream_decision(
            http.clone(),
            Some(String::from("e1")),
            Ok(String::from("u")),
            Some(String::from("e3"))
        ),
        Decision::Error(GeneralError(String::from("e1")))
    );
    assert_eq!(
        upstream_decision(http.clone(), None, Err(String::from("e2")), Some(String::from("e3"))),
        Decision::Error(GeneralError(String::from("e2")))
    );
    assert_eq!(
        upstream_decision(http.clone(), None, Ok(String::from("u")), Some(String::from("e3"))),
        Decision::Error(GeneralError(String::from("e3")))
    );
    assert_eq!(
        upstream_decision(http.clone(), None, Ok(String::from("u")), None),
        Decision::Forward(http, String::from("u"))
    );
}

#[test]
fn the_client_is_chosen_by_scheme() {
    assert!(uses_tls("https://localhost:4450/get"));
    assert!(!uses_tls("http://localhost:4450/get"));
    assert!(!uses_tls("http://localhost/https:"));
    assert!(!uses_tls("https"));
}

#[test]
fn error_responses_wrap_the_cause() {
    let response = error_response(&GeneralError(String::from("a \"quoted\" cause")));
    assert_eq!(response.status, 500);
    assert_eq!(
        response.body,
        "{\"response_code\":-1,\"response_object\":\"a \\\"quoted\\\" cause\"}"
    );
    let failure = upstream_failure("connection refused", "http://localhost:4450/get");
    assert_eq!(failure.0, "connection refused,the dst endpoint is http://localhost:4450/get");
    assert_eq!(failure.clone(), failure);
}

#[test]
fn access_log_lines_have_six_fields() {
    assert_eq!(
        access_log_line("127.0.0.1:8080", 12, 200, "GET", "/get", "{\"host\": \"a\"}"),
        "127.0.0.1:8080$$12$$200$$GET$$/get$$\"{\\\"host\\\": \\\"a\\\"}\""
    );
    assert_eq!(access_log_line("", 0, 0, "", "", ""), "$$0$$0$$$$$$\"\"");
}

#[test]
fn tcp_connections_go_by_the_first_route() {
    let mut first = route_to("/ignored", "x", "10.0.0.5:5432");
    first.route_cluster = LoadBalancer::RoundRobin {
        routes: vec![upstream("10.0.0.5:5432"), upstream("10.0.0.6:5432")],
    };
    first.allow_deny_list = acl(AllowType::DENY, Some("10.9.9.9"));
    let routes = vec![first, route_to("/", "x", "10.0.0.7:5432")];
    assert_eq!(
        tcp_dispatch(&routes, "10.0.0.1", Draw { random: 0, turn: 1 }),
        TcpDecision::Relay(upstream("10.0.0.6:5432"))
    );
    assert_eq!(tcp_dispatch(&routes, "10.9.9.9", no_draw()), TcpDecision::Refuse);
    assert_eq!(
        tcp_dispatch(&Vec::new(), "10.0.0.1", no_draw()),
        TcpDecision::Error(GeneralError(String::from("The tcp service has no route!")))
    );
    let mut empty = route_to("/", "x", "y");
    empty.route_cluster = LoadBalancer::Random { routes: vec![] };
    assert_eq!(
        tcp_dispatch(&vec![empty], "10.0.0.1", no_draw()),
        TcpDecision::Error(GeneralError(String::from("The cluster has no endpoint!")))
    );
}

#[test]
fn a_decision_rests_on_its_own_listener_only() {
    let mut small = ManagerTable::new();
    small.insert(
        String::from("80-HTTP"),
        service_with(ServiceType::HTTP, vec![route_to("/", "x", "http://a.example")]),
    );
    let mut large = ManagerTable::new();
    large.insert(
        String::from("80-HTTP"),
        service_with(ServiceType::HTTP, vec![route_to("/", "x", "http://a.example")]),
    );
    large.insert(
        String::from("81-HTTP"),
        service_with(ServiceType::HTTP, vec![route_to("/", "y", "http://b.example")]),
    );
    let mut book_a = RateBook::new();
    let mut book_b = RateBook::new();
    let a = proxy(&small, "80-HTTP", "/get", &Vec::new(), "10.0.0.1", no_draw(), 0, &mut book_a);
    let b = proxy(&large, "80-HTTP", "/get", &Vec::new(), "10.0.0.1", no_draw(), 0, &mut book_b);
    assert_eq!(a, b);
    assert_eq!(
        a,
        Decision::Forward(upstream("http://a.example"), String::from("http://a.example/x"))
    );
}

fn envelope_code(body: &str) -> i64 {
    let value: serde_json::Value = serde_json::from_str(body).unwrap();
    value.get("response_code").and_then(|code| code.as_i64()).unwrap()
}

#[test]
fn test_http_client_ok() {
    let table = ManagerTable::new();
    let mut book = RateBook::new();
    let decision =
        proxy(&table, "random key", "/get", &Vec::new(), "127.0.0.1", no_draw(), 0, &mut book);
    let response = local_response(&decision).unwrap();
    assert_eq!(response.status, 500);
    assert_eq!(envelope_code(response.body.as_str()), -1);
    assert_eq!(uses_tls("http://127.0.0.1:9987/get"), false);
}

#[test]
fn test_https_client_ok() {
    let table = ManagerTable::new();
    let mut book = RateBook::new();
    let decision =
        proxy(&table, "random key", "/get", &Vec::new(), "127.0.0.1", no_draw(), 0, &mut book);
    let response = local_response(&decision).unwrap();
    assert_eq!(response.status, 500);
    assert_eq!(envelope_code(response.body.as_str()), -1);
    let value: serde_json::Value = serde_json::from_str(response.body.as_str()).unwrap();
    assert_eq!(
        value.get("response_object").and_then(|cause| cause.as_str()),
        Some("Can not find the config mapping on the key random key!")
    );
    assert_eq!(uses_tls("https://localhost:4450/get"), true);
}
