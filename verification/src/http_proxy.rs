//! The request pipeline of a listener: route matching, admission, upstream
//! selection, and the responses the proxy produces by itself.

use vstd::prelude::*;
use vstd::string::StringExecFns;
use crate::allow_deny_ip::{admits, is_admitted};
use crate::api_service_manager::ManagerTable;
use crate::app_config::{
    Authentication, AuthenticationView, Route, RouteView, ServiceConfigView,
};
use crate::ratelimit::{count_of, limit_step, Counter, RateBook};
use crate::route::{
    empty_cluster_message, find_header, header_value, pick, BaseRoute, BaseRouteView, Draw,
    Header, HeaderView,
};
use crate::constants::{DENY_RESPONSE, NOT_FOUND};
use crate::text::{append_decimal, decimal};
use crate::text::{contains, eq_ignore_ascii_case, eq_ignoring_ascii_case, has_infix, same_text, starts_with};

verus! {

/// A request-scoped failure, carried as the text of its cause.
#[derive(Debug, PartialEq, Eq)]
pub struct GeneralError(pub String);

impl View for GeneralError {
    type V = Seq<char>;

    open spec fn view(&self) -> Seq<char> {
        self.0@
    }
}

impl Clone for GeneralError {
    fn clone(&self) -> (r: Self)
        ensures
            r@ == self@,
    {
        GeneralError(self.0.clone())
    }
}

impl GeneralError {
    /// Wraps the text of a failure reported by an upstream client.
    pub fn _from(err: String) -> (r: Self)
        ensures
            r@ == err@,
    {
        GeneralError(err)
    }

    /// The cause, as text.
    pub fn to_string(&self) -> (r: String)
        ensures
            r@ == self@,
    {
        self.0.clone()
    }
}

/// Why `url::Url::parse` rejects a text, or `None` when it parses.
pub uninterp spec fn url_parse_failure(text: Seq<char>) -> Option<Seq<char>>;

/// What `url::Url::join` makes of a reference against the URL that a base
/// text parses to: the serialization of the joined URL, or the reason for
/// the failure.
pub uninterp spec fn url_join(base: Seq<char>, reference: Seq<char>) -> Result<
    Seq<char>,
    Seq<char>,
>;

/// Why `http::Uri` rejects a text, or `None` when it parses.
pub uninterp spec fn uri_parse_failure(text: Seq<char>) -> Option<Seq<char>>;

/// The texts inside a result of strings.
pub open spec fn result_text(r: Result<String, String>) -> Result<Seq<char>, Seq<char>> {
    match r {
        Ok(t) => Ok(t@),
        Err(e) => Err(e@),
    }
}

/// `url::Url::parse`: `None` when the text is an absolute URL, otherwise
/// the message of the parse error.
#[verifier::external_body]
fn url_parse_error(text: &str) -> (r: Option<String>)
    ensures
        r.deep_view() == url_parse_failure(text@),
{
    match url::Url::parse(text) {
        Ok(_) => None,
        Err(e) => Some(e.to_string()),
    }
}

/// `url::Url::join` on the URL that `base` parses to: the joined URL as
/// text, or the message of the parse error. `base` must be a text that
/// `url::Url::parse` accepts.
#[verifier::external_body]
fn join_url(base: &str, reference: &str) -> (r: Result<String, String>)
    requires
        url_parse_failure(base@) is None,
    ensures
        result_text(r) == url_join(base@, reference@),
{
    match url::Url::parse(base).unwrap().join(reference) {
        Ok(u) => Ok(u.to_string()),
        Err(e) => Err(e.to_string()),
    }
}

/// `http::Uri::from_str`: `None` when the text is a URI, otherwise the
/// message of the error.
#[verifier::external_body]
fn uri_parse_error(text: &str) -> (r: Option<String>)
    ensures
        r.deep_view() == uri_parse_failure(text@),
{
    match text.parse::<http::Uri>() {
        Ok(_) => None,
        Err(e) => Some(e.to_string()),
    }
}

/// What the proxy does with a request.
#[derive(Debug, PartialEq, Eq)]
pub enum Decision {
    /// Send the request to the endpoint, under the given URI.
    Forward(BaseRoute, String),
    /// Serve a file from the directory that the endpoint names.
    ServeFile(BaseRoute),
    /// The peer is not admitted.
    Forbidden,
    /// No route takes the request.
    NotFound,
    /// The configuration cannot serve the request.
    Error(GeneralError),
}

pub enum DecisionView {
    Forward(BaseRouteView, Seq<char>),
    ServeFile(BaseRouteView),
    Forbidden,
    NotFound,
    Error(Seq<char>),
}

impl View for Decision {
    type V = DecisionView;

    open spec fn view(&self) -> DecisionView {
        match self {
            Decision::Forward(e, uri) => DecisionView::Forward(e@, uri@),
            Decision::ServeFile(e) => DecisionView::ServeFile(e@),
            Decision::Forbidden => DecisionView::Forbidden,
            Decision::NotFound => DecisionView::NotFound,
            Decision::Error(c) => DecisionView::Error(c@),
        }
    }
}

/// The cause reported for a route without a matcher.
pub open spec fn missing_matcher_message() -> Seq<char> {
    "match prefix cound not be null!"@
}

/// The cause reported when no listener is known under a key.
pub open spec fn missing_mapping_message(key: Seq<char>) -> Seq<char> {
    "Can not find the config mapping on the key "@ + key + "!"@
}

/// Whether a route takes a request: its prefix starts the path and, if the
/// route names a host, the `Host` header equals that name up to ASCII case.
pub open spec fn route_matches(route: RouteView, path: Seq<char>, headers: Seq<HeaderView>) -> bool {
    &&& route.matcher is Some
    &&& route.matcher->Some_0.prefix.is_prefix_of(path)
    &&& match route.host_name {
        None => true,
        Some(name) => match header_value(headers, "host"@) {
            Some(v) => eq_ignoring_ascii_case(v, name),
            None => false,
        },
    }
}

/// Whether the search for a route ends at this one: it takes the request,
/// or it has no matcher and so cannot be judged.
pub open spec fn search_stops(route: RouteView, path: Seq<char>, headers: Seq<HeaderView>) -> bool {
    route.matcher is None || route_matches(route, path, headers)
}

/// The position, at or after `from`, of the first route at which the search
/// ends.
pub open spec fn first_stop(
    routes: Seq<RouteView>,
    path: Seq<char>,
    headers: Seq<HeaderView>,
    from: int,
) -> Option<int>
    decreases routes.len() - from,
{
    if from < 0 || from >= routes.len() {
        None
    } else if search_stops(routes[from], path, headers) {
        Some(from)
    } else {
        first_stop(routes, path, headers, from + 1)
    }
}

/// Whether the headers carry what the policy asks for.
pub open spec fn authenticated(policy: Option<AuthenticationView>, headers: Seq<HeaderView>) -> bool {
    match policy {
        None => true,
        Some(AuthenticationView::ApiKey { key, value }) => header_value(headers, key) == Some(
            value,
        ),
        Some(AuthenticationView::Basic { credentials }) => header_value(
            headers,
            "authorization"@,
        ) == Some("Basic "@ + credentials),
    }
}

/// The text of a successful join; empty for a failed one.
pub open spec fn joined_text(joined: Result<Seq<char>, Seq<char>>) -> Seq<char> {
    match joined {
        Ok(t) => t,
        Err(_) => Seq::empty(),
    }
}

/// The decision for a picked endpoint, given what the URL machinery makes
/// of it. An endpoint whose text does not contain `http` is a directory to
/// serve files from. Any other is an upstream: the request is forwarded
/// under the joined URI, unless the endpoint is no URL, the join fails, or
/// the joined text is no URI, each of which is reported with its reason.
pub open spec fn upstream_decision_for(
    endpoint: BaseRouteView,
    base_failure: Option<Seq<char>>,
    joined: Result<Seq<char>, Seq<char>>,
    uri_failure: Option<Seq<char>>,
) -> DecisionView {
    if !has_infix(endpoint.endpoint, "http"@) {
        DecisionView::ServeFile(endpoint)
    } else if base_failure is Some {
        DecisionView::Error(base_failure->Some_0)
    } else if joined is Err {
        DecisionView::Error(joined->Err_0)
    } else if uri_failure is Some {
        DecisionView::Error(uri_failure->Some_0)
    } else {
        DecisionView::Forward(endpoint, joined->Ok_0)
    }
}

/// The decision for an endpoint picked on a route that rewrites to
/// `rewrite`.
pub open spec fn assembled(rewrite: Seq<char>, endpoint: BaseRouteView) -> DecisionView {
    upstream_decision_for(
        endpoint,
        url_parse_failure(endpoint.endpoint),
        url_join(endpoint.endpoint, rewrite),
        uri_parse_failure(joined_text(url_join(endpoint.endpoint, rewrite))),
    )
}

/// The budget check of a route for a peer at `now`: whether the request is
/// within budget, and the counts afterwards. A route without a limit admits
/// everything and counts nothing.
pub open spec fn budget_check(
    route: RouteView,
    peer_ip: Seq<char>,
    now: u64,
    book: Map<(Seq<char>, Seq<char>), Counter>,
) -> (bool, Map<(Seq<char>, Seq<char>), Counter>) {
    match route.ratelimit {
        None => (true, book),
        Some(policy) => {
            let step = limit_step(policy, count_of(book, route.route_id, peer_ip), now);
            (step.0, book.insert((route.route_id, peer_ip), step.1))
        },
    }
}

/// What becomes of a request on the route at which the search ended, and
/// the rate counts afterwards: in turn, the route must have a matcher, the
/// access rules must admit the peer, the headers must authenticate, the
/// request must be within budget, and the cluster must have an endpoint.
pub open spec fn route_decision(
    route: RouteView,
    headers: Seq<HeaderView>,
    peer_ip: Seq<char>,
    draw: Draw,
    now: u64,
    book: Map<(Seq<char>, Seq<char>), Counter>,
) -> (DecisionView, Map<(Seq<char>, Seq<char>), Counter>) {
    if route.matcher is None {
        (DecisionView::Error(missing_matcher_message()), book)
    } else if !admits(route.allow_deny_list, peer_ip) {
        (DecisionView::Forbidden, book)
    } else if !authenticated(route.authentication, headers) {
        (DecisionView::Forbidden, book)
    } else {
        let checked = budget_check(route, peer_ip, now, book);
        if !checked.0 {
            (DecisionView::Forbidden, checked.1)
        } else {
            match pick(route.route_cluster, headers, draw) {
                None => (DecisionView::Error(empty_cluster_message()), checked.1),
                Some(endpoint) => (
                    assembled(route.matcher->Some_0.prefix_rewrite, endpoint),
                    checked.1,
                ),
            }
        }
    }
}

/// What becomes of a request under a route table, and the rate counts
/// afterwards: the routes are tried in order, and the first at which the
/// search ends decides; if it ends nowhere, the request is not found.
pub open spec fn dispatched(
    routes: Seq<RouteView>,
    path: Seq<char>,
    headers: Seq<HeaderView>,
    peer_ip: Seq<char>,
    draw: Draw,
    now: u64,
    book: Map<(Seq<char>, Seq<char>), Counter>,
) -> (DecisionView, Map<(Seq<char>, Seq<char>), Counter>) {
    match first_stop(routes, path, headers, 0) {
        None => (DecisionView::NotFound, book),
        Some(i) => route_decision(routes[i], headers, peer_ip, draw, now, book),
    }
}

/// The search ends at the lowest position that takes the request or lacks a
/// matcher, and nowhere if there is no such position.
pub proof fn lemma_first_stop_is_lowest(
    routes: Seq<RouteView>,
    path: Seq<char>,
    headers: Seq<HeaderView>,
    from: int,
)
    requires
        0 <= from,
    ensures
        match first_stop(routes, path, headers, from) {
            Some(i) => from <= i < routes.len() && search_stops(routes[i], path, headers)
                && forall|j: int| from <= j < i ==> !search_stops(#[trigger] routes[j], path, headers),
            None => forall|j: int|
                from <= j < routes.len() ==> !search_stops(#[trigger] routes[j], path, headers),
        },
    decreases routes.len() - from,
{
    if from < routes.len() && !search_stops(routes[from], path, headers) {
        lemma_first_stop_is_lowest(routes, path, headers, from + 1);
    }
}

/// Among several routes that take a request, the one declared first is
/// selected: when every route has a matcher and `winner` is the lowest
/// position whose route takes the request, the decision is the one made on
/// that route.
pub proof fn lemma_lowest_match_wins(
    routes: Seq<RouteView>,
    path: Seq<char>,
    headers: Seq<HeaderView>,
    peer_ip: Seq<char>,
    draw: Draw,
    now: u64,
    book: Map<(Seq<char>, Seq<char>), Counter>,
    winner: int,
)
    requires
        0 <= winner < routes.len(),
        route_matches(routes[winner], path, headers),
        forall|j: int|
            0 <= j < winner ==> (#[trigger] routes[j]).matcher is Some && !route_matches(
                routes[j],
                path,
                headers,
            ),
    ensures
        first_stop(routes, path, headers, 0) == Some(winner),
        dispatched(routes, path, headers, peer_ip, draw, now, book) == route_decision(
            routes[winner],
            headers,
            peer_ip,
            draw,
            now,
            book,
        ),
{
    lemma_first_stop_is_lowest(routes, path, headers, 0);
}

impl Route {
    /// Whether this route takes the request. A route without a matcher
    /// cannot be judged, which is an error.
    pub fn is_matched(&self, path: &str, headers: &Vec<Header>) -> (r: Result<bool, GeneralError>)
        ensures
            match r {
                Ok(b) => self@.matcher is Some && b == route_matches(
                    self@,
                    path@,
                    headers.deep_view(),
                ),
                Err(e) => self@.matcher is None && e@ == missing_matcher_message(),
            },
    {
        match &self.matcher {
            None => Err(GeneralError("match prefix cound not be null!".to_owned())),
            Some(m) => {
                if !starts_with(path, m.prefix.as_str()) {
                    return Ok(false);
                }
                match &self.host_name {
                    None => Ok(true),
                    Some(name) => match find_header(headers, "host") {
                        Some(v) => Ok(eq_ignore_ascii_case(v.as_str(), name.as_str())),
                        None => Ok(false),
                    },
                }
            },
        }
    }

    /// Whether the access rules of this route admit the peer.
    pub fn is_allowed(&self, peer_ip: &str) -> (r: bool)
        ensures
            r == admits(self@.allow_deny_list, peer_ip@),
    {
        is_admitted(&self.allow_deny_list, peer_ip)
    }

    /// Whether the headers carry what this route's policy asks for.
    pub fn is_authenticated(&self, headers: &Vec<Header>) -> (r: bool)
        ensures
            r == authenticated(self@.authentication, headers.deep_view()),
    {
        match &self.authentication {
            None => true,
            Some(Authentication::ApiKey { key, value }) => {
                match find_header(headers, key.as_str()) {
                    Some(v) => same_text(v.as_str(), value.as_str()),
                    None => false,
                }
            },
            Some(Authentication::Basic { credentials }) => {
                match find_header(headers, "authorization") {
                    Some(v) => {
                        let mut expected = "Basic ".to_owned();
                        expected.append(credentials.as_str());
                        same_text(v.as_str(), expected.as_str())
                    },
                    None => false,
                }
            },
        }
    }

    /// Counts the request against this route's budget for the peer and says
    /// whether it is within it.
    pub fn within_budget(&self, peer_ip: &str, now_ms: u64, book: &mut RateBook) -> (r: bool)
        ensures
            r == budget_check(self@, peer_ip@, now_ms, old(book)@).0,
            final(book)@ == budget_check(self@, peer_ip@, now_ms, old(book)@).1,
    {
        match self.ratelimit {
            None => true,
            Some(policy) => book.allow(self.route_id.as_str(), peer_ip, policy, now_ms),
        }
    }
}

/// Finds the first route at which the search for a request ends.
pub fn find_route(routes: &Vec<Route>, path: &str, headers: &Vec<Header>) -> (r: Option<usize>)
    ensures
        match r {
            Some(i) => first_stop(routes.deep_view(), path@, headers.deep_view(), 0) == Some(
                i as int,
            ) && i < routes.len(),
            None => first_stop(routes.deep_view(), path@, headers.deep_view(), 0) is None,
        },
{
    let mut i: usize = 0;
    while i < routes.len()
        invariant
            i <= routes.len(),
            first_stop(routes.deep_view(), path@, headers.deep_view(), 0) == first_stop(
                routes.deep_view(),
                path@,
                headers.deep_view(),
                i as int,
            ),
        decreases routes.len() - i,
    {
        match routes[i].is_matched(path, headers) {
            Ok(false) => {},
            _ => {
                return Some(i);
            },
        }
        i += 1;
    }
    None
}

/// Decides what to do with a picked endpoint, given what the URL machinery
/// made of it: `base_failure` is why the endpoint is no URL, `joined` the
/// endpoint joined with the rewrite path, `uri_failure` why the joined text
/// is no URI.
pub fn upstream_decision(
    endpoint: BaseRoute,
    base_failure: Option<String>,
    joined: Result<String, String>,
    uri_failure: Option<String>,
) -> (d: Decision)
    ensures
        d@ == upstream_decision_for(
            endpoint@,
            base_failure.deep_view(),
            result_text(joined),
            uri_failure.deep_view(),
        ),
{
    if !contains(endpoint.endpoint.as_str(), "http") {
        return Decision::ServeFile(endpoint);
    }
    if let Some(cause) = base_failure {
        return Decision::Error(GeneralError(cause));
    }
    match joined {
        Err(cause) => Decision::Error(GeneralError(cause)),
        Ok(uri) => match uri_failure {
            Some(cause) => Decision::Error(GeneralError(cause)),
            None => Decision::Forward(endpoint, uri),
        },
    }
}

/// Decides what to do with an endpoint picked on a route that rewrites to
/// `rewrite`: serve files from it, or forward to it under the URI that
/// joining the endpoint with `rewrite` gives.
pub fn assemble(rewrite: &str, endpoint: BaseRoute) -> (d: Decision)
    ensures
        d@ == assembled(rewrite@, endpoint@),
{
    if !contains(endpoint.endpoint.as_str(), "http") {
        return Decision::ServeFile(endpoint);
    }
    if let Some(cause) = url_parse_error(endpoint.endpoint.as_str()) {
        return Decision::Error(GeneralError(cause));
    }
    match join_url(endpoint.endpoint.as_str(), rewrite) {
        Err(cause) => Decision::Error(GeneralError(cause)),
        Ok(uri) => match uri_parse_error(uri.as_str()) {
            Some(cause) => Decision::Error(GeneralError(cause)),
            None => Decision::Forward(endpoint, uri),
        },
    }
}

/// Decides what to do with a request on the route at which the search
/// ended.
pub fn decide_on_route(
    route: &Route,
    headers: &Vec<Header>,
    peer_ip: &str,
    draw: Draw,
    now_ms: u64,
    book: &mut RateBook,
) -> (d: Decision)
    ensures
        d@ == route_decision(route@, headers.deep_view(), peer_ip@, draw, now_ms, old(book)@).0,
        final(book)@ == route_decision(
            route@,
            headers.deep_view(),
            peer_ip@,
            draw,
            now_ms,
            old(book)@,
        ).1,
{
    let rewrite = match &route.matcher {
        None => {
            return Decision::Error(GeneralError("match prefix cound not be null!".to_owned()));
        },
        Some(m) => m.prefix_rewrite.as_str(),
    };
    if !route.is_allowed(peer_ip) {
        return Decision::Forbidden;
    }
    if !route.is_authenticated(headers) {
        return Decision::Forbidden;
    }
    if !route.within_budget(peer_ip, now_ms, book) {
        return Decision::Forbidden;
    }
    match route.route_cluster.get_route(headers, draw) {
        Err(cause) => Decision::Error(cause),
        Ok(endpoint) => assemble(rewrite, endpoint),
    }
}

/// Decides what to do with a request under a route table.
///
/// The routes are tried in declaration order; the first one that takes the
/// request decides, and a route without a matcher met on the way is an
/// error. On that route the peer must pass the access rules, the
/// authentication and the rate limit, else the request is forbidden. Then
/// the cluster picks an endpoint, and the request is forwarded to it or
/// served from its directory. A request that no route takes is not found.
pub fn dispatch(
    routes: &Vec<Route>,
    request_path: &str,
    headers: &Vec<Header>,
    peer_ip: &str,
    draw: Draw,
    now_ms: u64,
    book: &mut RateBook,
) -> (d: Decision)
    ensures
        d@ == dispatched(
            routes.deep_view(),
            request_path@,
            headers.deep_view(),
            peer_ip@,
            draw,
            now_ms,
            old(book)@,
        ).0,
        final(book)@ == dispatched(
            routes.deep_view(),
            request_path@,
            headers.deep_view(),
            peer_ip@,
            draw,
            now_ms,
            old(book)@,
        ).1,
{
    match find_route(routes, request_path, headers) {
        None => Decision::NotFound,
        Some(i) => {
            decide_on_route(&routes[i], headers, peer_ip, draw, now_ms, book)
        },
    }
}

/// What becomes of a request on the listener `key`, and the rate counts
/// afterwards: the decision under the route table that the listener
/// currently serves, or an error when no such listener is known.
pub open spec fn proxied(
    table: Map<Seq<char>, ServiceConfigView>,
    key: Seq<char>,
    path: Seq<char>,
    headers: Seq<HeaderView>,
    peer_ip: Seq<char>,
    draw: Draw,
    now: u64,
    book: Map<(Seq<char>, Seq<char>), Counter>,
) -> (DecisionView, Map<(Seq<char>, Seq<char>), Counter>) {
    if table.dom().contains(key) {
        dispatched(table[key].routes, path, headers, peer_ip, draw, now, book)
    } else {
        (DecisionView::Error(missing_mapping_message(key)), book)
    }
}

/// A decision rests on one route table only, that of the listener the
/// request arrived on: two tables that agree on that listener give the same
/// decision, whatever they hold for other listeners.
pub proof fn lemma_decision_from_one_snapshot(
    one: Map<Seq<char>, ServiceConfigView>,
    other: Map<Seq<char>, ServiceConfigView>,
    key: Seq<char>,
    path: Seq<char>,
    headers: Seq<HeaderView>,
    peer_ip: Seq<char>,
    draw: Draw,
    now: u64,
    book: Map<(Seq<char>, Seq<char>), Counter>,
)
    requires
        one.dom().contains(key) == other.dom().contains(key),
        one.dom().contains(key) ==> one[key].routes == other[key].routes,
    ensures
        proxied(one, key, path, headers, peer_ip, draw, now, book) == proxied(
            other,
            key,
            path,
            headers,
            peer_ip,
            draw,
            now,
            book,
        ),
{
}

/// Decides what to do with a request that arrived on the listener
/// `mapping_key`. The whole decision is made on the one route table that
/// the listener serves at the moment of the call.
pub fn proxy(
    table: &ManagerTable,
    mapping_key: &str,
    request_path: &str,
    headers: &Vec<Header>,
    peer_ip: &str,
    draw: Draw,
    now_ms: u64,
    book: &mut RateBook,
) -> (d: Decision)
    ensures
        d@ == proxied(
            table@,
            mapping_key@,
            request_path@,
            headers.deep_view(),
            peer_ip@,
            draw,
            now_ms,
            old(book)@,
        ).0,
        final(book)@ == proxied(
            table@,
            mapping_key@,
            request_path@,
            headers.deep_view(),
            peer_ip@,
            draw,
            now_ms,
            old(book)@,
        ).1,
{
    match table.get(mapping_key) {
        None => {
            let mut cause = "Can not find the config mapping on the key ".to_owned();
            cause.append(mapping_key);
            cause.append("!");
            Decision::Error(GeneralError(cause))
        },
        Some(config) => dispatch(&config.routes, request_path, headers, peer_ip, draw, now_ms, book),
    }
}

/// The text that `serde_json` writes for an object of two members, the
/// first a number and the second a string.
pub uninterp spec fn json_object(
    first_key: Seq<char>,
    first: int,
    second_key: Seq<char>,
    second: Seq<char>,
) -> Seq<char>;

/// The text that `serde_json` writes for a string value.
pub uninterp spec fn json_string(text: Seq<char>) -> Seq<char>;

/// `serde_json::Value::to_string` on an object with the two given members.
#[verifier::external_body]
fn json_object_text(first_key: &str, first: i64, second_key: &str, second: &str) -> (r: String)
    ensures
        r@ == json_object(first_key@, first as int, second_key@, second@),
{
    let mut members = serde_json::Map::new();
    members.insert(first_key.to_owned(), serde_json::Value::from(first));
    members.insert(second_key.to_owned(), serde_json::Value::from(second));
    serde_json::Value::Object(members).to_string()
}

/// `serde_json::Value::to_string` on a string value.
#[verifier::external_body]
fn json_string_text(text: &str) -> (r: String)
    ensures
        r@ == json_string(text@),
{
    serde_json::Value::from(text).to_string()
}

/// A response that the proxy writes by itself.
#[derive(Debug, PartialEq, Eq)]
pub struct LocalResponse {
    pub status: u16,
    pub body: String,
}

pub struct LocalResponseView {
    pub status: u16,
    pub body: Seq<char>,
}

impl View for LocalResponse {
    type V = LocalResponseView;

    open spec fn view(&self) -> LocalResponseView {
        LocalResponseView { status: self.status, body: self.body@ }
    }
}

/// The body that reports an internal failure.
pub open spec fn error_envelope(cause: Seq<char>) -> Seq<char> {
    json_object("response_code"@, -1, "response_object"@, cause)
}

/// The response that the proxy writes for a decision by itself; `None` for
/// a decision that needs the upstream or the disk.
pub open spec fn local_response_for(d: DecisionView) -> Option<LocalResponseView> {
    match d {
        DecisionView::Forbidden => Some(LocalResponseView { status: 403, body: DENY_RESPONSE@ }),
        DecisionView::NotFound => Some(LocalResponseView { status: 404, body: NOT_FOUND@ }),
        DecisionView::Error(cause) => Some(
            LocalResponseView { status: 500, body: error_envelope(cause) },
        ),
        DecisionView::Forward(_, _) => None,
        DecisionView::ServeFile(_) => None,
    }
}

/// The response for an internal failure: status 500 and the failure
/// envelope around the cause.
pub fn error_response(cause: &GeneralError) -> (r: LocalResponse)
    ensures
        r@ == (LocalResponseView { status: 500, body: error_envelope(cause@) }),
{
    LocalResponse {
        status: 500,
        body: json_object_text("response_code", -1, "response_object", cause.0.as_str()),
    }
}

/// The response that the proxy writes for a decision by itself.
pub fn local_response(decision: &Decision) -> (r: Option<LocalResponse>)
    ensures
        match r {
            Some(resp) => local_response_for(decision@) == Some(resp@),
            None => local_response_for(decision@) is None,
        },
{
    match decision {
        Decision::Forbidden => Some(LocalResponse { status: 403, body: DENY_RESPONSE.to_owned() }),
        Decision::NotFound => Some(LocalResponse { status: 404, body: NOT_FOUND.to_owned() }),
        Decision::Error(cause) => Some(error_response(cause)),
        Decision::Forward(_, _) => None,
        Decision::ServeFile(_) => None,
    }
}

/// Whether a forwarding URI is to be requested over TLS: its scheme is
/// `https`.
pub fn uses_tls(uri: &str) -> (r: bool)
    ensures
        r == "https:"@.is_prefix_of(uri@),
{
    starts_with(uri, "https:")
}

/// The failure to report when the upstream could not be reached.
pub fn upstream_failure(error: &str, uri: &str) -> (r: GeneralError)
    ensures
        r@ == error@ + ",the dst endpoint is "@ + uri@,
{
    let mut cause = error.to_owned();
    cause.append(",the dst endpoint is ");
    cause.append(uri);
    GeneralError(cause)
}

/// One line of the access log: peer, elapsed milliseconds, status, method,
/// path and the headers as a JSON string, separated by `$$`.
pub open spec fn access_log_text(
    peer: Seq<char>,
    elapsed_ms: nat,
    status: u16,
    method: Seq<char>,
    path: Seq<char>,
    header_dump: Seq<char>,
) -> Seq<char> {
    peer + "$$"@ + decimal(elapsed_ms) + "$$"@ + decimal(status as nat) + "$$"@ + method + "$$"@
        + path + "$$"@ + json_string(header_dump)
}

/// Writes one line of the access log.
pub fn access_log_line(
    peer: &str,
    elapsed_ms: u128,
    status: u16,
    method: &str,
    path: &str,
    header_dump: &str,
) -> (r: String)
    ensures
        r@ == access_log_text(peer@, elapsed_ms as nat, status, method@, path@, header_dump@),
{
    let mut line = peer.to_owned();
    line.append("$$");
    append_decimal(&mut line, elapsed_ms);
    line.append("$$");
    append_decimal(&mut line, status as u128);
    line.append("$$");
    line.append(method);
    line.append("$$");
    line.append(path);
    line.append("$$");
    let dump = json_string_text(header_dump);
    line.append(dump.as_str());
    line
}

/// What a first look for a file gave.
#[derive(Clone, Copy, Debug, PartialEq, Eq, Structural)]
pub enum FileOutcome {
    /// A response other than "not found".
    Found,
    /// The file does not exist.
    Missing,
    /// The lookup itself failed.
    Failed,
}

/// What to do after the first look for a file.
#[derive(Debug, PartialEq, Eq)]
pub enum FileStep {
    /// Send the response of the first lookup.
    Respond,
    /// Look again, for the fallback file under this URI.
    Retry(String),
    /// Report the failure.
    Fail(GeneralError),
}

pub enum FileStepView {
    Respond,
    Retry(Seq<char>),
    Fail(Seq<char>),
}

impl View for FileStep {
    type V = FileStepView;

    open spec fn view(&self) -> FileStepView {
        match self {
            FileStep::Respond => FileStepView::Respond,
            FileStep::Retry(uri) => FileStepView::Retry(uri@),
            FileStep::Fail(cause) => FileStepView::Fail(cause@),
        }
    }
}

/// The cause reported when a file is missing and no fallback is set.
pub open spec fn missing_try_file_message() -> Seq<char> {
    "Please config the try_file!"@
}

/// The step after a first lookup with a known outcome: a found file is
/// sent; otherwise the fallback file is looked up, if one is configured and
/// its name is a URI, and the failure is reported if not.
pub open spec fn file_step_for(
    endpoint: BaseRouteView,
    outcome: FileOutcome,
    fallback_failure: Option<Seq<char>>,
) -> FileStepView {
    if outcome == FileOutcome::Found {
        FileStepView::Respond
    } else {
        match endpoint.try_file {
            None => FileStepView::Fail(missing_try_file_message()),
            Some(name) => match fallback_failure {
                Some(cause) => FileStepView::Fail(cause),
                None => FileStepView::Retry(name),
            },
        }
    }
}

/// Decides the step after a first lookup, given why the fallback name is
/// no URI, if it is not.
pub fn file_step(endpoint: &BaseRoute, outcome: FileOutcome, fallback_failure: Option<String>) -> (r:
    FileStep)
    ensures
        r@ == file_step_for(endpoint@, outcome, fallback_failure.deep_view()),
{
    match outcome {
        FileOutcome::Found => FileStep::Respond,
        _ => match &endpoint.try_file {
            None => FileStep::Fail(GeneralError("Please config the try_file!".to_owned())),
            Some(name) => match fallback_failure {
                Some(cause) => FileStep::Fail(GeneralError(cause)),
                None => FileStep::Retry(name.clone()),
            },
        },
    }
}

/// Decides what to do after the first look for a file under an endpoint's
/// directory.
pub fn route_file(endpoint: &BaseRoute, outcome: FileOutcome) -> (r: FileStep)
    ensures
        r@ == file_step_for(
            endpoint@,
            outcome,
            match endpoint@.try_file {
                Some(name) => uri_parse_failure(name),
                None => None,
            },
        ),
{
    let fallback_failure = match &endpoint.try_file {
        Some(name) => uri_parse_error(name.as_str()),
        None => None,
    };
    file_step(endpoint, outcome, fallback_failure)
}

} // verus!
