//! Upstream endpoints and the load balancers that choose among them.

use vstd::prelude::*;
use crate::http_proxy::GeneralError;
use crate::text::{chars_of, eq_ignore_ascii_case, eq_ignoring_ascii_case};

verus! {

/// One backend: an upstream URL, or a directory on disk with an optional
/// fallback file that is served when the requested file does not exist.
#[derive(Debug, PartialEq, Eq)]
pub struct BaseRoute {
    pub endpoint: String,
    pub try_file: Option<String>,
}

pub struct BaseRouteView {
    pub endpoint: Seq<char>,
    pub try_file: Option<Seq<char>>,
}

impl DeepView for BaseRoute {
    type V = BaseRouteView;

    open spec fn deep_view(&self) -> BaseRouteView {
        BaseRouteView { endpoint: self.endpoint@, try_file: self.try_file.deep_view() }
    }
}

impl View for BaseRoute {
    type V = BaseRouteView;

    open spec fn view(&self) -> BaseRouteView {
        self.deep_view()
    }
}

/// A copy of an optional string.
pub fn clone_opt_string(s: &Option<String>) -> (r: Option<String>)
    ensures
        r.deep_view() == s.deep_view(),
{
    match s {
        Some(t) => Some(t.clone()),
        None => None,
    }
}

impl Clone for BaseRoute {
    fn clone(&self) -> (r: Self)
        ensures
            r@ == self@,
    {
        BaseRoute { endpoint: self.endpoint.clone(), try_file: clone_opt_string(&self.try_file) }
    }
}

/// One request header. Names are compared without regard to ASCII case.
#[derive(Debug, PartialEq, Eq)]
pub struct Header {
    pub name: String,
    pub value: String,
}

pub struct HeaderView {
    pub name: Seq<char>,
    pub value: Seq<char>,
}

impl DeepView for Header {
    type V = HeaderView;

    open spec fn deep_view(&self) -> HeaderView {
        HeaderView { name: self.name@, value: self.value@ }
    }
}

impl View for Header {
    type V = HeaderView;

    open spec fn view(&self) -> HeaderView {
        self.deep_view()
    }
}

impl Clone for Header {
    fn clone(&self) -> (r: Self)
        ensures
            r@ == self@,
    {
        Header { name: self.name.clone(), value: self.value.clone() }
    }
}

/// The value of the first header called `name`, if there is one.
pub open spec fn header_value(headers: Seq<HeaderView>, name: Seq<char>) -> Option<Seq<char>>
    decreases headers.len(),
{
    if headers.len() == 0 {
        None
    } else if eq_ignoring_ascii_case(headers[0].name, name) {
        Some(headers[0].value)
    } else {
        header_value(headers.drop_first(), name)
    }
}

/// Looks up the first header called `name`.
pub fn find_header(headers: &Vec<Header>, name: &str) -> (r: Option<String>)
    ensures
        r.deep_view() == header_value(headers.deep_view(), name@),
{
    let mut i: usize = 0;
    assert(headers.deep_view().skip(0) =~= headers.deep_view());
    while i < headers.len()
        invariant
            i <= headers.len(),
            header_value(headers.deep_view(), name@) == header_value(
                headers.deep_view().skip(i as int),
                name@,
            ),
        decreases headers.len() - i,
    {
        let ghost rest = headers.deep_view().skip(i as int);
        assert(rest.drop_first() =~= headers.deep_view().skip(i + 1));
        if eq_ignore_ascii_case(headers[i].name.as_str(), name) {
            return Some(headers[i].value.clone());
        }
        i += 1;
    }
    None
}

/// An endpoint together with its share of the traffic.
#[derive(Debug, PartialEq, Eq)]
pub struct WeightedRoute {
    pub base_route: BaseRoute,
    pub weight: u32,
}

pub struct WeightedRouteView {
    pub base_route: BaseRouteView,
    pub weight: nat,
}

impl DeepView for WeightedRoute {
    type V = WeightedRouteView;

    open spec fn deep_view(&self) -> WeightedRouteView {
        WeightedRouteView { base_route: self.base_route@, weight: self.weight as nat }
    }
}

impl View for WeightedRoute {
    type V = WeightedRouteView;

    open spec fn view(&self) -> WeightedRouteView {
        self.deep_view()
    }
}

impl Clone for WeightedRoute {
    fn clone(&self) -> (r: Self)
        ensures
            r@ == self@,
    {
        WeightedRoute { base_route: self.base_route.clone(), weight: self.weight }
    }
}

/// A copy of a list of endpoints.
pub fn clone_base_routes(routes: &Vec<BaseRoute>) -> (r: Vec<BaseRoute>)
    ensures
        r.deep_view() == routes.deep_view(),
{
    let mut out: Vec<BaseRoute> = Vec::new();
    let mut i: usize = 0;
    while i < routes.len()
        invariant
            i <= routes.len(),
            out.len() == i,
            forall|j: int| 0 <= j < i ==> out[j]@ == routes[j]@,
        decreases routes.len() - i,
    {
        out.push(routes[i].clone());
        i += 1;
    }
    out
}

/// A copy of a list of weighted endpoints.
pub fn clone_weighted_routes(routes: &Vec<WeightedRoute>) -> (r: Vec<WeightedRoute>)
    ensures
        r.deep_view() == routes.deep_view(),
{
    let mut out: Vec<WeightedRoute> = Vec::new();
    let mut i: usize = 0;
    while i < routes.len()
        invariant
            i <= routes.len(),
            out.len() == i,
            forall|j: int| 0 <= j < i ==> out[j]@ == routes[j]@,
        decreases routes.len() - i,
    {
        out.push(routes[i].clone());
        i += 1;
    }
    out
}

/// The numbers a listener supplies with each pick: `random` is freshly drawn,
/// `turn` counts the picks the listener has made before this one.
#[derive(Clone, Copy, Debug, PartialEq, Eq)]
pub struct Draw {
    pub random: u64,
    pub turn: u64,
}

/// A cluster of endpoints with the strategy that chooses one per request.
#[allow(inconsistent_fields)]
#[derive(Debug, PartialEq, Eq)]
pub enum LoadBalancer {
    /// Each pick takes the endpoint that the random draw lands on.
    Random { routes: Vec<BaseRoute> },
    /// Picks walk through the endpoints in order, one per turn.
    RoundRobin { routes: Vec<BaseRoute> },
    /// Each endpoint is picked in proportion to its weight.
    Weighted { routes: Vec<WeightedRoute> },
    /// Requests with the same value of one header reach the same endpoint.
    HeaderHash { header_name: String, routes: Vec<BaseRoute> },
}

#[allow(inconsistent_fields)]
pub enum LoadBalancerView {
    Random { routes: Seq<BaseRouteView> },
    RoundRobin { routes: Seq<BaseRouteView> },
    Weighted { routes: Seq<WeightedRouteView> },
    HeaderHash { header_name: Seq<char>, routes: Seq<BaseRouteView> },
}

impl DeepView for LoadBalancer {
    type V = LoadBalancerView;

    open spec fn deep_view(&self) -> LoadBalancerView {
        match self {
            LoadBalancer::Random { routes } => LoadBalancerView::Random {
                routes: routes.deep_view(),
            },
            LoadBalancer::RoundRobin { routes } => LoadBalancerView::RoundRobin {
                routes: routes.deep_view(),
            },
            LoadBalancer::Weighted { routes } => LoadBalancerView::Weighted {
                routes: routes.deep_view(),
            },
            LoadBalancer::HeaderHash { header_name, routes } => LoadBalancerView::HeaderHash {
                header_name: header_name@,
                routes: routes.deep_view(),
            },
        }
    }
}

impl View for LoadBalancer {
    type V = LoadBalancerView;

    open spec fn view(&self) -> LoadBalancerView {
        self.deep_view()
    }
}

impl Clone for LoadBalancer {
    fn clone(&self) -> (r: Self)
        ensures
            r@ == self@,
    {
        match self {
            LoadBalancer::Random { routes } => LoadBalancer::Random {
                routes: clone_base_routes(routes),
            },
            LoadBalancer::RoundRobin { routes } => LoadBalancer::RoundRobin {
                routes: clone_base_routes(routes),
            },
            LoadBalancer::Weighted { routes } => LoadBalancer::Weighted {
                routes: clone_weighted_routes(routes),
            },
            LoadBalancer::HeaderHash { header_name, routes } => LoadBalancer::HeaderHash {
                header_name: header_name.clone(),
                routes: clone_base_routes(routes),
            },
        }
    }
}

/// The endpoints of a cluster, in declaration order.
pub open spec fn endpoints_of(lb: LoadBalancerView) -> Seq<BaseRouteView> {
    match lb {
        LoadBalancerView::Random { routes } => routes,
        LoadBalancerView::RoundRobin { routes } => routes,
        LoadBalancerView::Weighted { routes } => Seq::new(
            routes.len(),
            |i: int| routes[i].base_route,
        ),
        LoadBalancerView::HeaderHash { header_name, routes } => routes,
    }
}

/// The sum of the weights of the given endpoints.
pub open spec fn total_weight(routes: Seq<WeightedRouteView>) -> nat
    decreases routes.len(),
{
    if routes.len() == 0 {
        0
    } else {
        routes[0].weight + total_weight(routes.drop_first())
    }
}

/// The endpoint whose span of the weight line holds `point`, the spans being
/// laid out in declaration order, each as long as its endpoint's weight.
pub open spec fn weighted_index(routes: Seq<WeightedRouteView>, point: nat) -> int
    decreases routes.len(),
{
    if routes.len() == 0 {
        0
    } else if point < routes[0].weight {
        0
    } else {
        1 + weighted_index(routes.drop_first(), (point - routes[0].weight) as nat)
    }
}

/// A 64-bit polynomial hash of a text.
pub open spec fn text_hash(s: Seq<char>) -> nat
    decreases s.len(),
{
    if s.len() == 0 {
        0
    } else {
        (text_hash(s.drop_last()) * 31 + (s.last() as u32 as nat)) % 0x1_0000_0000_0000_0000
    }
}

/// The position of the endpoint that a cluster picks, or `None` for a
/// cluster without endpoints.
pub open spec fn pick_index(lb: LoadBalancerView, headers: Seq<HeaderView>, draw: Draw) -> Option<
    int,
> {
    if endpoints_of(lb).len() == 0 {
        None
    } else {
        match lb {
            LoadBalancerView::Random { routes } => Some(draw.random as int % routes.len() as int),
            LoadBalancerView::RoundRobin { routes } => Some(
                draw.turn as int % routes.len() as int,
            ),
            LoadBalancerView::Weighted { routes } => {
                let total = total_weight(routes);
                if total == 0 {
                    Some(draw.random as int % routes.len() as int)
                } else {
                    Some(weighted_index(routes, (draw.random as int % total as int) as nat))
                }
            },
            LoadBalancerView::HeaderHash { header_name, routes } => {
                let value = match header_value(headers, header_name) {
                    Some(v) => v,
                    None => Seq::<char>::empty(),
                };
                Some(text_hash(value) as int % routes.len() as int)
            },
        }
    }
}

/// The endpoint that a cluster picks.
pub open spec fn pick(lb: LoadBalancerView, headers: Seq<HeaderView>, draw: Draw) -> Option<
    BaseRouteView,
> {
    match pick_index(lb, headers, draw) {
        Some(i) => Some(endpoints_of(lb)[i]),
        None => None,
    }
}

/// The cause reported for a cluster without endpoints.
pub open spec fn empty_cluster_message() -> Seq<char> {
    "The cluster has no endpoint!"@
}

/// A point below the total weight falls into the span of some endpoint.
pub proof fn lemma_weighted_index_in_range(routes: Seq<WeightedRouteView>, point: nat)
    requires
        point < total_weight(routes),
    ensures
        0 <= weighted_index(routes, point) < routes.len(),
    decreases routes.len(),
{
    if routes.len() > 0 && point >= routes[0].weight {
        lemma_weighted_index_in_range(routes.drop_first(), (point - routes[0].weight) as nat);
    }
}

/// Every cluster with at least one endpoint picks one of its own endpoints,
/// whatever the headers and the draw; a cluster without endpoints picks none.
pub proof fn lemma_pick_total(lb: LoadBalancerView, headers: Seq<HeaderView>, draw: Draw)
    ensures
        pick(lb, headers, draw) is Some <==> endpoints_of(lb).len() > 0,
        pick_index(lb, headers, draw) matches Some(i) ==> 0 <= i < endpoints_of(lb).len()
            && pick(lb, headers, draw) == Some(endpoints_of(lb)[i]),
{
    if endpoints_of(lb).len() > 0 {
        match lb {
            LoadBalancerView::Weighted { routes } => {
                let total = total_weight(routes);
                if total > 0 {
                    lemma_weighted_index_in_range(
                        routes,
                        (draw.random as int % total as int) as nat,
                    );
                }
            },
            _ => {},
        }
    }
}

/// Computes the hash of a text.
pub fn hash_text(s: &str) -> (r: u64)
    ensures
        r as nat == text_hash(s@),
{
    let chars = chars_of(s);
    let mut h: u64 = 0;
    let mut i: usize = 0;
    while i < chars.len()
        invariant
            i <= chars.len(),
            h as nat == text_hash(chars@.take(i as int)),
        decreases chars.len() - i,
    {
        let c: char = chars[i];
        proof {
            let next = chars@.take(i + 1);
            assert(next.drop_last() =~= chars@.take(i as int));
        }
        let wide: u128 = (h as u128) * 31 + (c as u32 as u128);
        h = (wide % 0x1_0000_0000_0000_0000u128) as u64;
        i += 1;
    }
    assert(chars@.take(i as int) =~= chars@);
    h
}

/// Computes the sum of the weights.
pub fn sum_weights(routes: &Vec<WeightedRoute>) -> (r: u128)
    ensures
        r as nat == total_weight(routes.deep_view()),
{
    let ghost all = routes.deep_view();
    let mut acc: u128 = 0;
    let mut i: usize = routes.len();
    while i > 0
        invariant
            i <= routes.len(),
            all == routes.deep_view(),
            acc as nat == total_weight(all.skip(i as int)),
            acc <= (routes.len() - i) * 0x1_0000_0000,
        decreases i,
    {
        i -= 1;
        proof {
            let tail = all.skip(i as int);
            assert(tail.drop_first() =~= all.skip(i + 1));
            assert((routes.len() - i) * 0x1_0000_0000 <= 0x1_0000_0000_0000_0000 * 0x1_0000_0000)
                by (nonlinear_arith)
                requires
                    0 <= routes.len() - i <= 0x1_0000_0000_0000_0000,
            ;
            assert((routes.len() - (i + 1)) * 0x1_0000_0000 + 0x1_0000_0000 == (routes.len() - i)
                * 0x1_0000_0000) by (nonlinear_arith);
        }
        acc = acc + (routes[i].weight as u128);
    }
    assert(all.skip(0) =~= all);
    acc
}

/// Finds the endpoint whose span holds `point`.
pub fn find_weighted(routes: &Vec<WeightedRoute>, point: u128) -> (r: usize)
    requires
        point < total_weight(routes.deep_view()),
    ensures
        r as int == weighted_index(routes.deep_view(), point as nat),
        r < routes.len(),
{
    let ghost all = routes.deep_view();
    let mut rest: u128 = point;
    let mut i: usize = 0;
    assert(all.skip(0) =~= all);
    while i < routes.len()
        invariant
            i <= routes.len(),
            all == routes.deep_view(),
            rest < total_weight(all.skip(i as int)),
            weighted_index(all, point as nat) == i + weighted_index(
                all.skip(i as int),
                rest as nat,
            ),
        decreases routes.len() - i,
    {
        let ghost tail = all.skip(i as int);
        assert(tail.drop_first() =~= all.skip(i + 1));
        let w: u128 = routes[i].weight as u128;
        if rest < w {
            return i;
        }
        rest = rest - w;
        i += 1;
    }
    0
}

impl LoadBalancer {
    /// Chooses the endpoint for one request.
    ///
    /// Succeeds exactly when the cluster has an endpoint, and then returns
    /// the endpoint that `pick` names for these headers and this draw.
    pub fn get_route(&self, headers: &Vec<Header>, draw: Draw) -> (r: Result<
        BaseRoute,
        GeneralError,
    >)
        ensures
            match pick(self@, headers.deep_view(), draw) {
                Some(e) => r is Ok && r->Ok_0@ == e,
                None => r is Err && r->Err_0@ == empty_cluster_message(),
            },
    {
        proof {
            lemma_pick_total(self@, headers.deep_view(), draw);
        }
        match self {
            LoadBalancer::Random { routes } => {
                if routes.len() == 0 {
                    return Err(GeneralError("The cluster has no endpoint!".to_owned()));
                }
                let i: usize = (draw.random % (routes.len() as u64)) as usize;
                Ok(routes[i].clone())
            },
            LoadBalancer::RoundRobin { routes } => {
                if routes.len() == 0 {
                    return Err(GeneralError("The cluster has no endpoint!".to_owned()));
                }
                let i: usize = (draw.turn % (routes.len() as u64)) as usize;
                Ok(routes[i].clone())
            },
            LoadBalancer::Weighted { routes } => {
                if routes.len() == 0 {
                    return Err(GeneralError("The cluster has no endpoint!".to_owned()));
                }
                let total: u128 = sum_weights(routes);
                let i: usize = if total == 0 {
                    (draw.random % (routes.len() as u64)) as usize
                } else {
                    find_weighted(routes, (draw.random as u128) % total)
                };
                Ok(routes[i].base_route.clone())
            },
            LoadBalancer::HeaderHash { header_name, routes } => {
                if routes.len() == 0 {
                    return Err(GeneralError("The cluster has no endpoint!".to_owned()));
                }
                let h: u64 = match find_header(headers, header_name.as_str()) {
                    Some(v) => hash_text(v.as_str()),
                    None => {
                        0
                    },
                };
                let i: usize = (h % (routes.len() as u64)) as usize;
                Ok(routes[i].clone())
            },
        }
    }
}

} // verus!
