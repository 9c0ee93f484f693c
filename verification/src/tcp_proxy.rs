//! The decision a TCP listener makes for each accepted connection.

use vstd::prelude::*;
use crate::allow_deny_ip::admits;
use crate::app_config::{Route, RouteView};
use crate::http_proxy::GeneralError;
use crate::route::{empty_cluster_message, pick, BaseRoute, BaseRouteView, Draw, Header, HeaderView};

verus! {

/// What a TCP listener does with an accepted connection.
#[derive(Debug, PartialEq, Eq)]
pub enum TcpDecision {
    /// Copy bytes between the peer and this endpoint.
    Relay(BaseRoute),
    /// Close the connection: the peer is not admitted.
    Refuse,
    /// The configuration cannot serve the connection.
    Error(GeneralError),
}

pub enum TcpDecisionView {
    Relay(BaseRouteView),
    Refuse,
    Error(Seq<char>),
}

impl View for TcpDecision {
    type V = TcpDecisionView;

    open spec fn view(&self) -> TcpDecisionView {
        match self {
            TcpDecision::Relay(e) => TcpDecisionView::Relay(e@),
            TcpDecision::Refuse => TcpDecisionView::Refuse,
            TcpDecision::Error(c) => TcpDecisionView::Error(c@),
        }
    }
}

/// The cause reported for a TCP service without routes.
pub open spec fn no_route_message() -> Seq<char> {
    "The tcp service has no route!"@
}

/// What becomes of a connection: only the first route of the service
/// counts; its access rules judge the peer, and its cluster picks the
/// endpoint, seeing no headers.
pub open spec fn tcp_dispatched(routes: Seq<RouteView>, peer_ip: Seq<char>, draw: Draw) -> TcpDecisionView {
    if routes.len() == 0 {
        TcpDecisionView::Error(no_route_message())
    } else if !admits(routes[0].allow_deny_list, peer_ip) {
        TcpDecisionView::Refuse
    } else {
        match pick(routes[0].route_cluster, Seq::<HeaderView>::empty(), draw) {
            Some(endpoint) => TcpDecisionView::Relay(endpoint),
            None => TcpDecisionView::Error(empty_cluster_message()),
        }
    }
}

/// Decides what to do with a connection accepted from `peer_ip`.
pub fn tcp_dispatch(routes: &Vec<Route>, peer_ip: &str, draw: Draw) -> (d: TcpDecision)
    ensures
        d@ == tcp_dispatched(routes.deep_view(), peer_ip@, draw),
{
    if routes.len() == 0 {
        return TcpDecision::Error(GeneralError("The tcp service has no route!".to_owned()));
    }
    let route = &routes[0];
    if !route.is_allowed(peer_ip) {
        return TcpDecision::Refuse;
    }
    let no_headers: Vec<Header> = Vec::new();
    match route.route_cluster.get_route(&no_headers, draw) {
        Ok(endpoint) => TcpDecision::Relay(endpoint),
        Err(cause) => TcpDecision::Error(cause),
    }
}

} // verus!
