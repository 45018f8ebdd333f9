//! The routes of the service.

use vstd::prelude::*;
use crate::probe::Endpoint;

verus! {

/// One route: its method, the pattern of its path below the mount point,
/// the endpoint that answers it, and the deadline of a probe made for it.
#[derive(Debug, Clone, Copy, PartialEq, Eq)]
pub struct Route {
    pub method: &'static str,
    pub pattern: &'static str,
    pub endpoint: Endpoint,
    pub deadline_secs: u64,
}

/// The routes the service mounts at its root, as their methods, patterns,
/// endpoints and deadlines.
pub open spec fn launch_table() -> Seq<(Seq<char>, Seq<char>, Endpoint, u64)> {
    seq![
        ("GET"@, "/<address>"@, Endpoint::Text, Endpoint::Text.deadline()),
        ("GET"@, "/<address>/json"@, Endpoint::Json, Endpoint::Json.deadline()),
    ]
}

/// The contents of a list of routes.
pub open spec fn route_views(routes: Seq<Route>) -> Seq<(Seq<char>, Seq<char>, Endpoint, u64)> {
    routes.map_values(
        |route: Route| (route.method@, route.pattern@, route.endpoint, route.deadline_secs),
    )
}

/// What the service launches with: its two routes, the plain-text one
/// first.
pub fn rocket() -> (routes: Vec<Route>)
    ensures
        route_views(routes@) == launch_table(),
{
    let mut routes: Vec<Route> = Vec::new();
    routes.push(
        Route {
            method: "GET",
            pattern: "/<address>",
            endpoint: Endpoint::Text,
            deadline_secs: Endpoint::Text.deadline_secs(),
        },
    );
    routes.push(
        Route {
            method: "GET",
            pattern: "/<address>/json",
            endpoint: Endpoint::Json,
            deadline_secs: Endpoint::Json.deadline_secs(),
        },
    );
    assert(route_views(routes@) =~= launch_table());
    routes
}

} // verus!
