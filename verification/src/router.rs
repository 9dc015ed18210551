//! The module's route contributions and the shared router slot through which
//! every module hands them, exactly once at startup, to the router under
//! composition.

use vstd::prelude::*;

verus! {

/// The handlers this module serves.
#[derive(Debug, Clone, Copy, PartialEq, Eq)]
pub enum Handler {
    /// The liveness check.
    Health,
    /// The static configuration read.
    Config,
}

/// One route contributed to the composed router: a fixed path bound to one
/// of the module's handlers. Both routes answer the read verb only.
#[derive(Debug, Clone, PartialEq, Eq)]
pub struct Route {
    pub path: String,
    pub handler: Handler,
}

/// The mathematical value of a `Route`.
pub struct RouteV {
    pub path: Seq<char>,
    pub handler: Handler,
}

impl View for Route {
    type V = RouteV;

    open spec fn view(&self) -> RouteV {
        RouteV { path: self.path@, handler: self.handler }
    }
}

/// The route views of an executable route list.
pub open spec fn routes_view(routes: Seq<Route>) -> Seq<RouteV> {
    routes.map_values(|r: Route| r@)
}

/// The routes this module contributes: the liveness path and the
/// configuration path, in that order.
pub open spec fn spec_app_routes() -> Seq<RouteV> {
    seq![
        RouteV { path: "/_health"@, handler: Handler::Health },
        RouteV { path: "/api/config"@, handler: Handler::Config },
    ]
}

/// Build the module's sub-router: its two routes under their fixed paths.
pub fn app_routes() -> (r: Vec<Route>)
    ensures
        routes_view(r@) == spec_app_routes(),
{
    let mut r: Vec<Route> = Vec::new();
    r.push(Route { path: String::from_str("/_health"), handler: Handler::Health });
    r.push(Route { path: String::from_str("/api/config"), handler: Handler::Config });
    proof {
        assert(routes_view(r@) =~= spec_app_routes());
    }
    r
}

/// The shared, mutually-exclusive holder of the router under composition.
/// While a router is present, a starting module may append its routes to it;
/// once the host server has taken the router, the slot is empty for good and
/// later contributions are silently skipped.
#[derive(Debug)]
pub struct RouterSlot {
    inner: Option<Vec<Route>>,
}

impl RouterSlot {
    /// The router currently present, as the list of its route values.
    pub closed spec fn routes(self) -> Option<Seq<RouteV>> {
        match self.inner {
            Option::Some(v) => Option::Some(routes_view(v@)),
            Option::None => Option::None,
        }
    }

    /// A slot holding a router with the given routes, awaiting contributions.
    pub fn holding(routes: Vec<Route>) -> (s: RouterSlot)
        ensures
            s.routes() == Some(routes_view(routes@)),
    {
        RouterSlot { inner: Some(routes) }
    }

    /// A slot whose router the server has already taken.
    pub fn vacated() -> (s: RouterSlot)
        ensures
            s.routes() is None,
    {
        RouterSlot { inner: None }
    }

    /// Best-effort contribution: if a router is present, append `sub`'s
    /// routes after its own, in order, and report success; if the router has
    /// already been taken, change nothing and report the miss. Never fails.
    pub fn merge(&mut self, sub: Vec<Route>) -> (merged: bool)
        ensures
            merged == (old(self).routes() is Some),
            merged ==> final(self).routes() == Some(
                old(self).routes().unwrap() + routes_view(sub@),
            ),
            !merged ==> final(self).routes() is None,
    {
        match self.inner.take() {
            Some(mut v) => {
                let ghost held = v@;
                let mut sub = sub;
                let ghost added = sub@;
                v.append(&mut sub);
                proof {
                    assert(routes_view(held + added) =~= routes_view(held) + routes_view(added));
                }
                self.inner = Some(v);
                true
            },
            None => false,
        }
    }

    /// The server takes ownership of the composed router; the slot stays
    /// empty afterwards.
    pub fn take_router(&mut self) -> (r: Option<Vec<Route>>)
        ensures
            final(self).routes() is None,
            match r {
                Some(v) => old(self).routes() == Some(routes_view(v@)),
                None => old(self).routes() is None,
            },
    {
        self.inner.take()
    }
}

} // verus!
