//! The routing table that a servient answers requests with.

use vstd::prelude::*;

use crate::method::{Endpoint, MethodRouter, Verb};

verus! {

/// One registration of a path.
///
/// An open registration adds its verbs to the path's earlier ones; a closed
/// registration answers for the path alone, so that nothing registered at
/// that path before it is reachable any more.
pub struct Route {
    pub path: String,
    pub methods: MethodRouter,
    pub closed: bool,
}

/// Where `v` at `path` is dispatched, given the registrations `rs` in the
/// order in which they were made: the latest registration of `path` that
/// routes `v`, unless a later closed registration of `path` stands before it.
pub open spec fn dispatch_in(rs: Seq<Route>, path: Seq<char>, v: Verb) -> Option<Endpoint>
    decreases rs.len(),
{
    if rs.len() == 0 {
        None
    } else {
        let r = rs.last();
        if r.path@ == path && (r.methods.handler(v).is_some() || r.closed) {
            r.methods.handler(v)
        } else {
            dispatch_in(rs.drop_last(), path, v)
        }
    }
}

/// A routing table: the registrations made, in order.
pub struct Router {
    pub routes: Vec<Route>,
}

impl Router {
    /// Where `v` at `path` is dispatched.
    pub open spec fn dispatch(self, path: Seq<char>, v: Verb) -> Option<Endpoint> {
        dispatch_in(self.routes@, path, v)
    }

    pub fn new() -> (r: Router)
        ensures
            r.routes@.len() == 0,
            forall|p: Seq<char>, v: Verb| #[trigger] r.dispatch(p, v).is_none(),
    {
        Router { routes: Vec::new() }
    }

    /// The number of registrations made.
    pub fn len(&self) -> (n: usize)
        ensures
            n == self.routes@.len(),
    {
        self.routes.len()
    }

    /// Registers `methods` at `path`: the verbs it routes now go to its
    /// endpoints there, the others keep where they went.
    pub fn route(self, path: &str, methods: MethodRouter) -> (r: Router)
        ensures
            r.routes@.len() == self.routes@.len() + 1,
            r.routes@.drop_last() == self.routes@,
            r.routes@.last().path@ == path@,
            r.routes@.last().methods == methods,
            r.routes@.last().closed == false,
            forall|v: Verb| #[trigger] r.dispatch(path@, v) == match methods.handler(v) {
                Some(e) => Some(e),
                None => self.dispatch(path@, v),
            },
            forall|p: Seq<char>, v: Verb| p != path@ ==> #[trigger] r.dispatch(p, v) == self.dispatch(p, v),
    {
        let mut routes = self.routes;
        let ghost old_routes = routes@;
        routes.push(Route { path: path.to_owned(), methods, closed: false });
        proof {
            assert(routes@.drop_last() == old_routes);
        }
        Router { routes }
    }

    /// Registers `methods` at `path` alone: there only the verbs it routes are
    /// dispatched, to its endpoints.
    pub fn route_exclusive(self, path: &str, methods: MethodRouter) -> (r: Router)
        ensures
            r.routes@.len() == self.routes@.len() + 1,
            r.routes@.drop_last() == self.routes@,
            r.routes@.last().path@ == path@,
            r.routes@.last().methods == methods,
            r.routes@.last().closed == true,
            forall|v: Verb| #[trigger] r.dispatch(path@, v) == methods.handler(v),
            forall|p: Seq<char>, v: Verb| p != path@ ==> #[trigger] r.dispatch(p, v) == self.dispatch(p, v),
    {
        let mut routes = self.routes;
        let ghost old_routes = routes@;
        routes.push(Route { path: path.to_owned(), methods, closed: true });
        proof {
            assert(routes@.drop_last() == old_routes);
        }
        Router { routes }
    }

    /// Where a request with verb `v` at `path` is dispatched.
    pub fn dispatch_request(&self, path: &str, v: Verb) -> (r: Option<Endpoint>)
        ensures
            r == self.dispatch(path@, v),
    {
        let p = path.to_owned();
        let mut i: usize = self.routes.len();
        proof {
            assert(self.routes@.subrange(0, i as int) == self.routes@);
        }
        while i > 0
            invariant
                i <= self.routes@.len(),
                p@ == path@,
                dispatch_in(self.routes@, path@, v) == dispatch_in(self.routes@.subrange(0, i as int), path@, v),
            decreases i,
        {
            let r = &self.routes[i - 1];
            let h = r.methods.handler_of(v);
            proof {
                let s = self.routes@.subrange(0, i as int);
                assert(s.drop_last() == self.routes@.subrange(0, i - 1));
            }
            if r.path == p && (h.is_some() || r.closed) {
                return h;
            }
            i = i - 1;
        }
        None
    }
}

} // verus!
