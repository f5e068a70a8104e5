//! HTTP verbs and the per-form handler registration.

use vstd::prelude::*;

verus! {

/// An HTTP verb that a form can route.
#[derive(Clone, Copy, Debug, PartialEq, Eq, Structural)]
pub enum Verb {
    Get,
    Put,
    Post,
    Patch,
    Delete,
}

/// What a request is dispatched to: a handler of the application, named by
/// its identifier, or the serialized Thing Description.
#[derive(Clone, Copy, Debug, PartialEq, Eq, Structural)]
pub enum Endpoint {
    Handler(u64),
    Description,
}

/// The handlers of one path, at most one for each verb.
#[derive(Clone, Copy, Debug, PartialEq, Eq, Structural)]
pub struct MethodRouter {
    pub get: Option<Endpoint>,
    pub put: Option<Endpoint>,
    pub post: Option<Endpoint>,
    pub patch: Option<Endpoint>,
    pub delete: Option<Endpoint>,
}

impl MethodRouter {
    /// The endpoint registered for `v`, if any.
    pub open spec fn handler(self, v: Verb) -> Option<Endpoint> {
        match v {
            Verb::Get => self.get,
            Verb::Put => self.put,
            Verb::Post => self.post,
            Verb::Patch => self.patch,
            Verb::Delete => self.delete,
        }
    }

    /// This router with `v` routed to `e`.
    pub open spec fn with(self, v: Verb, e: Endpoint) -> MethodRouter {
        match v {
            Verb::Get => MethodRouter { get: Some(e), ..self },
            Verb::Put => MethodRouter { put: Some(e), ..self },
            Verb::Post => MethodRouter { post: Some(e), ..self },
            Verb::Patch => MethodRouter { patch: Some(e), ..self },
            Verb::Delete => MethodRouter { delete: Some(e), ..self },
        }
    }

    /// No verb is routed.
    pub open spec fn is_empty(self) -> bool {
        forall|v: Verb| #[trigger] self.handler(v).is_none()
    }

    pub fn new() -> (r: MethodRouter)
        ensures
            r.is_empty(),
    {
        MethodRouter { get: None, put: None, post: None, patch: None, delete: None }
    }

    /// Routes `v` to `e`, replacing what `v` was routed to before; the other
    /// verbs keep their endpoints.
    pub fn on(self, v: Verb, e: Endpoint) -> (r: MethodRouter)
        ensures
            r == self.with(v, e),
            r.handler(v) == Some(e),
            forall|w: Verb| w != v ==> #[trigger] r.handler(w) == self.handler(w),
    {
        let mut r = self;
        match v {
            Verb::Get => r.get = Some(e),
            Verb::Put => r.put = Some(e),
            Verb::Post => r.post = Some(e),
            Verb::Patch => r.patch = Some(e),
            Verb::Delete => r.delete = Some(e),
        }
        r
    }

    /// The endpoint registered for `v`, if any.
    pub fn handler_of(&self, v: Verb) -> (r: Option<Endpoint>)
        ensures
            r == self.handler(v),
    {
        match v {
            Verb::Get => self.get,
            Verb::Put => self.put,
            Verb::Post => self.post,
            Verb::Patch => self.patch,
            Verb::Delete => self.delete,
        }
    }
}

/// Routing two distinct verbs keeps both; routing one verb twice keeps the
/// second endpoint only.
pub proof fn lemma_verb_isolation(m: MethodRouter, v: Verb, w: Verb, a: Endpoint, b: Endpoint)
    ensures
        v != w ==> m.with(v, a).with(w, b).handler(v) == Some(a),
        v != w ==> m.with(v, a).with(w, b).handler(w) == Some(b),
        m.with(v, a).with(v, b).handler(v) == Some(b),
        m.with(v, a).with(v, b) == m.with(v, b),
{
}

/// The routing data that each form of a Thing carries: the handlers that the
/// form's href dispatches to.
#[derive(Clone, Copy, Debug, PartialEq, Eq, Structural)]
pub struct Form {
    pub method_router: MethodRouter,
}

impl Default for Form {
    fn default() -> (r: Form)
        ensures
            r.method_router.is_empty(),
    {
        Form { method_router: MethodRouter::new() }
    }
}

impl From<MethodRouter> for Form {
    fn from(method_router: MethodRouter) -> (r: Form)
        ensures
            r.method_router == method_router,
    {
        Form { method_router }
    }
}

impl vstd::std_specs::convert::FromSpecImpl<MethodRouter> for Form {
    open spec fn obeys_from_spec() -> bool {
        true
    }

    open spec fn from_spec(method_router: MethodRouter) -> Form {
        Form { method_router }
    }
}

} // verus!
