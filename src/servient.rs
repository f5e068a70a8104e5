//! Building a servient: the routing table that a Thing's forms declare, the
//! discovery route, the instance name and the resolved settings.

use vstd::prelude::*;

use crate::method::{Endpoint, MethodRouter, Verb};
use crate::name::{first_word, fresh_token, instance_name, is_lower_hex, lower_of};
use crate::router::Router;
use crate::thing::{
    affordance_forms, affordances_of, default_address, forms_of, Affordance, SocketAddress, Thing,
    ThingBuilder, ThingForm, ThingType,
};

verus! {

/// The well-known path at which the Thing Description is served.
pub const WELL_KNOWN_PATH: &'static str = "/.well-known/wot";

/// The characters of the well-known discovery path.
pub open spec fn well_known_path() -> Seq<char> {
    seq!['/', '.', 'w', 'e', 'l', 'l', '-', 'k', 'n', 'o', 'w', 'n', '/', 'w', 'o', 't']
}

/// Where the forms `fs`, registered in order, dispatch `v` at `path`: to the
/// handler of the latest form at `path` that routes `v`.
pub open spec fn form_dispatch(fs: Seq<ThingForm>, path: Seq<char>, v: Verb) -> Option<Endpoint>
    decreases fs.len(),
{
    if fs.len() == 0 {
        None
    } else {
        let f = fs.last();
        if f.href@ == path && f.other.method_router.handler(v).is_some() {
            f.other.method_router.handler(v)
        } else {
            form_dispatch(fs.drop_last(), path, v)
        }
    }
}

/// The address to listen on: the one given, else `0.0.0.0:8080`.
pub open spec fn resolved_address(addr: Option<SocketAddress>) -> SocketAddress {
    match addr {
        Some(a) => a,
        None => default_address(),
    }
}

/// A Thing served over HTTP.
pub struct Servient {
    /// The instance name advertised on the network.
    pub name: String,
    pub thing: Thing,
    pub router: Router,
    /// The serialized Thing Description, served at the well-known path.
    pub document: String,
    pub http_addr: SocketAddress,
    pub thing_type: ThingType,
}

impl Servient {
    /// A builder of the description of a Thing titled `title`.
    pub fn builder(title: &str) -> (r: ThingBuilder)
        ensures
            r.thing.title@ == title@,
            r.thing.forms.is_none(),
            r.thing.properties.is_none(),
            r.thing.actions.is_none(),
            r.thing.events.is_none(),
            r.thing.other.addr.is_none(),
            r.thing.other.thing_type == ThingType::Thing,
    {
        ThingBuilder::new(title)
    }

    /// This servient is what building `thing`, serialized as `document`,
    /// gives, whatever its instance name.
    pub open spec fn built_from(self, thing: Thing, document: Seq<char>) -> bool {
        &&& self.thing == thing
        &&& self.document@ == document
        &&& self.router.routes@.len() == thing.all_forms().len() + 1
        &&& forall|p: Seq<char>, v: Verb|
            p != well_known_path() ==> #[trigger] self.router.dispatch(p, v) == form_dispatch(
                thing.all_forms(),
                p,
                v,
            )
        &&& forall|v: Verb| #[trigger]
            self.router.dispatch(well_known_path(), v) == if v == Verb::Get {
                Some(Endpoint::Description)
            } else {
                None
            }
        &&& self.http_addr == resolved_address(thing.other.addr)
        &&& self.thing_type == thing.other.thing_type
    }

    /// Builds the servient of `thing`, serialized as `document`, under the
    /// instance name made of `thing`'s title and `token`.
    pub fn assemble(thing: Thing, document: String, token: &str) -> (r: Servient)
        ensures
            r.built_from(thing, document@),
            r.name@ == lower_of(first_word(thing.title@)) + token@,
    {
        let router = route_thing(&thing);
        let description = MethodRouter::new().on(Verb::Get, Endpoint::Description);
        proof {
            reveal_strlit("/.well-known/wot");
            assert(WELL_KNOWN_PATH@ == well_known_path());
        }
        let router = router.route_exclusive(WELL_KNOWN_PATH, description);
        let name = instance_name(thing.title.as_str(), token);
        let http_addr = match thing.other.addr {
            Some(a) => a,
            None => SocketAddress::V4(0, 8080),
        };
        let thing_type = thing.other.thing_type;
        Servient { name, thing, router, document, http_addr, thing_type }
    }
}

impl Thing {
    /// Builds the servient of this Thing, serialized as `document`, under a
    /// fresh instance name: the first word of the title in lower case, then
    /// 32 random lower-case hexadecimal digits.
    pub fn build_servient(self, document: String) -> (r: Servient)
        ensures
            r.built_from(self, document@),
            exists|token: Seq<char>|
                {
                    &&& #[trigger] token.len() == 32
                    &&& forall|i: int| 0 <= i < 32 ==> is_lower_hex(#[trigger] token[i])
                    &&& r.name@ == lower_of(first_word(self.title@)) + token
                },
    {
        let token = fresh_token();
        Servient::assemble(self, document, token.as_str())
    }
}

/// A built servient holds one registration per declared form and one more,
/// and its well-known path answers GET with the serialized description.
pub proof fn lemma_discovery_route(s: Servient, thing: Thing, document: Seq<char>)
    requires
        s.built_from(thing, document),
    ensures
        s.router.routes@.len() == thing.all_forms().len() + 1,
        s.router.dispatch(well_known_path(), Verb::Get) == Some(Endpoint::Description),
        s.document@ == document,
{
    assert(s.router.dispatch(well_known_path(), Verb::Get) == Some(Endpoint::Description));
}

/// Two servients built from the same Thing dispatch every verb at every path
/// alike, whatever their instance names.
pub proof fn lemma_build_deterministic(s1: Servient, s2: Servient, thing: Thing, document: Seq<char>)
    requires
        s1.built_from(thing, document),
        s2.built_from(thing, document),
    ensures
        forall|p: Seq<char>, v: Verb| #[trigger] s1.router.dispatch(p, v) == s2.router.dispatch(p, v),
{
    assert forall|p: Seq<char>, v: Verb| #[trigger] s1.router.dispatch(p, v) == s2.router.dispatch(p, v) by {
        if p == well_known_path() {
            assert(s1.router.dispatch(well_known_path(), v) == s2.router.dispatch(well_known_path(), v));
        }
    }
}

/// A form reaches `v` at its href when no later form at that href routes `v`:
/// forms at one href with different verbs are all reachable, and of two that
/// route the same verb the later one wins.
pub proof fn lemma_latest_form_wins(fs: Seq<ThingForm>, j: int, v: Verb)
    requires
        0 <= j < fs.len(),
        fs[j].other.method_router.handler(v).is_some(),
        forall|k: int| j < k < fs.len() && (#[trigger] fs[k]).href@ == fs[j].href@ ==> fs[k].other.method_router.handler(v).is_none(),
    ensures
        form_dispatch(fs, fs[j].href@, v) == fs[j].other.method_router.handler(v),
    decreases fs.len(),
{
    if j < fs.len() - 1 {
        let t = fs.drop_last();
        assert(t[j] == fs[j]);
        assert forall|k: int| j < k < t.len() && (#[trigger] t[k]).href@ == t[j].href@ implies t[k].other.method_router.handler(v).is_none() by {
            assert(t[k] == fs[k]);
        }
        lemma_latest_form_wins(t, j, v);
    }
}

/// Without a bind address the servient listens on `0.0.0.0:8080`; without a
/// Thing type it advertises the default one.
pub proof fn lemma_default_settings(s: Servient, thing: Thing, document: Seq<char>)
    requires
        s.built_from(thing, document),
    ensures
        thing.other.addr.is_none() ==> s.http_addr == SocketAddress::V4(0, 8080),
        thing.other.thing_type == ThingType::Thing ==> s.thing_type == ThingType::Thing,
{
}

/// Registers each of `forms` at its href, in order, after the forms `done`
/// that `router` already holds.
fn route_forms(router: Router, forms: &Vec<ThingForm>, Ghost(done): Ghost<Seq<ThingForm>>) -> (r: Router)
    requires
        router.routes@.len() == done.len(),
        forall|p: Seq<char>, v: Verb| #[trigger] router.dispatch(p, v) == form_dispatch(done, p, v),
    ensures
        r.routes@.len() == (done + forms@).len(),
        forall|p: Seq<char>, v: Verb| #[trigger] r.dispatch(p, v) == form_dispatch(done + forms@, p, v),
{
    let mut router = router;
    let mut i: usize = 0;
    while i < forms.len()
        invariant
            i <= forms@.len(),
            router.routes@.len() == done.len() + i,
            forall|p: Seq<char>, v: Verb| #[trigger]
                router.dispatch(p, v) == form_dispatch(done + forms@.subrange(0, i as int), p, v),
        decreases forms@.len() - i,
    {
        let f = &forms[i];
        let ghost before = router;
        router = router.route(f.href.as_str(), f.other.method_router);
        proof {
            let s = done + forms@.subrange(0, i + 1);
            assert(s.drop_last() == done + forms@.subrange(0, i as int));
            assert(s.last() == forms@[i as int]);
            assert forall|p: Seq<char>, v: Verb| #[trigger]
                router.dispatch(p, v) == form_dispatch(s, p, v) by {
                if p == f.href@ {
                    assert(router.dispatch(f.href@, v) == match f.other.method_router.handler(v) {
                        Some(e) => Some(e),
                        None => before.dispatch(f.href@, v),
                    });
                } else {
                    assert(router.dispatch(p, v) == before.dispatch(p, v));
                }
            }
        }
        i = i + 1;
    }
    proof {
        assert(forms@.subrange(0, forms@.len() as int) == forms@);
    }
    router
}

/// Registers the forms of each of `affs`, in order, after the forms `done`
/// that `router` already holds.
fn route_affordances(router: Router, affs: &Vec<Affordance>, Ghost(done): Ghost<Seq<ThingForm>>) -> (r: Router)
    requires
        router.routes@.len() == done.len(),
        forall|p: Seq<char>, v: Verb| #[trigger] router.dispatch(p, v) == form_dispatch(done, p, v),
    ensures
        r.routes@.len() == (done + affordance_forms(affs@)).len(),
        forall|p: Seq<char>, v: Verb| #[trigger]
            r.dispatch(p, v) == form_dispatch(done + affordance_forms(affs@), p, v),
{
    let mut router = router;
    let mut j: usize = 0;
    proof {
        assert(affs@.subrange(0, 0) =~= Seq::<Affordance>::empty());
        assert(done + affordance_forms(affs@.subrange(0, 0)) =~= done);
    }
    while j < affs.len()
        invariant
            j <= affs@.len(),
                router.routes@.len() == (done + affordance_forms(affs@.subrange(0, j as int))).len(),
            forall|p: Seq<char>, v: Verb| #[trigger]
                router.dispatch(p, v) == form_dispatch(done + affordance_forms(affs@.subrange(0, j as int)), p, v),
        decreases affs@.len() - j,
    {
        let ghost prefix = done + affordance_forms(affs@.subrange(0, j as int));
        proof {
            let t = affs@.subrange(0, j + 1);
            assert(t.drop_last() == affs@.subrange(0, j as int));
            assert(t.last() == affs@[j as int]);
            assert(affordance_forms(t) == affordance_forms(affs@.subrange(0, j as int)) + affs@[j as int].forms@);
            assert(prefix + affs@[j as int].forms@ =~= done + affordance_forms(t));
        }
        router = route_forms(router, &affs[j].forms, Ghost(prefix));
        j = j + 1;
    }
    proof {
        assert(affs@.subrange(0, affs@.len() as int) == affs@);
    }
    router
}

/// Registers an optional collection's forms after the forms `done`.
fn route_collection(router: Router, c: &Option<Vec<Affordance>>, Ghost(done): Ghost<Seq<ThingForm>>) -> (r: Router)
    requires
        router.routes@.len() == done.len(),
        forall|p: Seq<char>, v: Verb| #[trigger] router.dispatch(p, v) == form_dispatch(done, p, v),
    ensures
        r.routes@.len() == (done + affordance_forms(affordances_of(*c))).len(),
        forall|p: Seq<char>, v: Verb| #[trigger]
            r.dispatch(p, v) == form_dispatch(done + affordance_forms(affordances_of(*c)), p, v),
{
    match c {
        Some(affs) => route_affordances(router, affs, Ghost(done)),
        None => {
            assert(done + affordance_forms(affordances_of(*c)) =~= done);
            router
        },
    }
}

/// The routing table of every form of `thing`, in the order of `all_forms`.
fn route_thing(thing: &Thing) -> (r: Router)
    ensures
        r.routes@.len() == thing.all_forms().len(),
        forall|p: Seq<char>, v: Verb| #[trigger] r.dispatch(p, v) == form_dispatch(thing.all_forms(), p, v),
{
    let ghost empty = Seq::<ThingForm>::empty();
    let ghost own = forms_of(thing.forms);
    let ghost props = affordance_forms(affordances_of(thing.properties));
    let ghost acts = affordance_forms(affordances_of(thing.actions));
    let ghost evts = affordance_forms(affordances_of(thing.events));
    let router = Router::new();
    let router = match &thing.forms {
        Some(fs) => {
            assert(empty + fs@ =~= own);
            route_forms(router, fs, Ghost(empty))
        },
        None => {
            assert(empty + Seq::<ThingForm>::empty() =~= own);
            router
        },
    };
    assert(empty + own =~= own);
    let router = route_collection(router, &thing.properties, Ghost(own));
    let router = route_collection(router, &thing.actions, Ghost(own + props));
    let router = route_collection(router, &thing.events, Ghost(own + props + acts));
    assert(own + props + acts + evts =~= thing.all_forms());
    router
}

} // verus!
