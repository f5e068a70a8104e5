//! The Thing Description that a servient is built from, with the servient's
//! own data attached: binding options at the top level, handlers on each form.

use vstd::prelude::*;

use crate::method::{Endpoint, Form, MethodRouter, Verb};

verus! {

/// The kind of Thing that is advertised on the network.
#[derive(Clone, Copy, Debug, PartialEq, Eq, Structural)]
pub enum ThingType {
    Thing,
    Directory,
}

impl Default for ThingType {
    fn default() -> (r: ThingType)
        ensures
            r == ThingType::Thing,
    {
        ThingType::Thing
    }
}

/// A socket address: an IP address, as its integer value, and a port.
/// `V4(0x7f000001, 80)` is `127.0.0.1:80`.
#[derive(Clone, Copy, Debug, PartialEq, Eq, Structural)]
pub enum SocketAddress {
    V4(u32, u16),
    V6(u128, u16),
}

/// The address a servient listens on when none was given: `0.0.0.0:8080`.
pub open spec fn default_address() -> SocketAddress {
    SocketAddress::V4(0, 8080)
}

/// The semantic operations that a form can declare.
#[derive(Clone, Copy, Debug, PartialEq, Eq, Structural)]
pub enum FormOperation {
    ReadProperty,
    WriteProperty,
    ObserveProperty,
    UnobserveProperty,
    InvokeAction,
    QueryAction,
    CancelAction,
    SubscribeEvent,
    UnsubscribeEvent,
    ReadAllProperties,
    WriteAllProperties,
    ReadMultipleProperties,
    WriteMultipleProperties,
    ObserveAllProperties,
    UnobserveAllProperties,
    SubscribeAllEvents,
    UnsubscribeAllEvents,
    QueryAllActions,
}

/// The servient's data on the Thing as a whole: where to listen and what kind
/// of Thing to advertise.
#[derive(Clone, Copy, Debug, PartialEq, Eq, Structural)]
pub struct ServientExtension {
    pub addr: Option<SocketAddress>,
    pub thing_type: ThingType,
}

impl Default for ServientExtension {
    fn default() -> (r: ServientExtension)
        ensures
            r.addr.is_none(),
            r.thing_type == ThingType::Thing,
    {
        ServientExtension { addr: None, thing_type: ThingType::Thing }
    }
}

/// An access point: a path, the operations it serves, and its handlers.
pub struct ThingForm {
    pub href: String,
    pub op: Vec<FormOperation>,
    pub other: Form,
}

impl ThingForm {
    /// A form at `href` with no operation and no handler.
    pub fn new(href: &str) -> (r: ThingForm)
        ensures
            r.href@ == href@,
            r.op@.len() == 0,
            r.other.method_router.is_empty(),
    {
        ThingForm { href: href.to_owned(), op: Vec::new(), other: Form::default() }
    }

    /// Declares one more operation of the form.
    pub fn op(self, o: FormOperation) -> (r: ThingForm)
        ensures
            r.href == self.href,
            r.op@ == self.op@.push(o),
            r.other == self.other,
    {
        let mut r = self;
        r.op.push(o);
        r
    }

    /// Routes verb `v` of the form to the handler `handler`, in place of any
    /// handler `v` had.
    pub fn http_on(self, v: Verb, handler: u64) -> (r: ThingForm)
        ensures
            r.href == self.href,
            r.op == self.op,
            r.other.method_router == self.other.method_router.with(v, Endpoint::Handler(handler)),
    {
        let mut r = self;
        r.other.method_router = r.other.method_router.on(v, Endpoint::Handler(handler));
        r
    }

    /// Routes GET requests to the given handler.
    pub fn http_get(self, handler: u64) -> (r: ThingForm)
        ensures
            r.href == self.href,
            r.op == self.op,
            r.other.method_router == self.other.method_router.with(Verb::Get, Endpoint::Handler(handler)),
    {
        self.http_on(Verb::Get, handler)
    }

    /// Routes PUT requests to the given handler.
    pub fn http_put(self, handler: u64) -> (r: ThingForm)
        ensures
            r.href == self.href,
            r.op == self.op,
            r.other.method_router == self.other.method_router.with(Verb::Put, Endpoint::Handler(handler)),
    {
        self.http_on(Verb::Put, handler)
    }

    /// Routes POST requests to the given handler.
    pub fn http_post(self, handler: u64) -> (r: ThingForm)
        ensures
            r.href == self.href,
            r.op == self.op,
            r.other.method_router == self.other.method_router.with(Verb::Post, Endpoint::Handler(handler)),
    {
        self.http_on(Verb::Post, handler)
    }

    /// Routes PATCH requests to the given handler.
    pub fn http_patch(self, handler: u64) -> (r: ThingForm)
        ensures
            r.href == self.href,
            r.op == self.op,
            r.other.method_router == self.other.method_router.with(Verb::Patch, Endpoint::Handler(handler)),
    {
        self.http_on(Verb::Patch, handler)
    }

    /// Routes DELETE requests to the given handler.
    pub fn http_delete(self, handler: u64) -> (r: ThingForm)
        ensures
            r.href == self.href,
            r.op == self.op,
            r.other.method_router == self.other.method_router.with(Verb::Delete, Endpoint::Handler(handler)),
    {
        self.http_on(Verb::Delete, handler)
    }
}

/// A named property, action or event with its forms.
pub struct Affordance {
    pub name: String,
    pub forms: Vec<ThingForm>,
}

/// The forms of an optional form list, in order.
pub open spec fn forms_of(fs: Option<Vec<ThingForm>>) -> Seq<ThingForm> {
    match fs {
        Some(v) => v@,
        None => Seq::empty(),
    }
}

/// The affordances of an optional collection, in order.
pub open spec fn affordances_of(c: Option<Vec<Affordance>>) -> Seq<Affordance> {
    match c {
        Some(v) => v@,
        None => Seq::empty(),
    }
}

/// The forms of the affordances `s`, affordance after affordance.
pub open spec fn affordance_forms(s: Seq<Affordance>) -> Seq<ThingForm>
    decreases s.len(),
{
    if s.len() == 0 {
        Seq::empty()
    } else {
        affordance_forms(s.drop_last()) + s.last().forms@
    }
}

/// No two affordances of `s` share a name.
pub open spec fn names_unique(s: Seq<Affordance>) -> bool {
    forall|i: int, j: int| 0 <= i < j < s.len() ==> #[trigger] s[i].name@ != #[trigger] s[j].name@
}

/// A Thing Description with the servient's data attached.
pub struct Thing {
    pub title: String,
    pub forms: Option<Vec<ThingForm>>,
    pub properties: Option<Vec<Affordance>>,
    pub actions: Option<Vec<Affordance>>,
    pub events: Option<Vec<Affordance>>,
    pub other: ServientExtension,
}

impl Thing {
    /// Every form of the Thing in the order the servient registers them: the
    /// Thing's own forms, then those of the properties, of the actions and of
    /// the events, each in declaration order.
    pub open spec fn all_forms(self) -> Seq<ThingForm> {
        forms_of(self.forms) + affordance_forms(affordances_of(self.properties))
            + affordance_forms(affordances_of(self.actions))
            + affordance_forms(affordances_of(self.events))
    }

    /// Affordance names are unique within each collection.
    pub open spec fn is_valid(self) -> bool {
        &&& names_unique(affordances_of(self.properties))
        &&& names_unique(affordances_of(self.actions))
        &&& names_unique(affordances_of(self.events))
    }
}

/// Why a servient could not be built.
#[derive(Clone, Copy, Debug, PartialEq, Eq, Structural)]
pub enum ServientError {
    /// The description is malformed: two affordances of a kind share a name.
    DescriptionInvalid,
    /// The description could not be serialized.
    SerializationFailed,
    /// The network advertiser could not be started.
    AdvertiserUnavailable,
}

/// Whether the names of `v` are pairwise distinct.
fn names_distinct(v: &Vec<Affordance>) -> (r: bool)
    ensures
        r == names_unique(v@),
{
    let mut j: usize = 0;
    while j < v.len()
        invariant
            j <= v@.len(),
            forall|a: int, b: int| 0 <= a < b < j ==> #[trigger] v@[a].name@ != #[trigger] v@[b].name@,
        decreases v@.len() - j,
    {
        let mut i: usize = 0;
        while i < j
            invariant
                i <= j < v@.len(),
                forall|a: int| 0 <= a < i ==> #[trigger] v@[a].name@ != v@[j as int].name@,
            decreases j - i,
        {
            if v[i].name == v[j].name {
                return false;
            }
            i = i + 1;
        }
        j = j + 1;
    }
    true
}

fn collection_valid(c: &Option<Vec<Affordance>>) -> (r: bool)
    ensures
        r == names_unique(affordances_of(*c)),
{
    match c {
        Some(v) => names_distinct(v),
        None => true,
    }
}

/// Appends an affordance named `name` with `forms` to a collection.
fn push_affordance(c: Option<Vec<Affordance>>, name: &str, forms: Vec<ThingForm>) -> (r: Option<Vec<Affordance>>)
    ensures
        r.is_some(),
        affordances_of(r).len() == affordances_of(c).len() + 1,
        affordances_of(r).drop_last() == affordances_of(c),
        affordances_of(r).last().name@ == name@,
        affordances_of(r).last().forms@ == forms@,
{
    let mut v = match c {
        Some(v) => v,
        None => Vec::new(),
    };
    let ghost before = v@;
    v.push(Affordance { name: name.to_owned(), forms });
    proof {
        assert(v@.drop_last() == before);
    }
    Some(v)
}

/// Builds a Thing Description: it takes forms and affordances, in order, and
/// the servient's settings.
pub struct ThingBuilder {
    pub thing: Thing,
}

impl ThingBuilder {
    /// A description titled `title`, with no form, no affordance and the
    /// default settings.
    pub fn new(title: &str) -> (r: ThingBuilder)
        ensures
            r.thing.title@ == title@,
            r.thing.forms.is_none(),
            r.thing.properties.is_none(),
            r.thing.actions.is_none(),
            r.thing.events.is_none(),
            r.thing.other.addr.is_none(),
            r.thing.other.thing_type == ThingType::Thing,
    {
        ThingBuilder {
            thing: Thing {
                title: title.to_owned(),
                forms: None,
                properties: None,
                actions: None,
                events: None,
                other: ServientExtension::default(),
            },
        }
    }

    /// Binds the http server to `addr`.
    pub fn http_bind(self, addr: SocketAddress) -> (r: ThingBuilder)
        ensures
            r.thing == (Thing { other: ServientExtension { addr: Some(addr), ..self.thing.other }, ..self.thing }),
    {
        let mut r = self;
        r.thing.other.addr = Some(addr);
        r
    }

    /// Sets the kind of Thing to be advertised.
    pub fn thing_type(self, ty: ThingType) -> (r: ThingBuilder)
        ensures
            r.thing == (Thing { other: ServientExtension { thing_type: ty, ..self.thing.other }, ..self.thing }),
    {
        let mut r = self;
        r.thing.other.thing_type = ty;
        r
    }

    /// Adds a form of the Thing as a whole.
    pub fn form(self, f: ThingForm) -> (r: ThingBuilder)
        ensures
            forms_of(r.thing.forms) == forms_of(self.thing.forms).push(f),
            r.thing == (Thing { forms: r.thing.forms, ..self.thing }),
    {
        let mut r = self;
        let mut v = match r.thing.forms {
            Some(v) => v,
            None => Vec::new(),
        };
        v.push(f);
        r.thing.forms = Some(v);
        r
    }

    /// Adds a property named `name` with `forms`.
    pub fn property(self, name: &str, forms: Vec<ThingForm>) -> (r: ThingBuilder)
        ensures
            affordances_of(r.thing.properties).len() == affordances_of(self.thing.properties).len() + 1,
            affordances_of(r.thing.properties).drop_last() == affordances_of(self.thing.properties),
            affordances_of(r.thing.properties).last().name@ == name@,
            affordances_of(r.thing.properties).last().forms@ == forms@,
            r.thing == (Thing { properties: r.thing.properties, ..self.thing }),
    {
        let mut r = self;
        r.thing.properties = push_affordance(r.thing.properties, name, forms);
        r
    }

    /// Adds an action named `name` with `forms`.
    pub fn action(self, name: &str, forms: Vec<ThingForm>) -> (r: ThingBuilder)
        ensures
            affordances_of(r.thing.actions).len() == affordances_of(self.thing.actions).len() + 1,
            affordances_of(r.thing.actions).drop_last() == affordances_of(self.thing.actions),
            affordances_of(r.thing.actions).last().name@ == name@,
            affordances_of(r.thing.actions).last().forms@ == forms@,
            r.thing == (Thing { actions: r.thing.actions, ..self.thing }),
    {
        let mut r = self;
        r.thing.actions = push_affordance(r.thing.actions, name, forms);
        r
    }

    /// Adds an event named `name` with `forms`.
    pub fn event(self, name: &str, forms: Vec<ThingForm>) -> (r: ThingBuilder)
        ensures
            affordances_of(r.thing.events).len() == affordances_of(self.thing.events).len() + 1,
            affordances_of(r.thing.events).drop_last() == affordances_of(self.thing.events),
            affordances_of(r.thing.events).last().name@ == name@,
            affordances_of(r.thing.events).last().forms@ == forms@,
            r.thing == (Thing { events: r.thing.events, ..self.thing }),
    {
        let mut r = self;
        r.thing.events = push_affordance(r.thing.events, name, forms);
        r
    }

    /// Finalizes the description: it is refused exactly when two affordances
    /// of one kind share a name.
    pub fn build(self) -> (r: Result<Thing, ServientError>)
        ensures
            self.thing.is_valid() ==> r == Ok::<Thing, ServientError>(self.thing),
            !self.thing.is_valid() ==> r == Err::<Thing, ServientError>(ServientError::DescriptionInvalid),
    {
        if collection_valid(&self.thing.properties) && collection_valid(&self.thing.actions)
            && collection_valid(&self.thing.events) {
            Ok(self.thing)
        } else {
            Err(ServientError::DescriptionInvalid)
        }
    }
}

} // verus!
