//! Web of Things application server.
//!
//! A Thing is described once, with the handlers of each form attached to the
//! form itself; building a servient derives from that description the routing
//! table, the discovery route and the instance name.

pub mod method;
pub mod name;
pub mod router;
pub mod servient;
pub mod thing;

pub use method::{Endpoint, Form, MethodRouter, Verb};
pub use router::{Route, Router};
pub use thing::{
    Affordance, FormOperation, ServientError, ServientExtension, SocketAddress, Thing, ThingBuilder,
    ThingForm, ThingType,
};
pub use name::{first_word_of, instance_name, is_whitespace};
pub use servient::{Servient, WELL_KNOWN_PATH};
