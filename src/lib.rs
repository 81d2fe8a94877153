//! The protocol logic of a desktop notification server: routing of method
//! calls by member name, decoding of `Notify` arguments, the replies of each
//! method, the introspection document, the display time of a notification,
//! and the startup decision between yielding to a running server and owning
//! the service name.
use vstd::prelude::*;

pub mod call;
pub mod dispatch;
pub mod duration;
pub mod introspect;
pub mod methods;
pub mod notify;
pub mod startup;

verus! {

} // verus!
