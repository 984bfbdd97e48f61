//! Client side of a push-notification service: the wire protocol, the
//! sizing of notification surfaces and the decisions of the receive loop.

pub mod endpoint;
pub mod json;
pub mod layout;
pub mod protocol;
pub mod query;
pub mod session;
