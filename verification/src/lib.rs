//! A verified core for code that runs inside a browser-like host and reaches
//! two of the host's services through plain values.
//!
//! * [`fetch`] turns an event-driven HTTP request into a task that a
//!   cooperative scheduler can poll: the order of the calls that issue the
//!   request, and the reading of the host's status and readiness into
//!   pending, success or failure.
//! * [`storage`] is a key-value record store with a durable and a
//!   session-lived scope.
//!
//! Nothing here touches the host. A driver performs the calls that these
//! functions ask for and hands back what the host answered.

pub mod fetch;
pub mod storage;
