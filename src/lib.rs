//! Keeps a Wayland session from going idle: the protocol negotiation and
//! object lifecycle of an idle-inhibit client, as a verified state machine.
//! The caller owns the connection, performs the requests this library asks for
//! and feeds back the events it receives.
pub mod interfaces;
pub mod registry;
pub mod lifecycle;
pub mod driver;
