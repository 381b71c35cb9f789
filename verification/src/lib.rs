//! Discovery of Yeelight bulbs on the local network and their registration
//! and messaging with the Kinton cloud.
//!
//! The crate holds the decisions: how a discovery reply is read, when the
//! next probe may leave, which device identifiers are taken, and which
//! handler an inbound message belongs to. Sockets, HTTP and the broker
//! connection belong to the caller, which performs the actions that the
//! functions here hand back.

pub mod kinton;
pub mod modules;
pub mod table;
pub mod text;
