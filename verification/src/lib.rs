//! A broadcast chat relay: every message that a connected client sends is
//! handed to every client that is listening, the sender included.
//!
//! The relay is built around a [`hub::Hub`], a bounded broadcast channel that
//! never makes a publisher wait for a slow subscriber. Each connection is a
//! [`session::Session`]: one half feeds the client's messages into the hub,
//! the other turns what the hub delivers into replies for that client.
pub mod client;
pub mod greeter;
pub mod hub;
pub mod message;
pub mod net;
pub mod session;

pub use crate::greeter::MyGreeter;
pub use crate::net::get_local_ip;
