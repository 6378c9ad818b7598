//! Session orchestration for a one-shot SSH request/response exchange.
//!
//! The transport engine (key exchange, packet framing, ciphers) lives outside
//! this library. What is here are the decisions made around it: which peers are
//! admitted, how a server answers on a channel, and how a client session moves
//! from connecting to a finished round trip.
pub mod auth;
pub mod bytes;
pub mod laws;
pub mod responder;
pub mod session;
