//! Client engine for the Arrow tunneling protocol.
//!
//! An Arrow client keeps one long-lived connection to an Arrow service and
//! multiplexes a control plane and any number of service sessions over it.
//! This crate holds the protocol logic: the frame codec, the typed control
//! messages with their wire encoding, the monotonic message-id factory, the
//! pending-ACK tracker, the session table, and the protocol engine that ties
//! them together. The engine is a plain state machine: every routine that
//! depends on time takes the current monotonic timestamp (in seconds) as an
//! argument, so a reactor drives it with the real clock and tests drive it
//! with a simulated one. Transport setup, TLS, and the event loop live with
//! the caller.

pub mod codec;
pub mod control;
pub mod engine;
pub mod error;
pub mod factory;
pub mod msg;
pub mod periodic;
pub mod session;
pub mod tracker;
pub mod wire;
