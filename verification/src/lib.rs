//! Client core for a duplex, event-driven speech-synthesis streaming protocol.
//!
//! A session submits one unit of work over a bidirectional message channel:
//! it sends a start command, waits for the server's readiness signal, feeds
//! input units in order, signals completion, and concurrently consumes a
//! mixed stream of structured lifecycle events and raw binary payload
//! fragments, which are appended to a durable sink in arrival order.
//!
//! This crate holds the protocol logic: command encoding, event
//! classification, and the sender, receiver and session state machines.
//! Transport, file and task plumbing live outside it and drive these
//! machines with plain values.

pub mod command;
pub mod config;
pub mod encode;
pub mod event;
pub mod receiver;
pub mod sender;
pub mod session;

pub use config::SynthesisConfig;
