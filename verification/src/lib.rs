//! Event relay and serialized-toggle orchestrator.
//!
//! The library turns an unreliable, reconnecting stream of transport
//! events into an ordered sequence of at-most-one-concurrent toggle
//! cycles against a remote chat command.  Everything here is pure
//! decision logic over plain values: the surrounding program performs
//! the network calls and feeds their results back into the state
//! machines defined in these modules.

pub mod config;
pub mod log;
pub mod notifier;
pub mod router;
pub mod subscriber;
pub mod toggle;
