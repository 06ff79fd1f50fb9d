//! Wire-protocol codec and telemetry publication core of an encrypted proxy
//! stack.
//!
//! The codec modules encode and decode the two protocol entities — network
//! addresses and secured message envelopes — to and from their tagged,
//! length-prefixed binary frames, with proved round-trip laws. The collector
//! module publishes per-connection telemetry over bounded channels without
//! ever blocking the data path that it observes.

pub mod collector;
pub mod common;
pub mod error;
pub mod wire;
