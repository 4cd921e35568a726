//! Per-connection subscriber sessions of an event-broadcast service.
//!
//! A subscriber registers with the dispatcher, accepts exactly one filter
//! from its client, forwards the matching events of every pushed batch in
//! order, and unregisters exactly once when its connection goes away.
//! The decisions are made here; transport, dispatcher round-trips, filter
//! parsing and event encoding are performed by the caller, which reports
//! their outcomes back as inputs.
pub mod delivery;
pub mod laws;
pub mod protocol;
pub mod subscriber;
