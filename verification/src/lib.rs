//! Core of a telemetry bridge between a remote, loosely typed key-value
//! store and a consumer that wants a strongly typed, periodically refreshed
//! snapshot of a fixed schema.
//!
//! The verified core covers the key-namespace extraction and coercion logic,
//! the reconnect-with-timeout polling state machine, and the shared target
//! address cell. Network transport, timers and UI delivery are host concerns
//! and live outside this crate's verified surface.

pub mod extract;
pub mod poller;
pub mod record;
pub mod target;
pub mod value;
pub mod view;
