//! Core of a resilient client for a newline-delimited telemetry stream:
//! reconnect backoff, line parsing, sample ingestion and the connection
//! state machine. Transport, timers and locking live with the caller.

pub mod backoff;
pub mod driver;
pub mod number;
pub mod parser;
pub mod text;
pub mod time;
pub mod wire;
