//! Core of a WebSocket-based request/response framework that multiplexes
//! service invocations over a single bidirectional connection.
//!
//! A client names a service and exchanges a structured dialogue with a
//! server-side worker that may stream items back, suspend mid-stream to be
//! resumed later by task id, or reject the call outright. The heart of the
//! crate is the per-connection session dispatcher: a verified state machine
//! that couples request/response framing, a service registry, the two-phase
//! worker protocol (prepare then realize), and the in-connection suspension
//! table for parked workers.

pub mod codec;
pub mod permission;
pub mod prelude;
pub mod server;
pub mod session;
pub mod worker;
