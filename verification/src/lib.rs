//! Connection and synchronization engine for remote "runner" services.
//!
//! A runner exposes a small HTTP + server-sent-events control protocol for
//! managing named instances (workloads). This crate holds the verified core
//! of a console that mirrors each runner's instance set locally: the protocol
//! decoding, the instance-state mirror, the bounded notification fan-out, the
//! connection supervisor, and the event-stream consumer's state machine.
//! Network transport and the task scheduler live outside the crate; they feed
//! the step functions here with plain values.

use vstd::prelude::*;

pub mod bus;
pub mod consumer;
pub mod event;
pub mod http;
pub mod instance;
pub mod json;
pub mod mirror;
pub mod protocol;
pub mod runner;
pub mod text;
pub mod ui;

verus! {

/// The protocol version this console speaks. A runner reporting any other
/// version is rejected during the handshake.
pub const SUPPORTED_PROTOCOL: u64 = 1;

} // verus!
