//! Core of a small HTTP service: outbound client configuration and build
//! pipeline, per-request metrics bookkeeping, the structured error taxonomy
//! with its response mapping, and the telemetry bootstrap decisions.
//!
//! Network and file I/O, the async runtime, and the subscriber wiring live in
//! the surrounding application; this crate holds the logic and its contracts.

pub mod error;
pub mod handlers;
pub mod https;
pub mod metrics;
pub mod state;
pub mod tracing;
