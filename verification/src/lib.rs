//! Resilient inference-request client core.
//!
//! The crate models the client-side machinery that turns a logical inference
//! call into a reliably delivered exchange: an error taxonomy with
//! retryability rules, an exponential backoff policy, a bounded retry engine,
//! a streaming token decoder for line-oriented event frames, a batch
//! orchestrator that preserves submission order, and the session context that
//! accompanies every request.

pub mod batch;
pub mod chunk;
pub mod config;
pub mod error;
pub mod memory;
pub mod models;
pub mod native_error;
pub mod perf;
pub mod quantization;
pub mod retry;
pub mod session;
pub mod streaming;
pub mod tokenize;
