//! A resilient executor for calls to a JSON/HTTP API.
//!
//! - `error`: the structured error, with what may be retried and after how long.
//! - `classify`: a failed exchange turned into an `Error`.
//! - `retry`: exponential backoff with optional jitter.
//! - `breaker`: the circuit breaker, as a state machine over time.
//! - `limiter`: the fixed-window rate limiter.
//! - `executor`: the decisions around each attempt of one call.
//! - `pagination`: cursor pagination read as one sequence of items.
//! - `config`: the settings the executor reads.
//! - `request`, `types`, `traits`, `auth`, `middleware`, `realtime`: the
//!   options, values and settings that the resources share.
pub mod error;
pub mod digits;
pub mod retry;
pub mod clock;
pub mod breaker;
pub mod limiter;
pub mod json;
pub mod classify;
pub mod executor;
pub mod pagination;
pub mod config;
pub mod text;
pub mod middleware;
pub mod request;
pub mod traits;
pub mod types;
pub mod auth;
pub mod realtime;
