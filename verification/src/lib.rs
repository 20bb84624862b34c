//! Core of a scoped thread pool: the admission-control counter, the
//! configuration record and its validation, the message type that travels
//! from submitters to workers, and the queue endpoints.
//!
//! The concurrency engine itself (worker threads, the condition-variable
//! loops around the counter, the scope handles) lives in the host program;
//! this crate holds the state and the decisions those loops are built from,
//! with their contracts.

pub mod capi;
pub mod channel;
pub mod config;
pub mod counter;
pub mod message;

pub use config::PoolConfig;
