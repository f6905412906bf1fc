//! A protective layer in front of a slow, rate-sensitive upstream HTTP
//! endpoint: a rate-limited, time-to-live response cache and a release-tag
//! resolver.
//!
//! The library holds the decision logic, fully verified.  The surrounding
//! program supplies the collaborators the decisions depend on: a monotonic
//! clock (timestamps are plain `u64` ticks handed in by the caller) and an
//! HTTP client that performs the upstream calls the cache admits.

pub mod cache;
pub mod config;
pub mod release;
pub mod text;
