//! Retrying an operation with a deadline on each attempt, exponential backoff
//! with jitter between attempts and an optional limit to their number; and
//! what an index node decides when it resolves a query.
//!
//! A retry session is configured in stages, starting with [`retry`], and
//! then run. The library decides and its caller acts: the caller makes each
//! attempt that it is handed and reports how it ended. `run` does so with a
//! function of the caller; `start` gives the session itself, for a caller
//! that makes its attempts in its own time.

pub mod backoff;
pub mod blocking;
pub mod condition;
pub mod config;
pub mod laws;
pub mod outcome;
pub mod policy;
pub mod property;
pub mod resolver;
pub mod session;
pub mod time;
pub mod values;

pub use blocking::blocking;
pub use config::retry;
pub use config::RetryConfig;
pub use config::RetryConfigNoTimeout;
pub use config::RetryConfigWithTimeout;
pub use resolver::IndexNodeResolver;
