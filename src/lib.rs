//! Planning, timing and bookkeeping for a batch of HTTP smoke-test requests.
//!
//! The network work itself is done by the caller; this library decides what
//! to send for each request descriptor, classifies each outcome, and keeps one
//! result record per descriptor in both the sequential and the concurrent mode.
pub mod descriptor;
pub mod executor;
pub mod batch;
pub mod headers;
