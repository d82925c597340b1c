//! A typed binding for a subscription-billing HTTP API.
//!
//! The crate plans requests and judges replies; it performs no I/O of its own.
//! Every request body is built here as JSON text whose shape is stated in the
//! contracts of the functions that build it.

pub mod client;
pub mod error;
pub mod json;
pub mod timestamp;
