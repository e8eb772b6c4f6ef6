//! Retrieval core of a message-log archive: query construction for
//! time-bucketed scans, bucket discovery, uniform line sampling and user
//! erasure, with the decisions around each storage round-trip.

pub mod text;
pub mod error;
pub mod bucket;
pub mod query;
pub mod sampler;
pub mod stream;
