//! Decisions, keys, encodings and bookkeeping of a Redis-backed result
//! cache for a PostgreSQL proxy, with their contracts.

pub mod pattern;
pub mod settings;
pub mod config;
pub mod digest;
pub mod crypto;
pub mod keys;
pub mod ops;
pub mod singleflight;
pub mod stats;
pub mod rewrite;
