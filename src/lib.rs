//! Adapters between two poll-driven streams of record batches: the internal
//! stream, whose items carry their schema and fail with [`error::Error`], and
//! the query engine's stream, with its own schema and error representation.

pub mod adapter;
pub mod error;
pub mod lemmas;
pub mod poll;
pub mod stream;
