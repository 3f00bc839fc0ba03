//! Wire messages and their conversion to and from domain values.

pub mod error_kind;
pub mod message;
pub mod convert;
pub mod header;
pub mod laws;
