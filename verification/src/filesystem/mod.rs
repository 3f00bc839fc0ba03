//! File system semantics of the metadata service.
//!
//! Each operation is a sequence of steps. A step takes what storage, routing and
//! replication returned, and decides what happens next.

pub mod command;
pub mod context;
pub mod laws;
pub mod namespace;
pub mod write;
pub mod open;
pub mod readiness;
pub mod committed;
pub mod publish;
pub mod read;
