//! What workers tell the metadata service, and what it answers them.

pub mod laws;
pub mod message;
pub mod report;
pub mod service;
