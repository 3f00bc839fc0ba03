//! What the stages of the file system operations promise their callers. Every law speaks of
//! what goes into a stage and what comes out of it.

pub mod answering;
pub mod namespace;
pub mod opening;
pub mod publication;
pub mod reading;
pub mod writing;
