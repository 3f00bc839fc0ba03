//! Verified metadata-service core of the Beryl file system.

pub mod config;
pub mod error;
pub mod filesystem;
pub mod fs;
pub mod group_watermark;
pub mod header;
pub mod ids;
pub mod inode;
pub mod laws;
pub mod layout;
pub mod lease;
pub mod location;
pub mod outside_uuid;
pub mod placement;
pub mod proto;
pub mod rpc_error;
pub mod session;
pub mod text;
pub mod wire;
pub mod worker;
pub mod worker_info;
