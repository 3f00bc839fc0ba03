//! Fixed limits and default settings.

use vstd::prelude::*;

verus! {

/// Largest number of components in a path.
pub const MAX_PATH_COMPONENTS: usize = 256;

/// Default number of opening and active write sessions in the process.
pub const DEFAULT_MAX_SESSIONS: usize = 4096;

/// Default number of opening and active write sessions of one client.
pub const DEFAULT_MAX_SESSIONS_PER_CLIENT: usize = 256;

/// Default number of pending and issued write targets in the process.
pub const DEFAULT_MAX_WRITE_TARGETS: usize = 65536;

/// Default number of pending and issued write targets of one session.
pub const DEFAULT_MAX_WRITE_TARGETS_PER_SESSION: usize = 1024;

/// Default lifetime of a write lease.
pub const DEFAULT_WRITE_LEASE_TIMEOUT_MS: u64 = 60000;

} // verus!
