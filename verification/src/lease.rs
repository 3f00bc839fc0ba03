//! Write leases: epochs, fencing tokens and write handles.

use vstd::prelude::*;

use crate::ids::{BlockId, ClientId, InodeId};

verus! {

/// Durable fencing epoch of one inode. Zero is never issued to a writer.
#[derive(Clone, Copy, Debug, PartialEq, Eq, Hash, PartialOrd, Ord, Structural)]
pub struct LeaseEpoch(pub u64);

impl LeaseEpoch {
    /// Creates an epoch from a raw value.
    pub fn new(v: u64) -> (r: Self)
        ensures
            r.0 == v,
    {
        Self(v)
    }

    /// Returns the inner value.
    pub fn as_raw(self) -> (r: u64)
        ensures
            r == self.0,
    {
        self.0
    }

    /// The epoch that follows this one, if there is one.
    pub open spec fn next(self) -> Option<LeaseEpoch> {
        if self.0 == u64::MAX {
            None
        } else {
            Some(LeaseEpoch((self.0 + 1) as u64))
        }
    }

    /// Returns the epoch that follows this one, or `None` where epochs are exhausted.
    pub fn checked_next(self) -> (r: Option<Self>)
        ensures
            r == self.next(),
    {
        match self.0.checked_add(1) {
            Some(v) => Some(Self(v)),
            None => None,
        }
    }
}

impl Default for LeaseEpoch {
    fn default() -> (r: Self)
        ensures
            r.0 == 0,
    {
        Self(0)
    }
}

/// Proof that a client may write a block during one lease epoch.
#[derive(Clone, Copy, Debug, PartialEq, Eq, Hash, Structural)]
pub struct FencingToken {
    pub block_id: BlockId,
    pub owner: ClientId,
    pub epoch: LeaseEpoch,
}

impl FencingToken {
    /// Creates a fencing token.
    pub fn new(block_id: BlockId, owner: ClientId, epoch: LeaseEpoch) -> (r: Self)
        ensures
            r == (FencingToken { block_id, owner, epoch }),
    {
        Self { block_id, owner, epoch }
    }
}

/// File and lease identity that a client presents on every write operation.
#[derive(Clone, Copy, Debug, PartialEq, Eq, Hash, Structural)]
pub struct WriteHandle {
    pub inode_id: InodeId,
    pub lease_epoch: LeaseEpoch,
}

} // verus!
