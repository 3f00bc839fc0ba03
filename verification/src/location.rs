//! Shared read and write location values.

use vstd::prelude::*;

use crate::ids::BlockId;
use crate::layout::BlockFormatId;
use crate::lease::FencingToken;
use crate::worker_info::{
    copy_endpoints, endpoint_views, Tier, WorkerEndpointInfo, WorkerEndpointInfoView,
};

verus! {

/// Metadata-issued block identity, write locations, layout and fencing authority.
///
/// Worker locations say where the client may write; they do not prove that data
/// exists, is durable or is visible in the file.
#[derive(Debug, PartialEq, Eq)]
pub struct LocatedBlock {
    pub block_id: BlockId,
    /// Start of the block in the file, independent of its allocation index.
    pub file_offset: u64,
    /// Largest number of bytes that the block may hold.
    pub block_size: u64,
    /// Selected worker processes, unchanged when an allocation is replayed.
    pub worker_endpoints: Vec<WorkerEndpointInfo>,
    pub fencing_token: FencingToken,
    /// Block-local start of the next write.
    pub write_offset: u64,
    pub chunk_size: u32,
    pub block_format_id: BlockFormatId,
    pub tier: Tier,
}

/// The value of a `LocatedBlock`.
pub struct LocatedBlockView {
    pub block_id: BlockId,
    pub file_offset: u64,
    pub block_size: u64,
    pub worker_endpoints: Seq<WorkerEndpointInfoView>,
    pub fencing_token: FencingToken,
    pub write_offset: u64,
    pub chunk_size: u32,
    pub block_format_id: BlockFormatId,
    pub tier: Tier,
}

impl View for LocatedBlock {
    type V = LocatedBlockView;

    open spec fn view(&self) -> LocatedBlockView {
        LocatedBlockView {
            block_id: self.block_id,
            file_offset: self.file_offset,
            block_size: self.block_size,
            worker_endpoints: endpoint_views(self.worker_endpoints@),
            fencing_token: self.fencing_token,
            write_offset: self.write_offset,
            chunk_size: self.chunk_size,
            block_format_id: self.block_format_id,
            tier: self.tier,
        }
    }
}

impl Clone for LocatedBlock {
    fn clone(&self) -> (r: Self)
        ensures
            r@ == self@,
    {
        LocatedBlock {
            block_id: self.block_id,
            file_offset: self.file_offset,
            block_size: self.block_size,
            worker_endpoints: copy_endpoints(&self.worker_endpoints),
            fencing_token: self.fencing_token,
            write_offset: self.write_offset,
            chunk_size: self.chunk_size,
            block_format_id: self.block_format_id,
            tier: self.tier,
        }
    }
}

/// The values of a sequence of located blocks.
pub open spec fn located_views(blocks: Seq<LocatedBlock>) -> Seq<LocatedBlockView> {
    blocks.map_values(|b: LocatedBlock| b@)
}

/// Returns a copy of the located blocks.
pub fn copy_located(blocks: &Vec<LocatedBlock>) -> (r: Vec<LocatedBlock>)
    ensures
        located_views(r@) == located_views(blocks@),
{
    let mut out: Vec<LocatedBlock> = Vec::new();
    let mut i: usize = 0;
    while i < blocks.len()
        invariant
            i <= blocks@.len(),
            out@.len() == i,
            forall|k: int| 0 <= k < i ==> #[trigger] out@[k]@ == blocks@[k]@,
        decreases blocks.len() - i,
    {
        out.push(blocks[i].clone());
        i += 1;
    }
    assert(located_views(out@) =~= located_views(blocks@));
    out
}

/// Changed tail or new block included in a content publication.
#[derive(Clone, Copy, Debug, PartialEq, Eq, Hash, Structural)]
pub struct CommittedBlock {
    pub block_id: BlockId,
    /// Total block length, including the previously visible tail prefix.
    pub len: u64,
}

/// Readable location of one file range backed by a block.
#[derive(Debug, PartialEq, Eq)]
pub struct FileBlockLocation {
    pub block_id: BlockId,
    pub file_offset: u64,
    pub len: u64,
    /// Read candidates. Empty means that no live reported replica is eligible.
    pub workers: Vec<WorkerEndpointInfo>,
    pub block_format_id: BlockFormatId,
    /// Full logical block size of the file layout.
    pub block_size: u64,
    pub chunk_size: u32,
    /// Block-local readable prefix expected by metadata.
    pub effective_len: u64,
}

/// The value of a `FileBlockLocation`.
pub struct FileBlockLocationView {
    pub block_id: BlockId,
    pub file_offset: u64,
    pub len: u64,
    pub workers: Seq<WorkerEndpointInfoView>,
    pub block_format_id: BlockFormatId,
    pub block_size: u64,
    pub chunk_size: u32,
    pub effective_len: u64,
}

impl View for FileBlockLocation {
    type V = FileBlockLocationView;

    open spec fn view(&self) -> FileBlockLocationView {
        FileBlockLocationView {
            block_id: self.block_id,
            file_offset: self.file_offset,
            len: self.len,
            workers: endpoint_views(self.workers@),
            block_format_id: self.block_format_id,
            block_size: self.block_size,
            chunk_size: self.chunk_size,
            effective_len: self.effective_len,
        }
    }
}

} // verus!
