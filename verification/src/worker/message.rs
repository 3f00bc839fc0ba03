//! Wire messages between workers and the metadata service.

use vstd::prelude::*;

use crate::proto::message::{BlockIdProto, RequestHeaderProto, ResponseHeaderProto};

verus! {

/// Where a worker can be reached.
#[derive(Clone, Debug, PartialEq, Eq)]
pub struct EndpointProto {
    pub host: String,
    pub port: u32,
}

/// Free space of one tier.
#[derive(Clone, Copy, Debug, PartialEq, Eq, Structural)]
pub struct TierFreeProto {
    pub tier: i32,
    pub free_bytes: u64,
}

#[derive(Clone, Debug, PartialEq, Eq)]
pub struct CapacityInfoProto {
    pub total_bytes: u64,
    pub used_bytes: u64,
    pub available_bytes: u64,
    pub tier_free: Vec<TierFreeProto>,
}

#[derive(Clone, Copy, Debug, PartialEq, Eq, Structural)]
pub struct LoadInfoProto {
    pub active_reads: u32,
    pub active_writes: u32,
}

/// State of a reported block. A number that names no state counts as unspecified.
#[derive(Clone, Copy, Debug, PartialEq, Eq, Structural)]
pub enum ReportedBlockStateProto {
    ReportedBlockStateUnspecified,
    ReportedBlockStateReady,
    ReportedBlockStateCorrupt,
    ReportedBlockStateDeleting,
}

#[derive(Clone, Copy, Debug, PartialEq, Eq, Structural)]
pub struct ReportedBlockProto {
    pub block_id: Option<BlockIdProto>,
    pub lease_epoch: u64,
    pub state: ReportedBlockStateProto,
    pub effective_len: u64,
    pub tier: i32,
}

/// A block that is present or absent.
#[derive(Clone, Copy, Debug, PartialEq, Eq, Structural)]
pub enum Block {
    Present(ReportedBlockProto),
    Absent(BlockIdProto),
}

#[derive(Clone, Copy, Debug, PartialEq, Eq, Structural)]
pub struct DeltaBlockReportEntryProto {
    pub block: Option<Block>,
}

#[derive(Clone, Debug, PartialEq, Eq)]
pub struct FullBlockReportBatchProto {
    pub batch_seq: u64,
    pub final_batch: bool,
    pub blocks: Vec<ReportedBlockProto>,
}

#[derive(Clone, Debug, PartialEq, Eq)]
pub struct DeltaBlockReportBatchProto {
    pub batch_seq: u64,
    pub entries: Vec<DeltaBlockReportEntryProto>,
}

/// One batch of a block report.
#[derive(Clone, Debug, PartialEq, Eq)]
pub enum Batch {
    FullReport(FullBlockReportBatchProto),
    DeltaReport(DeltaBlockReportBatchProto),
}

#[derive(Clone, Copy, Debug, PartialEq, Eq, Structural)]
pub enum BlockReportKindProto {
    BlockReportKindUnspecified,
    BlockReportKindFull,
    BlockReportKindDelta,
}

#[derive(Clone, Debug, PartialEq, Eq)]
pub struct RegisterWorkerRequestProto {
    pub header: Option<RequestHeaderProto>,
    pub worker_id: u64,
    pub worker_run_id: String,
    pub advertised_endpoint: Option<EndpointProto>,
}

#[derive(Clone, Debug, PartialEq, Eq)]
pub struct HeartbeatRequestProto {
    pub header: Option<RequestHeaderProto>,
    pub worker_id: u64,
    pub worker_run_id: String,
    pub heartbeat_seq: u64,
    pub advertised_endpoint: Option<EndpointProto>,
    pub capacity: Option<CapacityInfoProto>,
    pub load: Option<LoadInfoProto>,
    pub health: i32,
}

#[derive(Clone, Debug, PartialEq, Eq)]
pub struct BlockReportRequestProto {
    pub header: Option<RequestHeaderProto>,
    pub worker_id: u64,
    pub worker_run_id: String,
    pub baseline_seq: u64,
    pub batch: Option<Batch>,
}

#[derive(Clone, Debug, PartialEq, Eq)]
pub struct RegisterWorkerResponseProto {
    pub header: Option<ResponseHeaderProto>,
    pub worker_id: u64,
    pub accepted_worker_run_id: String,
}

/// A block that the worker is to remove.
#[derive(Clone, Copy, Debug, PartialEq, Eq, Structural)]
pub struct BlockCleanupCommandProto {
    pub block_id: Option<BlockIdProto>,
}

#[derive(Clone, Debug, PartialEq, Eq)]
pub struct HeartbeatResponseProto {
    pub header: Option<ResponseHeaderProto>,
    pub worker_id: u64,
    pub accepted_worker_run_id: String,
    pub liveness_timeout_ms: u32,
    pub cleanup_commands: Vec<BlockCleanupCommandProto>,
}

#[derive(Clone, Debug, PartialEq, Eq)]
pub struct BlockReportResponseProto {
    pub header: Option<ResponseHeaderProto>,
    pub report_kind: BlockReportKindProto,
    pub baseline_seq: u64,
    pub next_batch_seq: u64,
    pub baseline_published: bool,
}

} // verus!
