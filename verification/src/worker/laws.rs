//! What the service promises the workers that talk to it.

use vstd::prelude::*;

use crate::error::MetadataError;
use crate::filesystem::command::{ApplySuccess, Command, RaftReply};
use crate::group_watermark::RaftLogId;
use crate::ids::{group_name_parse, BlockId, GroupName, GroupNameError};
use crate::outside_uuid::{hyphenated_text, uuid_parse};
use crate::proto::message::{RequestHeaderProto, ResponseHeaderProto};
use crate::rpc_error::{
    ErrorKind, MetadataErrorKind, ProtocolErrorKind, RpcErrorDetail, WorkerErrorKind,
};
use crate::text::{decimal, trimmed};
use crate::wire::{optional_request_view, request_context_decode};
use crate::worker::message::{
    BlockReportKindProto, BlockReportRequestProto, BlockReportResponseProto,
    DeltaBlockReportEntryProto, EndpointProto, HeartbeatRequestProto, HeartbeatResponseProto,
    RegisterWorkerRequestProto, RegisterWorkerResponseProto, ReportedBlockProto,
    ReportedBlockStateProto, TierFreeProto,
};
use crate::worker::report::{
    block_report_kind, decode_delta_batch, decode_full_batch, first_bad_block, first_unknown_tier,
    parse_tier_free, proto_to_delta_entry, proto_to_report_block, BlockReportBlock,
    BlockReportChange,
};
use crate::worker::service::{
    block_report_response_with_header, confirm_registration, create_response_header_from_request,
    error_response_header_from_request, full_report_required_error, group_mismatch_error,
    heartbeat_response_with_header, invalid_request_error, merge_request_header_transport_context,
    metadata_worker_outcome_labels, need_register_error, publish_registration,
    refuse_recorded_heartbeat, refuse_report, register_worker_response_with_header,
    validate_advertised_endpoint, worker_descriptor_mismatch_error, worker_run_mismatch_error,
    BlockReport, ExtractedContext, HeartbeatMark, HeartbeatRefusal, HostKind, LiveRun,
    MetadataWorkerServiceImpl, ReportBatch, ReportProgress, WorkerDescriptor, WorkerHeartbeat,
    WorkerIdentity, WorkerRegistration,
};
use crate::worker_info::{BlockReportBlockState, Tier, TierFree, WorkerRunId, MAX_REPORT_ENTRIES};

verus! {

// ---- block reports ----

/// A block that is accepted is the block that was reported: with its identity, its writer epoch
/// and its length, in the state that was named, and with the tier of a ready block. A ready
/// block needs an epoch and a known tier, and every block an identity and a state.
pub proof fn an_accepted_block_is_what_was_reported(
    block: ReportedBlockProto,
    r: Result<BlockReportBlock, MetadataError>,
)
    requires
        block.block_id is Some ==> (block.block_id->0).inode_id != 0,
        call_ensures(proto_to_report_block, (block,), r),
    ensures
        ({
            let ready = block.state == ReportedBlockStateProto::ReportedBlockStateReady;
            &&& r is Ok <==> {
                &&& block.block_id is Some
                &&& block.state != ReportedBlockStateProto::ReportedBlockStateUnspecified
                &&& ready ==> block.lease_epoch != 0 && 1 <= block.tier <= 4
            }
            &&& r is Err ==> r->Err_0 is InvalidArgument
            &&& r is Ok ==> {
                let accepted = r->Ok_0;
                &&& accepted.block_id.inode_id.0 == (block.block_id->0).inode_id
                &&& accepted.block_id.index.0 == (block.block_id->0).block_index
                &&& accepted.lease_epoch == block.lease_epoch
                &&& accepted.effective_len == block.effective_len
                &&& accepted.block_state == BlockReportBlockState::Ready <==> ready
                &&& accepted.block_state == BlockReportBlockState::Corrupt <==> block.state
                    == ReportedBlockStateProto::ReportedBlockStateCorrupt
                &&& accepted.block_state == BlockReportBlockState::Deleting <==> block.state
                    == ReportedBlockStateProto::ReportedBlockStateDeleting
                &&& accepted.tier is Some <==> ready
                &&& ready ==> {
                    &&& accepted.tier == Some(Tier::Mem) <==> block.tier == 1
                    &&& accepted.tier == Some(Tier::Nvme) <==> block.tier == 2
                    &&& accepted.tier == Some(Tier::Ssd) <==> block.tier == 3
                    &&& accepted.tier == Some(Tier::Hdd) <==> block.tier == 4
                }
            }
        }),
{
}

/// A change that is accepted is the change that was reported: a block that is present is put in
/// as it was reported, and one that is absent is taken out.
pub proof fn an_accepted_change_is_what_was_reported(
    entry: DeltaBlockReportEntryProto,
    r: Result<BlockReportChange, MetadataError>,
)
    requires
        call_ensures(proto_to_delta_entry, (entry,), r),
    ensures
        match r {
            Ok(BlockReportChange::Upsert(accepted)) => {
                &&& entry.block is Some && entry.block->0 is Present
                &&& accepted.lease_epoch == (entry.block->0)->Present_0.lease_epoch
                &&& accepted.effective_len == (entry.block->0)->Present_0.effective_len
                &&& (entry.block->0)->Present_0.block_id is Some
                &&& accepted.block_state == BlockReportBlockState::Ready <==> (
                entry.block->0)->Present_0.state
                    == ReportedBlockStateProto::ReportedBlockStateReady
                &&& ((entry.block->0)->Present_0.block_id->0).inode_id != 0
                    ==> accepted.block_id.inode_id.0 == (
                (entry.block->0)->Present_0.block_id->0).inode_id && accepted.block_id.index.0 == (
                (entry.block->0)->Present_0.block_id->0).block_index
            },
            Ok(BlockReportChange::Remove(id)) => {
                &&& entry.block is Some && entry.block->0 is Absent
                &&& id.inode_id.0 == (entry.block->0)->Absent_0.inode_id
                &&& id.index.0 == (entry.block->0)->Absent_0.block_index
                &&& id.inode_id.0 != 0
            },
            Err(e) => {
                &&& e is InvalidArgument
                &&& entry.block is Some && entry.block->0 is Absent ==> (
                entry.block->0)->Absent_0.inode_id == 0
            },
        },
{
}

/// A full batch that is accepted holds every block that was reported, in order and as it was
/// reported, and no more than a batch may hold.
pub proof fn a_full_batch_keeps_every_block(
    blocks: &Vec<ReportedBlockProto>,
    accepted: Vec<BlockReportBlock>,
)
    requires
        forall|i: int|
            0 <= i < blocks@.len() && (#[trigger] blocks@[i]).block_id is Some ==> (
            blocks@[i].block_id->0).inode_id != 0,
        call_ensures(decode_full_batch, (blocks,), Ok(accepted)),
    ensures
        accepted@.len() == blocks@.len(),
        accepted@.len() <= MAX_REPORT_ENTRIES,
        forall|i: int|
            0 <= i < accepted@.len() ==> {
                let told = #[trigger] accepted@[i];
                &&& blocks@[i].block_id is Some
                &&& told.block_id.inode_id.0 == (blocks@[i].block_id->0).inode_id
                &&& told.block_id.index.0 == (blocks@[i].block_id->0).block_index
                &&& told.lease_epoch == blocks@[i].lease_epoch
                &&& told.effective_len == blocks@[i].effective_len
                &&& told.block_state == BlockReportBlockState::Ready <==> blocks@[i].state
                    == ReportedBlockStateProto::ReportedBlockStateReady
                &&& told.tier is Some <==> told.block_state == BlockReportBlockState::Ready
            },
{
    let reported = blocks@;
    assert(crate::worker::report::tells_blocks(reported, accepted@));
    assert forall|i: int| 0 <= i < accepted@.len() implies {
        let told = #[trigger] accepted@[i];
        &&& reported[i].block_id is Some
        &&& told.block_id.inode_id.0 == (reported[i].block_id->0).inode_id
        &&& told.block_id.index.0 == (reported[i].block_id->0).block_index
        &&& told.lease_epoch == reported[i].lease_epoch
        &&& told.effective_len == reported[i].effective_len
        &&& told.block_state == BlockReportBlockState::Ready <==> reported[i].state
            == ReportedBlockStateProto::ReportedBlockStateReady
        &&& told.tier is Some <==> told.block_state == BlockReportBlockState::Ready
    } by {
        assert(crate::worker::report::report_block(reported[i]) == Ok::<
            BlockReportBlock,
            crate::error::MetadataErrorView,
        >(accepted@[i]));
    }
}

/// A delta batch that is accepted holds every change that was reported, in order: a block that
/// is present with its length and epoch, and one that is absent by its identity.
pub proof fn a_delta_batch_keeps_every_change(
    entries: &Vec<DeltaBlockReportEntryProto>,
    accepted: Vec<BlockReportChange>,
)
    requires
        call_ensures(decode_delta_batch, (entries,), Ok(accepted)),
    ensures
        0 < accepted@.len() <= MAX_REPORT_ENTRIES,
        accepted@.len() == entries@.len(),
        forall|i: int|
            0 <= i < accepted@.len() ==> {
                let reported = entries@[i].block;
                match #[trigger] accepted@[i] {
                    BlockReportChange::Upsert(told) => {
                        &&& reported is Some && reported->0 is Present
                        &&& told.lease_epoch == (reported->0)->Present_0.lease_epoch
                        &&& told.effective_len == (reported->0)->Present_0.effective_len
                    },
                    BlockReportChange::Remove(id) => {
                        &&& reported is Some && reported->0 is Absent
                        &&& id.inode_id.0 == (reported->0)->Absent_0.inode_id
                        &&& id.index.0 == (reported->0)->Absent_0.block_index
                    },
                }
            },
{
    let reported = entries@;
    assert(crate::worker::report::tells_changes(reported, accepted@));
    assert forall|i: int| 0 <= i < accepted@.len() implies {
        let told = reported[i].block;
        match #[trigger] accepted@[i] {
            BlockReportChange::Upsert(b) => {
                &&& told is Some && told->0 is Present
                &&& b.lease_epoch == (told->0)->Present_0.lease_epoch
                &&& b.effective_len == (told->0)->Present_0.effective_len
            },
            BlockReportChange::Remove(id) => {
                &&& told is Some && told->0 is Absent
                &&& id.inode_id.0 == (told->0)->Absent_0.inode_id
                &&& id.index.0 == (told->0)->Absent_0.block_index
            },
        }
    } by {
        assert(crate::worker::report::report_change(reported[i]) == Ok::<
            BlockReportChange,
            crate::error::MetadataErrorView,
        >(accepted@[i]));
    }
}

/// Batches that are too large are refused, and so is a delta batch without a change.
pub proof fn batches_have_a_size(
    blocks: &Vec<ReportedBlockProto>,
    entries: &Vec<DeltaBlockReportEntryProto>,
    full: Result<Vec<BlockReportBlock>, MetadataError>,
    delta: Result<Vec<BlockReportChange>, MetadataError>,
)
    requires
        call_ensures(decode_full_batch, (blocks,), full),
        call_ensures(decode_delta_batch, (entries,), delta),
    ensures
        blocks@.len() > MAX_REPORT_ENTRIES ==> full is Err && full->Err_0 is ResourceExhausted,
        blocks@.len() == 0 ==> full is Ok,
        entries@.len() > MAX_REPORT_ENTRIES ==> delta is Err && delta->Err_0 is ResourceExhausted,
        entries@.len() == 0 ==> delta is Err && delta->Err_0 is InvalidArgument,
{
}

proof fn lemma_no_unknown_tier(entries: Seq<TierFreeProto>, from: int)
    requires
        0 <= from <= entries.len(),
    ensures
        first_unknown_tier(entries, from) is None <==> forall|i: int|
            from <= i < entries.len() ==> 1 <= (#[trigger] entries[i]).tier <= 4,
        first_unknown_tier(entries, from) is Some ==> from <= first_unknown_tier(entries, from)->0
            < entries.len(),
    decreases entries.len() - from,
{
    if from < entries.len() {
        lemma_no_unknown_tier(entries, from + 1);
        assert(entries[from].tier == entries[from].tier);
    }
}

/// The free space of a worker is told tier by tier, in order and byte for byte. A tier that is
/// not known refuses it.
pub proof fn free_space_is_told_by_tier(
    entries: &Vec<TierFreeProto>,
    r: Result<Vec<TierFree>, String>,
)
    requires
        call_ensures(parse_tier_free, (entries,), r),
    ensures
        r is Ok ==> {
            &&& (r->Ok_0)@.len() == entries@.len()
            &&& forall|i: int|
                0 <= i < entries@.len() ==> {
                    let told = #[trigger] (r->Ok_0)@[i];
                    &&& told.free_bytes == entries@[i].free_bytes
                    &&& told.tier == Tier::Mem <==> entries@[i].tier == 1
                    &&& told.tier == Tier::Nvme <==> entries@[i].tier == 2
                    &&& told.tier == Tier::Ssd <==> entries@[i].tier == 3
                    &&& told.tier == Tier::Hdd <==> entries@[i].tier == 4
                }
        },
        r is Err ==> exists|i: int|
            0 <= i < entries@.len() && !(1 <= (#[trigger] entries@[i]).tier <= 4),
{
    let raw = entries@;
    lemma_no_unknown_tier(raw, 0);
    if r is Ok {
        let free = (r->Ok_0)@;
        assert(crate::worker::report::tells_free_space(raw, free));
        assert forall|i: int| 0 <= i < raw.len() implies {
            let told = #[trigger] free[i];
            &&& told.free_bytes == raw[i].free_bytes
            &&& told.tier == Tier::Mem <==> raw[i].tier == 1
            &&& told.tier == Tier::Nvme <==> raw[i].tier == 2
            &&& told.tier == Tier::Ssd <==> raw[i].tier == 3
            &&& told.tier == Tier::Hdd <==> raw[i].tier == 4
        } by {
            assert(free[i].free_bytes == raw[i].free_bytes);
        }
    }
}

/// A report that may be applied comes from the worker and the process that the request names,
/// in the group that is served. It carries the baseline and the batch of the request: a full
/// batch as a full one, with its number and whether it is the last one, and a delta as a delta.
pub proof fn an_admitted_report_is_the_request(
    service: &MetadataWorkerServiceImpl,
    req: &BlockReportRequestProto,
    report: BlockReport,
)
    requires
        call_ensures(MetadataWorkerServiceImpl::admit_block_report, (service, req), Ok(report)),
    ensures
        report.identity.worker_id.0 == req.worker_id,
        req.worker_id != 0,
        report.identity.group_name@ == service.served_group_name@,
        uuid_parse(req.worker_run_id@) == Ok::<u128, Seq<char>>(report.identity.worker_run_id.0),
        req.header is Some,
        group_name_parse((req.header->0).group_name@) == Ok::<Seq<char>, GroupNameError>(
            service.served_group_name@,
        ),
        report.baseline_seq == req.baseline_seq,
        req.baseline_seq != 0,
        req.batch is Some,
        match report.batch {
            ReportBatch::Full { batch_seq, final_batch, blocks } => {
                let full = (req.batch->0)->FullReport_0;
                &&& req.batch->0 is FullReport
                &&& batch_seq == full.batch_seq
                &&& final_batch == full.final_batch
                &&& blocks@.len() == full.blocks@.len()
                &&& forall|i: int|
                    0 <= i < blocks@.len() ==> (#[trigger] blocks@[i]).effective_len
                        == full.blocks@[i].effective_len && blocks@[i].lease_epoch
                        == full.blocks@[i].lease_epoch
            },
            ReportBatch::Delta { batch_seq, changes } => {
                let delta = (req.batch->0)->DeltaReport_0;
                &&& req.batch->0 is DeltaReport
                &&& batch_seq == delta.batch_seq
                &&& changes@.len() == delta.entries@.len()
                &&& forall|i: int|
                    0 <= i < changes@.len() ==> (#[trigger] changes@[i] is Upsert
                        <==> delta.entries@[i].block is Some
                        && delta.entries@[i].block->0 is Present)
            },
        },
{
    match report.batch {
        ReportBatch::Full { blocks, .. } => {
            let full = (req.batch->0)->FullReport_0.blocks@;
            let told = blocks@;
            assert forall|i: int| 0 <= i < told.len() implies (#[trigger] told[i]).effective_len
                == full[i].effective_len && told[i].lease_epoch == full[i].lease_epoch by {
                assert(crate::worker::report::report_block(full[i]) == Ok::<
                    BlockReportBlock,
                    crate::error::MetadataErrorView,
                >(told[i]));
            }
        },
        ReportBatch::Delta { changes, .. } => {
            let entries = (req.batch->0)->DeltaReport_0.entries@;
            let told = changes@;
            assert forall|i: int| 0 <= i < told.len() implies (#[trigger] told[i] is Upsert
                <==> entries[i].block is Some && entries[i].block->0 is Present) by {
                assert(crate::worker::report::report_change(entries[i]) == Ok::<
                    BlockReportChange,
                    crate::error::MetadataErrorView,
                >(told[i]));
            }
        },
    }
}

/// A report is answered with what applying it gave: its kind, its baseline, the number of the
/// next batch, and whether the baseline is complete, which it is for every delta. A report that
/// was not applied is answered with an error and nothing else.
pub proof fn a_report_is_answered_with_its_progress(
    service: &MetadataWorkerServiceImpl,
    req_header: &Option<RequestHeaderProto>,
    report: &BlockReport,
    applied: Result<ReportProgress, MetadataError>,
    leader_state: Option<RaftLogId>,
    r: BlockReportResponseProto,
)
    requires
        call_ensures(
            MetadataWorkerServiceImpl::block_report_response,
            (service, req_header, report, applied, leader_state),
            r,
        ),
    ensures
        r.header is Some,
        (r.header->0).error is None <==> applied is Ok,
        applied is Ok ==> {
            &&& r.report_kind == BlockReportKindProto::BlockReportKindFull
                <==> report.batch is Full
            &&& r.report_kind == BlockReportKindProto::BlockReportKindDelta
                <==> report.batch is Delta
            &&& r.baseline_seq == report.baseline_seq
            &&& r.next_batch_seq == (applied->Ok_0).next_batch_seq
            &&& report.batch is Delta ==> r.baseline_published
            &&& report.batch is Full ==> r.baseline_published == (
            applied->Ok_0).baseline_published
            &&& (r.header->0).group_name@ == report.identity.group_name@
        },
        applied is Err ==> r.baseline_seq == 0 && r.next_batch_seq == 0 && !r.baseline_published,
{
    let header = r.header->0;
    assert(header@.error is Some <==> header.error is Some);
}

/// A report that could not be applied tells the worker what to do: to register where it or its
/// process is not known, and to send a full report where one is due.
pub proof fn a_refused_report_tells_what_to_do(error: &MetadataError, r: RpcErrorDetail)
    requires
        call_ensures(refuse_report, (error,), r),
    ensures
        r.message@ == error@.text,
        *error is NotFound ==> r.kind == ErrorKind::Worker(WorkerErrorKind::NotRegistered)
            && r.recovery is RegisterWorker,
        *error is StaleState ==> r.kind == ErrorKind::Worker(WorkerErrorKind::RunMismatch)
            && r.recovery is RegisterWorker,
        *error is FullReportRequired ==> r.kind == ErrorKind::Worker(
            WorkerErrorKind::FullReportRequired,
        ) && r.recovery is SendFullBlockReport,
        r.recovery is RegisterWorker ==> *error is NotFound || *error is StaleState,
{
}

// ---- heartbeats ----

/// A heartbeat that is well formed comes from the worker and the process that the request names,
/// in the group that is served, with the number, the address and the free space of the request.
pub proof fn an_admitted_heartbeat_is_the_request(
    service: &MetadataWorkerServiceImpl,
    req: &HeartbeatRequestProto,
    host: HostKind,
    heartbeat: WorkerHeartbeat,
)
    requires
        call_ensures(
            MetadataWorkerServiceImpl::admit_heartbeat,
            (service, req, host),
            Ok(heartbeat),
        ),
    ensures
        heartbeat.identity.worker_id.0 == req.worker_id,
        req.worker_id != 0,
        heartbeat.identity.group_name@ == service.served_group_name@,
        uuid_parse(req.worker_run_id@) == Ok::<u128, Seq<char>>(
            heartbeat.identity.worker_run_id.0,
        ),
        req.header is Some,
        group_name_parse((req.header->0).group_name@) == Ok::<Seq<char>, GroupNameError>(
            service.served_group_name@,
        ),
        heartbeat.heartbeat_seq == req.heartbeat_seq,
        req.capacity is Some,
        req.load is Some,
        req.advertised_endpoint is Some,
        ({
            let endpoint = req.advertised_endpoint->0;
            &&& 0 < endpoint.port <= 65535
            &&& !(host is Address && host->is_unspecified)
            &&& !(host is Address && host->is_v6) ==> heartbeat.address@ == endpoint.host@ + ":"@
                + decimal(endpoint.port as nat)
            &&& host is Address && host->is_v6 ==> heartbeat.address@ == "["@ + endpoint.host@
                + "]:"@ + decimal(endpoint.port as nat)
        }),
        heartbeat.tier_free@.len() == (req.capacity->0).tier_free@.len(),
        forall|i: int|
            0 <= i < heartbeat.tier_free@.len() ==> (#[trigger] heartbeat.tier_free@[i]).free_bytes
                == (req.capacity->0).tier_free@[i].free_bytes,
{
    let raw = (req.capacity->0).tier_free@;
    let free = heartbeat.tier_free@;
    assert(crate::worker::report::tells_free_space(raw, free));
}

/// A heartbeat fits if and only if its worker is described and registered, its process is the
/// registered one, and its address and protocol are the described ones. Otherwise the worker is
/// told to register, and why.
pub proof fn a_heartbeat_fits_its_registration(
    service: &MetadataWorkerServiceImpl,
    heartbeat: &WorkerHeartbeat,
    descriptor: &Option<WorkerDescriptor>,
    registered_run: Option<WorkerRunId>,
    r: Result<(), HeartbeatRefusal>,
)
    requires
        call_ensures(
            MetadataWorkerServiceImpl::check_heartbeat,
            (service, heartbeat, descriptor, registered_run),
            r,
        ),
    ensures
        ({
            let known = *descriptor is Some && registered_run is Some;
            let same_run = known && registered_run->0 == heartbeat.identity.worker_run_id;
            let same_place = known && ((*descriptor)->0).address@ == heartbeat.address@ && (
            (*descriptor)->0).worker_net_protocol == 1;
            &&& r is Ok <==> same_run && same_place
            &&& r is Err ==> r->Err_0.error.recovery is RegisterWorker
            &&& !known ==> r->Err_0.error.kind == ErrorKind::Worker(
                WorkerErrorKind::NotRegistered,
            ) && r->Err_0.mark == HeartbeatMark::NeedRegister
            &&& known && !same_run ==> r->Err_0.error.kind == ErrorKind::Worker(
                WorkerErrorKind::RunMismatch,
            ) && r->Err_0.mark == HeartbeatMark::RunMismatch
            &&& same_run && !same_place ==> r->Err_0.error.kind == ErrorKind::Worker(
                WorkerErrorKind::DescriptorMismatch,
            ) && r->Err_0.mark == HeartbeatMark::Nothing
        }),
{
}

/// A heartbeat that could not be recorded tells the worker to register where it or its process
/// is not known, or its description does not fit.
pub proof fn an_unrecorded_heartbeat_tells_what_to_do(error: &MetadataError, r: HeartbeatRefusal)
    requires
        call_ensures(refuse_recorded_heartbeat, (error,), r),
    ensures
        r.error.message@ == error@.text,
        *error is NotFound ==> r.error.kind == ErrorKind::Worker(WorkerErrorKind::NotRegistered)
            && r.mark == HeartbeatMark::NeedRegister,
        *error is StaleState ==> r.error.kind == ErrorKind::Worker(WorkerErrorKind::RunMismatch)
            && r.mark == HeartbeatMark::RunMismatch,
        *error is InvalidArgument ==> r.error.kind == ErrorKind::Worker(
            WorkerErrorKind::DescriptorMismatch,
        ) && r.mark == HeartbeatMark::Nothing,
        r.error.recovery is RegisterWorker <==> *error is NotFound || *error is StaleState
            || *error is InvalidArgument,
        r.mark == HeartbeatMark::NeedRegister <==> *error is NotFound,
        r.mark == HeartbeatMark::RunMismatch <==> *error is StaleState,
{
}

/// An accepted heartbeat is answered with the worker and the process that are alive, how long
/// they count as alive, and the blocks to remove, in order and by their own identities.
pub proof fn an_accepted_heartbeat_is_answered(
    service: &MetadataWorkerServiceImpl,
    req_header: &Option<RequestHeaderProto>,
    identity: &WorkerIdentity,
    cleanup: &Vec<BlockId>,
    leader_state: Option<RaftLogId>,
    r: HeartbeatResponseProto,
)
    requires
        call_ensures(
            MetadataWorkerServiceImpl::heartbeat_response,
            (service, req_header, identity, cleanup, leader_state),
            r,
        ),
    ensures
        r.header is Some,
        (r.header->0).error is None,
        (r.header->0).group_name@ == identity.group_name@,
        r.worker_id == identity.worker_id.0,
        r.accepted_worker_run_id@ == hyphenated_text(identity.worker_run_id.0),
        r.liveness_timeout_ms == service.liveness_timeout_ms,
        r.cleanup_commands@.len() == cleanup@.len(),
        forall|i: int|
            0 <= i < cleanup@.len() ==> {
                let told = (#[trigger] r.cleanup_commands@[i]).block_id;
                &&& told is Some
                &&& (told->0).inode_id == cleanup@[i].inode_id.0
                &&& (told->0).block_index == cleanup@[i].index.0
            },
{
    let header = r.header->0;
    assert(header@.error is Some <==> header.error is Some);
    let commands = r.cleanup_commands@;
    let blocks = cleanup@;
    assert(crate::worker::service::names_blocks(commands, blocks));
    assert forall|i: int| 0 <= i < blocks.len() implies {
        let told = (#[trigger] commands[i]).block_id;
        &&& told is Some
        &&& (told->0).inode_id == blocks[i].inode_id.0
        &&& (told->0).block_index == blocks[i].index.0
    } by {
        assert(commands[i].block_id == Some(crate::proto::convert::block_id_encode(blocks[i])));
    }
}

// ---- registration ----

/// A registration that may be proposed comes from the worker and the process that the request
/// names, in the group that is served, to its leader, with the address that was advertised.
pub proof fn an_admitted_registration_is_the_request(
    service: &MetadataWorkerServiceImpl,
    req: &RegisterWorkerRequestProto,
    is_leader: bool,
    host: HostKind,
    registration: WorkerRegistration,
)
    requires
        call_ensures(
            MetadataWorkerServiceImpl::admit_registration,
            (service, req, is_leader, host),
            Ok(registration),
        ),
    ensures
        is_leader,
        registration.identity.worker_id.0 == req.worker_id,
        req.worker_id != 0,
        registration.identity.group_name@ == service.served_group_name@,
        uuid_parse(req.worker_run_id@) == Ok::<u128, Seq<char>>(
            registration.identity.worker_run_id.0,
        ),
        req.header is Some,
        group_name_parse((req.header->0).group_name@) == Ok::<Seq<char>, GroupNameError>(
            service.served_group_name@,
        ),
        req.advertised_endpoint is Some,
        ({
            let endpoint = req.advertised_endpoint->0;
            &&& 0 < endpoint.port <= 65535
            &&& !(host is Address && host->is_unspecified)
            &&& !(host is Address && host->is_v6) ==> registration.address@ == endpoint.host@
                + ":"@ + decimal(endpoint.port as nat)
            &&& host is Address && host->is_v6 ==> registration.address@ == "["@ + endpoint.host@
                + "]:"@ + decimal(endpoint.port as nat)
        }),
{
}

/// What is proposed for a registration makes its worker durable: in its group, by its number, at
/// its address, with the one protocol. It is proposed where the worker tables agree.
pub proof fn a_registration_proposes_its_worker(
    service: &MetadataWorkerServiceImpl,
    registration: &WorkerRegistration,
    preflight: Result<(), MetadataError>,
    r: Result<Command, RpcErrorDetail>,
)
    requires
        call_ensures(
            MetadataWorkerServiceImpl::propose_registration,
            (service, registration, preflight),
            r,
        ),
    ensures
        r is Ok <==> preflight is Ok,
        match r {
            Ok(
                Command::RegisterWorkerDescriptor {
                    group_name,
                    worker_id,
                    address,
                    worker_net_protocol,
                },
            ) => {
                &&& group_name@ == registration.identity.group_name@
                &&& worker_id == registration.identity.worker_id
                &&& address@ == registration.address@
                &&& worker_net_protocol == 1
            },
            Ok(_) => false,
            Err(e) => e.message@ == (preflight->Err_0)@.text,
        },
{
}

/// A run is confirmed if and only if applying its registration returned its own worker, and it
/// is the run that was registered. Making it live tells the same worker and process.
pub proof fn a_confirmed_run_is_what_was_registered(
    registration: WorkerRegistration,
    reply: RaftReply,
    confirmed: Result<LiveRun, RpcErrorDetail>,
    run: LiveRun,
    published: Result<(), MetadataError>,
    told: Result<WorkerIdentity, RpcErrorDetail>,
)
    requires
        call_ensures(confirm_registration, (registration, reply), confirmed),
        call_ensures(publish_registration, (run, published), told),
    ensures
        confirmed is Ok <==> reply == Ok::<ApplySuccess, MetadataError>(
            ApplySuccess::WorkerUpserted(registration.identity.worker_id),
        ),
        confirmed is Ok ==> {
            let live = (confirmed->Ok_0)@;
            &&& live.identity.group_name == registration.identity.group_name@
            &&& live.identity.worker_id == registration.identity.worker_id
            &&& live.identity.worker_run_id == registration.identity.worker_run_id
            &&& live.address == registration.address@
        },
        reply is Err ==> (confirmed->Err_0).message@ == (reply->Err_0)@.text,
        told is Ok <==> published is Ok,
        told is Ok ==> {
            &&& (told->Ok_0).worker_id == run@.identity.worker_id
            &&& (told->Ok_0).worker_run_id == run@.identity.worker_run_id
            &&& (told->Ok_0).group_name@ == run@.identity.group_name
        },
{
}

/// A registered worker is answered with its number, its process and its group, and without an
/// error. A refused one is answered with the error, and with neither a number nor a process.
pub proof fn a_registration_is_answered(
    service: &MetadataWorkerServiceImpl,
    req_header: &Option<RequestHeaderProto>,
    outcome: &Result<WorkerIdentity, RpcErrorDetail>,
    leader_state: Option<RaftLogId>,
    r: RegisterWorkerResponseProto,
)
    requires
        call_ensures(
            MetadataWorkerServiceImpl::registration_response,
            (service, req_header, outcome, leader_state),
            r,
        ),
    ensures
        r.header is Some,
        (r.header->0).error is None <==> *outcome is Ok,
        *outcome is Ok ==> {
            let identity = (*outcome)->Ok_0;
            &&& r.worker_id == identity.worker_id.0
            &&& r.accepted_worker_run_id@ == hyphenated_text(identity.worker_run_id.0)
            &&& uuid_parse(r.accepted_worker_run_id@) == Ok::<u128, Seq<char>>(
                identity.worker_run_id.0,
            )
            &&& (r.header->0).group_name@ == identity.group_name@
        },
        *outcome is Err ==> {
            &&& r.worker_id == 0
            &&& r.accepted_worker_run_id@.len() == 0
            &&& ((r.header->0).error->0).message@ == ((*outcome)->Err_0).message@
        },
{
    let header = r.header->0;
    assert(header@.error is Some <==> header.error is Some);
}

/// An advertised address is the host and the port of its endpoint, with brackets round an IPv6
/// host. It needs a host that is not the wildcard, and a port.
pub proof fn an_advertised_address_names_its_endpoint(
    endpoint: &EndpointProto,
    host: HostKind,
    r: Result<String, String>,
)
    requires
        call_ensures(validate_advertised_endpoint, (endpoint, host), r),
    ensures
        r is Ok ==> {
            &&& 0 < endpoint.port <= 65535
            &&& !(host is Address && host->is_unspecified)
            &&& !(host is Address && host->is_v6) ==> (r->Ok_0)@ == endpoint.host@ + ":"@
                + decimal(endpoint.port as nat)
            &&& host is Address && host->is_v6 ==> (r->Ok_0)@ == "["@ + endpoint.host@ + "]:"@
                + decimal(endpoint.port as nat)
        },
        0 < endpoint.port <= 65535 && !(host is Address && host->is_unspecified)
            && crate::text::trimmed(endpoint.host@).len() > 0 ==> r is Ok,
{
}

// ---- headers and labels ----

/// A trace context of the header stays, and what it does not name comes from the transport. The
/// rest of the header is not touched.
pub proof fn the_header_goes_before_the_transport(
    header: &mut Option<RequestHeaderProto>,
    context: &ExtractedContext,
)
    requires
        call_ensures(merge_request_header_transport_context, (header, context), ()),
    ensures
        *old(header) is None <==> *final(header) is None,
        *old(header) is Some ==> {
            let before = (*old(header))->0;
            let after = (*final(header))->0;
            let named = before.trace_context;
            &&& after.group_name@ == before.group_name@
            &&& after.mount_epoch == before.mount_epoch
            &&& after.route_epoch == before.route_epoch
            &&& after.deadline_ms == before.deadline_ms
            &&& named is Some && (named->0).traceparent is Some ==> {
                &&& after.trace_context is Some
                &&& (after.trace_context->0).traceparent is Some
                &&& ((after.trace_context->0).traceparent->0)@ == ((named->0).traceparent->0)@
            }
            &&& named is None && context.traceparent is Some ==> {
                &&& after.trace_context is Some
                &&& (after.trace_context->0).traceparent is Some
                &&& ((after.trace_context->0).traceparent->0)@ == (context.traceparent->0)@
            }
            &&& named is Some && (named->0).baggage is Some ==> {
                &&& after.trace_context is Some
                &&& (after.trace_context->0).baggage is Some
                &&& ((after.trace_context->0).baggage->0)@ == ((named->0).baggage->0)@
            }
            &&& named is Some && (named->0).tracestate is Some ==> {
                &&& after.trace_context is Some
                &&& (after.trace_context->0).tracestate is Some
                &&& ((after.trace_context->0).tracestate->0)@ == ((named->0).tracestate->0)@
            }
        },
{
    if *old(header) is Some {
        let before = (*old(header))->0;
        let after = (*final(header))->0;
        assert(before@.trace_context is Some <==> before.trace_context is Some);
        assert(after@.trace_context is Some <==> after.trace_context is Some);
    }
}

/// A refused request is answered with the error that refused it: its kind and its wording.
pub proof fn a_refusal_is_told_in_the_header(
    req_header: &Option<RequestHeaderProto>,
    error: &RpcErrorDetail,
    leader_state: Option<RaftLogId>,
    r: ResponseHeaderProto,
)
    requires
        call_ensures(error_response_header_from_request, (req_header, error, leader_state), r),
    ensures
        r.error is Some,
        (r.error->0).message@ == error.message@,
        (r.error->0).kind == Some(crate::proto::error_kind::error_kind_encode(error.kind)),
        r.mount_epoch is None,
        r.route_epoch is None,
{
    assert(r@.error is Some <==> r.error is Some);
}

/// An answer that only refuses carries its header and nothing else.
pub proof fn refusals_carry_only_their_header(
    header: ResponseHeaderProto,
    registration: RegisterWorkerResponseProto,
    heartbeat: HeartbeatResponseProto,
    report: BlockReportResponseProto,
)
    requires
        call_ensures(register_worker_response_with_header, (header,), registration),
        call_ensures(heartbeat_response_with_header, (header,), heartbeat),
        call_ensures(block_report_response_with_header, (header,), report),
    ensures
        registration.header == Some(header),
        registration.worker_id == 0,
        heartbeat.header == Some(header),
        heartbeat.worker_id == 0,
        heartbeat.cleanup_commands@.len() == 0,
        report.header == Some(header),
        report.next_batch_seq == 0,
        !report.baseline_published,
{
}

/// Every refusal of a worker has its own kind, and asks for what helps.
pub proof fn worker_refusals_are_told_apart(
    message: String,
    invalid: RpcErrorDetail,
    group: RpcErrorDetail,
    unknown: RpcErrorDetail,
    run: RpcErrorDetail,
    descriptor: RpcErrorDetail,
    report: RpcErrorDetail,
)
    requires
        call_ensures(invalid_request_error, (message,), invalid),
        call_ensures(group_mismatch_error, (message,), group),
        call_ensures(need_register_error, (message,), unknown),
        call_ensures(worker_run_mismatch_error, (message,), run),
        call_ensures(worker_descriptor_mismatch_error, (message,), descriptor),
        call_ensures(full_report_required_error, (message,), report),
    ensures
        invalid.kind == ErrorKind::Protocol(ProtocolErrorKind::InvalidArgument),
        invalid.recovery is Fail,
        group.kind == ErrorKind::Metadata(MetadataErrorKind::GroupMismatch),
        group.recovery is Fail,
        unknown.kind == ErrorKind::Worker(WorkerErrorKind::NotRegistered),
        unknown.recovery is RegisterWorker,
        run.kind == ErrorKind::Worker(WorkerErrorKind::RunMismatch),
        run.recovery is RegisterWorker,
        descriptor.kind == ErrorKind::Worker(WorkerErrorKind::DescriptorMismatch),
        descriptor.recovery is RegisterWorker,
        report.kind == ErrorKind::Worker(WorkerErrorKind::FullReportRequired),
        report.recovery is SendFullBlockReport,
        invalid.message@ == message@ && group.message@ == message@ && unknown.message@ == message@,
        run.message@ == message@ && descriptor.message@ == message@ && report.message@ == message@,
{
}

/// A worker that asks another group, or names no worker or no process, is refused, whatever it
/// asks for.
pub proof fn workers_of_other_groups_are_refused(
    service: &MetadataWorkerServiceImpl,
    heartbeat: &HeartbeatRequestProto,
    registration: &RegisterWorkerRequestProto,
    is_leader: bool,
    host: HostKind,
    h: Result<WorkerHeartbeat, RpcErrorDetail>,
    r: Result<WorkerRegistration, RpcErrorDetail>,
)
    requires
        call_ensures(MetadataWorkerServiceImpl::admit_heartbeat, (service, heartbeat, host), h),
        call_ensures(
            MetadataWorkerServiceImpl::admit_registration,
            (service, registration, is_leader, host),
            r,
        ),
    ensures
        heartbeat.header is None ==> h is Err,
        heartbeat.worker_id == 0 ==> h is Err,
        heartbeat.worker_run_id@.len() == 0 ==> h is Err,
        heartbeat.header is Some && group_name_parse((heartbeat.header->0).group_name@) != Ok::<
            Seq<char>,
            GroupNameError,
        >(service.served_group_name@) ==> h is Err,
        registration.header is None ==> r is Err,
        registration.worker_id == 0 ==> r is Err,
        registration.worker_run_id@.len() == 0 ==> r is Err,
        !is_leader ==> r is Err,
        registration.header is Some && group_name_parse(
            (registration.header->0).group_name@,
        ) != Ok::<Seq<char>, GroupNameError>(service.served_group_name@) ==> r is Err,
{
}

// ---- what is owed ----

/// A registration that is in order is admitted: it comes to the leader, with a valid header for
/// the group that is served, a worker, a process and an endpoint that can be reached.
pub proof fn a_registration_in_order_is_admitted(
    service: &MetadataWorkerServiceImpl,
    req: &RegisterWorkerRequestProto,
    host: HostKind,
    r: Result<WorkerRegistration, RpcErrorDetail>,
)
    requires
        call_ensures(MetadataWorkerServiceImpl::admit_registration, (service, req, true, host), r),
        request_context_decode(optional_request_view(req.header)) is Ok,
        req.header is Some,
        group_name_parse((req.header->0).group_name@) == Ok::<Seq<char>, GroupNameError>(
            service.served_group_name@,
        ),
        req.worker_id != 0,
        req.worker_run_id@.len() > 0,
        uuid_parse(req.worker_run_id@) is Ok && uuid_parse(req.worker_run_id@)->Ok_0 != 0,
        req.advertised_endpoint is Some,
        trimmed((req.advertised_endpoint->0).host@).len() > 0,
        0 < (req.advertised_endpoint->0).port <= 65535,
        !(host is Address && host->is_unspecified),
    ensures
        r is Ok,
{
}

/// A heartbeat that is in order is admitted: it has a valid header for the group that is served,
/// a worker, a process, its load, its free space by known tiers, and an endpoint that can be
/// reached.
pub proof fn a_heartbeat_in_order_is_admitted(
    service: &MetadataWorkerServiceImpl,
    req: &HeartbeatRequestProto,
    host: HostKind,
    r: Result<WorkerHeartbeat, RpcErrorDetail>,
)
    requires
        call_ensures(MetadataWorkerServiceImpl::admit_heartbeat, (service, req, host), r),
        request_context_decode(optional_request_view(req.header)) is Ok,
        req.header is Some,
        group_name_parse((req.header->0).group_name@) == Ok::<Seq<char>, GroupNameError>(
            service.served_group_name@,
        ),
        req.worker_id != 0,
        req.worker_run_id@.len() > 0,
        uuid_parse(req.worker_run_id@) is Ok && uuid_parse(req.worker_run_id@)->Ok_0 != 0,
        req.capacity is Some,
        forall|i: int|
            0 <= i < (req.capacity->0).tier_free@.len() ==> 1 <= (
            #[trigger] (req.capacity->0).tier_free@[i]).tier <= 4,
        req.load is Some,
        req.advertised_endpoint is Some,
        trimmed((req.advertised_endpoint->0).host@).len() > 0,
        0 < (req.advertised_endpoint->0).port <= 65535,
        !(host is Address && host->is_unspecified),
    ensures
        r is Ok,
{
    lemma_no_unknown_tier((req.capacity->0).tier_free@, 0);
}

proof fn lemma_good_blocks(blocks: Seq<ReportedBlockProto>, from: int)
    requires
        0 <= from <= blocks.len(),
        forall|i: int|
            0 <= i < blocks.len() ==> {
                let block = #[trigger] blocks[i];
                &&& block.block_id is Some
                &&& block.state != ReportedBlockStateProto::ReportedBlockStateUnspecified
                &&& block.state == ReportedBlockStateProto::ReportedBlockStateReady
                    ==> block.lease_epoch != 0 && 1 <= block.tier <= 4
            },
    ensures
        first_bad_block(blocks, from) is None,
    decreases blocks.len() - from,
{
    if from < blocks.len() {
        assert(blocks[from].block_id is Some);
        lemma_good_blocks(blocks, from + 1);
    }
}

/// A full report that is in order is admitted: it has a valid header for the group that is
/// served, a worker, a process, a baseline, and blocks that are in order, not too many.
pub proof fn a_full_report_in_order_is_admitted(
    service: &MetadataWorkerServiceImpl,
    req: &BlockReportRequestProto,
    r: Result<BlockReport, RpcErrorDetail>,
)
    requires
        call_ensures(MetadataWorkerServiceImpl::admit_block_report, (service, req), r),
        request_context_decode(optional_request_view(req.header)) is Ok,
        req.header is Some,
        group_name_parse((req.header->0).group_name@) == Ok::<Seq<char>, GroupNameError>(
            service.served_group_name@,
        ),
        req.worker_id != 0,
        req.worker_run_id@.len() > 0,
        uuid_parse(req.worker_run_id@) is Ok && uuid_parse(req.worker_run_id@)->Ok_0 != 0,
        req.baseline_seq != 0,
        req.batch is Some && req.batch->0 is FullReport,
        (req.batch->0)->FullReport_0.blocks@.len() <= MAX_REPORT_ENTRIES,
        forall|i: int|
            0 <= i < (req.batch->0)->FullReport_0.blocks@.len() ==> {
                let block = #[trigger] (req.batch->0)->FullReport_0.blocks@[i];
                &&& block.block_id is Some
                &&& block.state != ReportedBlockStateProto::ReportedBlockStateUnspecified
                &&& block.state == ReportedBlockStateProto::ReportedBlockStateReady
                    ==> block.lease_epoch != 0 && 1 <= block.tier <= 4
            },
    ensures
        r is Ok,
        r->Ok_0.batch is Full,
{
    lemma_good_blocks((req.batch->0)->FullReport_0.blocks@, 0);
}

/// A leader tells a worker how far it has applied the group's log, in every answer that names
/// the group; another node tells nothing of it.
pub proof fn leaders_tell_workers_their_applied_state(
    req_header: &Option<RequestHeaderProto>,
    group_name: &Option<GroupName>,
    leader_state: Option<RaftLogId>,
    r: ResponseHeaderProto,
)
    requires
        call_ensures(
            create_response_header_from_request,
            (req_header, group_name, leader_state),
            r,
        ),
    ensures
        r.error is None,
        r.state@.len() == (if *group_name is Some && leader_state is Some {
            1nat
        } else {
            0nat
        }),
        r.state@.len() > 0 ==> {
            &&& r.state@[0].group_name@ == ((*group_name)->0)@
            &&& r.state@[0].state_id is Some
            &&& (r.state@[0].state_id->0).term == (leader_state->0).term
            &&& (r.state@[0].state_id->0).leader_node_id == (leader_state->0).leader_node_id
            &&& (r.state@[0].state_id->0).index == (leader_state->0).index
        },
        *group_name is Some ==> r.group_name@ == ((*group_name)->0)@,
{
    assert(r@.error is Some <==> r.error is Some);
    let told = r@.state;
    assert(told.len() == r.state@.len());
    if r.state@.len() > 0 {
        assert(told[0] == r.state@[0]@);
    }
}

/// A call that is answered without an error counts as a success. One that is answered with an
/// error, or that failed, counts as an error under its own label.
pub proof fn outcomes_are_counted_by_their_label<'a>(
    outcome: Result<Option<&'a str>, i32>,
    r: (&'static str, &'a str),
)
    requires
        call_ensures(metadata_worker_outcome_labels, (outcome,), r),
    ensures
        r.0@ == "ok"@ <==> outcome == Ok::<Option<&'a str>, i32>(None),
        r.0@ == "error"@ <==> outcome is Err || outcome->Ok_0 is Some,
        outcome is Ok && outcome->Ok_0 is Some ==> r.1@ == (outcome->Ok_0->0)@,
{
    reveal_strlit("ok");
    reveal_strlit("error");
    assert("ok"@.len() != "error"@.len());
}

/// The kind of a report is that of its batch.
pub proof fn reports_are_counted_by_their_kind(req: &BlockReportRequestProto, r: &'static str)
    requires
        call_ensures(block_report_kind, (req,), r),
    ensures
        req.batch is Some && req.batch->0 is FullReport ==> r@ == "full"@,
        req.batch is Some && req.batch->0 is DeltaReport ==> r@ == "delta"@,
        req.batch is None ==> r@ == "unknown"@,
{
}

} // verus!
