//! What the plain values of the service promise: names, errors, log positions and placements.

use vstd::prelude::*;

use crate::error::{to_rpc_error, MetadataError};
use crate::fs::{ContentGeneration, FileType};
use crate::group_watermark::{GroupStateWatermark, RaftLogId};
use crate::header::Deadline;
use crate::ids::{BlockId, CallId, GroupName, GroupNameError, InodeId};
use crate::inode::{blocks_for, FileData, Inode};
use crate::layout::{
    BlockFormatId, BlockFormatIdError, BlockShape, BlockShapeError, FileLayout, FileLayoutError,
    DURABLE_PREFIX_STORAGE_CHUNK_SIZE, MAX_BLOCK_SIZE,
};
use crate::lease::LeaseEpoch;
use crate::outside_uuid::uuid_parse;
use crate::placement::{
    is_best, is_eligible, is_selection, planned_view, planned_views, planned_workers_are_eligible,
    room_is_for_a_full_block, CallerContextFields, PlacementOp, PlacementPlan, PlacementPlanner,
    PlacementRequest, PlacementStatus, WorkerPlacementView,
};
use crate::rpc_error::{
    ErrorKind, InternalErrorKind, MetadataErrorKind, ProtocolErrorKind, RefreshHint,
    RpcErrorDetail, WorkerErrorKind,
};
use crate::text::{trimmed, utf8_len};

verus! {

// ---- errors ----

/// An error is told with its own wording, under the kind that its callers know.
pub proof fn errors_are_told_by_their_kind(error: &MetadataError, r: RpcErrorDetail)
    requires
        call_ensures(to_rpc_error, (error,), r),
    ensures
        r.message@ == error@.text,
        match *error {
            MetadataError::NotFound(m) => r.message@ == m@ && r.kind == ErrorKind::Metadata(
                MetadataErrorKind::NotFound,
            ),
            MetadataError::InvalidArgument(m) => r.message@ == m@ && r.kind
                == ErrorKind::Protocol(ProtocolErrorKind::InvalidArgument),
            MetadataError::NotSupported(m) => r.message@ == m@ && r.kind == ErrorKind::Protocol(
                ProtocolErrorKind::Unsupported,
            ),
            MetadataError::PermissionDenied(m) => r.message@ == m@ && r.kind
                == ErrorKind::Protocol(ProtocolErrorKind::PermissionDenied),
            MetadataError::Internal(m) => r.message@ == m@ && r.kind == ErrorKind::Internal(
                InternalErrorKind::Internal,
            ),
            MetadataError::Busy(m) => r.message@ == m@ && r.kind == ErrorKind::Metadata(
                MetadataErrorKind::Busy,
            ),
            MetadataError::IsDir(m) => r.message@ == m@ && r.kind == ErrorKind::Metadata(
                MetadataErrorKind::IsDirectory,
            ),
            MetadataError::CrossMountRename(m) => r.message@ == m@ && r.kind
                == ErrorKind::Metadata(MetadataErrorKind::CrossMountRename),
            MetadataError::ResourceExhausted(m) => r.message@ == m@ && r.kind
                == ErrorKind::Metadata(MetadataErrorKind::ResourceExhausted),
            MetadataError::Again(m) => r.message@ == m@ && r.kind == ErrorKind::Metadata(
                MetadataErrorKind::Conflict,
            ),
            MetadataError::WriteSessionLimitExceeded(m) => r.message@ == m@ && r.kind
                == ErrorKind::Metadata(MetadataErrorKind::ResourceExhausted),
            MetadataError::GlobalWriteTargetLimitExceeded(m) => r.message@ == m@ && r.kind
                == ErrorKind::Metadata(MetadataErrorKind::ResourceExhausted),
            MetadataError::ServiceUnavailable(m) => r.message@ == m@ && r.kind
                == ErrorKind::Internal(InternalErrorKind::NodeUnavailable),
            MetadataError::LeaderChanged(m) => r.message@ == m@ && r.kind == ErrorKind::Metadata(
                MetadataErrorKind::NotLeader,
            ),
            MetadataError::StaleState(m) => r.message@ == m@ && r.kind == ErrorKind::Metadata(
                MetadataErrorKind::StaleState,
            ),
            MetadataError::FullReportRequired(m) => r.message@ == m@ && r.kind
                == ErrorKind::Worker(WorkerErrorKind::FullReportRequired),
            MetadataError::LeaseFenced { .. } => r.kind == ErrorKind::Metadata(
                MetadataErrorKind::Fencing,
            ),
        },
{
}

/// What an error asks for: to try again where something else was in the way, to refresh where
/// the caller is behind, to open again where a later writer came, a full report where one is
/// due, and nothing otherwise.
pub proof fn errors_ask_for_what_helps(error: &MetadataError, r: RpcErrorDetail)
    requires
        call_ensures(to_rpc_error, (error,), r),
    ensures
        r.recovery is Retry <==> *error is Again || *error is WriteSessionLimitExceeded
            || *error is GlobalWriteTargetLimitExceeded || *error is ServiceUnavailable,
        r.recovery is RefreshMetadata <==> *error is LeaderChanged || *error is StaleState,
        r.recovery is ReopenWriteSession <==> *error is LeaseFenced,
        r.recovery is SendFullBlockReport <==> *error is FullReportRequired,
        !(r.recovery is RegisterWorker),
{
}

// ---- identities ----

/// A group name is what is left of its text without the space around it: one to 63 bytes,
/// lowercase letters and digits, with dots, underscores and hyphens behind the first one.
pub proof fn a_group_name_is_its_trimmed_text(raw: &str, r: Result<GroupName, GroupNameError>)
    requires
        call_ensures(GroupName::parse, (raw,), r),
    ensures
        ({
            let text = trimmed(raw@);
            &&& r is Ok ==> {
                &&& (r->Ok_0)@ == text
                &&& 0 < text.len()
                &&& utf8_len(text) <= 63
                &&& 97 <= text[0] as u32 <= 122 || 48 <= text[0] as u32 <= 57
                &&& forall|i: int|
                    1 <= i < text.len() ==> {
                        let c = #[trigger] text[i];
                        97 <= c as u32 <= 122 || 48 <= c as u32 <= 57 || c == '.' || c == '_' || c
                            == '-'
                    }
            }
            &&& r is Err ==> {
                ||| text.len() == 0
                ||| utf8_len(text) > 63
                ||| !(97 <= text[0] as u32 <= 122 || 48 <= text[0] as u32 <= 57)
                ||| exists|i: int|
                    {
                        let c = #[trigger] text[i];
                        &&& 1 <= i < text.len()
                        &&& !(97 <= c as u32 <= 122 || 48 <= c as u32 <= 57 || c == '.' || c
                            == '_' || c == '-')
                    }
            }
            &&& r == Err::<GroupName, GroupNameError>(GroupNameError::Empty) <==> text.len() == 0
        }),
{
    let text = trimmed(raw@);
    if r is Ok {
        crate::ids::group_name_parse_is_idempotent(raw@);
        assert(crate::ids::is_group_name(text));
        assert forall|i: int| 1 <= i < text.len() implies {
            let c = #[trigger] text[i];
            97 <= c as u32 <= 122 || 48 <= c as u32 <= 57 || c == '.' || c == '_' || c == '-'
        } by {
            assert(crate::ids::is_group_char(text[i]));
        }
    } else if text.len() > 0 && utf8_len(text) <= 63 && crate::ids::is_group_start(text[0]) {
        let i = choose|i: int| 1 <= i < text.len() && !crate::ids::is_group_char(
            #[trigger] text[i],
        );
        assert(!crate::ids::is_group_char(text[i]));
    }
}

/// A call identity is the number of its UUID text, which must not be zero.
pub proof fn a_call_identity_is_its_uuid(value: &str, r: Result<CallId, String>)
    requires
        call_ensures(CallId::parse, (value,), r),
    ensures
        r is Ok <==> uuid_parse(value@) is Ok && uuid_parse(value@)->Ok_0 != 0,
        r is Ok ==> (r->Ok_0).0 == uuid_parse(value@)->Ok_0,
{
}

/// The raw parts of a block identity are the inode and the index that it was made of.
pub proof fn a_block_identity_is_its_parts(inode: u64, index: u32, r: BlockId)
    requires
        call_ensures(BlockId::from_u64_u32, (inode, index), r),
    ensures
        r.inode_id.0 == inode,
        r.index.0 == index,
{
}

// ---- time and log positions ----

/// A deadline has passed from its moment on; before, the rest of the time is left.
pub proof fn a_deadline_passes_at_its_moment(deadline: Deadline, now_ms: u64, r: bool, left: u64)
    requires
        call_ensures(Deadline::has_passed, (deadline, now_ms), r),
        call_ensures(Deadline::remaining_ms, (deadline, now_ms), left),
    ensures
        r <==> now_ms >= deadline.0,
        r ==> left == 0,
        !r ==> now_ms + left == deadline.0,
{
}

/// Log positions are ordered by term, then by leader, then by index. An applied state reaches
/// exactly the positions that are not behind it.
pub proof fn log_positions_are_ordered(applied: &RaftLogId, required: &RaftLogId, r: bool)
    requires
        call_ensures(RaftLogId::has_reached, (applied, required), r),
    ensures
        applied.term > required.term ==> r,
        applied.term < required.term ==> !r,
        applied.term == required.term && applied.leader_node_id > required.leader_node_id ==> r,
        applied.term == required.term && applied.leader_node_id < required.leader_node_id ==> !r,
        applied.term == required.term && applied.leader_node_id == required.leader_node_id ==> (r
            <==> applied.index >= required.index),
{
}

/// A watermark is reached by an applied state that reaches its position.
pub proof fn a_watermark_is_reached_at_its_position(
    mark: &GroupStateWatermark,
    applied: &RaftLogId,
    r: bool,
    reached: bool,
)
    requires
        call_ensures(GroupStateWatermark::is_reached, (mark, applied), r),
        call_ensures(RaftLogId::has_reached, (applied, &mark.state_id), reached),
    ensures
        r == reached,
{
}

// ---- blocks ----

/// A file of a given length has as many blocks as it needs: together they hold it, and one less
/// would not.
pub proof fn a_file_has_as_many_blocks_as_it_needs(
    len: u64,
    block_size: u32,
    r: Result<usize, MetadataError>,
)
    requires
        call_ensures(FileData::block_count, (len, block_size), r),
    ensures
        block_size == 0 ==> r is Err,
        r is Ok ==> {
            &&& r->Ok_0 * block_size >= len
            &&& (r->Ok_0 - 1) * block_size < len
        },
        r is Err ==> r->Err_0 is InvalidArgument,
{
    if r is Ok {
        let n = len as int;
        let size = block_size as int;
        let count = r->Ok_0 as int;
        assert(count * size >= n && (count - 1) * size < n) by (nonlinear_arith)
            requires
                size > 0,
                n >= 0,
                n % size == 0 ==> count == n / size,
                n % size != 0 ==> count == n / size + 1,
        ;
    }
}

/// A block format is known if and only if it is the current one, and its storage unit is fixed.
pub proof fn only_the_current_format_is_known(
    value: u32,
    r: Result<BlockFormatId, BlockFormatIdError>,
    current: BlockFormatId,
)
    requires
        call_ensures(BlockFormatId::from_raw, (value,), r),
        call_ensures(BlockFormatId::current_for_new_file, (), current),
    ensures
        current.0 == 2,
        r is Ok <==> value == current.0,
        r is Ok ==> r->Ok_0 == current,
        r is Err ==> (r->Err_0).raw == value,
{
}

// ---- placement ----

/// A worker that is chosen is one of the known workers, told by its own number, endpoint and
/// process. It belongs to the group, is registered and alive, is not excluded and supports the
/// block format. For a new block it has room for a full one on the tier that is told; for an
/// existing one its running process reported all the bytes that are asked for.
pub proof fn a_chosen_worker_is_fit(
    planner: &PlacementPlanner,
    req: &PlacementRequest,
    workers: &Vec<WorkerPlacementView>,
    plan: PlacementPlan,
    k: int,
)
    requires
        call_ensures(PlacementPlanner::plan, (planner, req, workers), plan),
        0 <= k < plan.workers@.len(),
    ensures
        plan.status == PlacementStatus::Placed,
        plan.workers@.len() <= req.target_replicas,
        exists|i: int|
            {
                let w = #[trigger] workers@[i];
                let told = plan.workers@[k];
                &&& 0 <= i < workers@.len()
                &&& told.worker_id == w.worker_id
                &&& told.endpoint@ == w.endpoint@
                &&& told.worker_net_protocol == w.worker_net_protocol
                &&& w.worker_run_id == Some(told.worker_run_id)
                &&& w.group_name@ == req.group_name@
                &&& w.registered
                &&& w.lease_valid
                &&& !req.exclude_workers@.contains(w.worker_id)
                &&& w.supported_block_formats@.contains(req.layout.block_format_id)
                &&& req.op == PlacementOp::Write ==> told.tier is Some && exists|t: int|
                    0 <= t < w.tier_free@.len() && (#[trigger] w.tier_free@[t]).tier
                        == told.tier->0 && w.tier_free@[t].free_bytes >= req.layout.block_size
                &&& req.op == PlacementOp::Read ==> told.tier is None && exists|e: int|
                    0 <= e < req.existing@.len() && (#[trigger] req.existing@[e]).worker_id
                        == w.worker_id && req.existing@[e].worker_run_id == told.worker_run_id
                        && req.existing@[e].effective_len >= req.visible_len
            },
{
    let known = workers@;
    let planned = planned_views(plan.workers@);
    assert(planned[k] == plan.workers@[k]@);
    planned_workers_are_eligible(*req, known, planned, k);
    let i = choose|i: int|
        0 <= i < known.len() && #[trigger] is_eligible(*req, known[i]) && planned[k]
            == planned_view(*req, known[i]);
    let w = known[i];
    room_is_for_a_full_block(w.tier_free@, req.layout.block_size, 0);
    assert(workers@[i] == w);
    if req.op == PlacementOp::Read {
        assert(crate::placement::holds_prefix(*req, w));
    }
}

/// A placement succeeds if and only if a known worker is fit; where it does, it chooses at least
/// one, unless none is wanted.
pub proof fn a_placement_succeeds_where_a_worker_is_fit(
    planner: &PlacementPlanner,
    req: &PlacementRequest,
    workers: &Vec<WorkerPlacementView>,
    plan: PlacementPlan,
    i: int,
)
    requires
        call_ensures(PlacementPlanner::plan, (planner, req, workers), plan),
        0 <= i < workers@.len(),
        workers@[i].group_name@ == req.group_name@,
        workers@[i].registered,
        workers@[i].lease_valid,
        workers@[i].worker_run_id is Some,
        !req.exclude_workers@.contains(workers@[i].worker_id),
        workers@[i].supported_block_formats@.contains(req.layout.block_format_id),
        req.op == PlacementOp::Write ==> exists|t: int|
            0 <= t < workers@[i].tier_free@.len() && (
            #[trigger] workers@[i].tier_free@[t]).free_bytes >= req.layout.block_size,
        req.op == PlacementOp::Read ==> exists|e: int|
            0 <= e < req.existing@.len() && (#[trigger] req.existing@[e]).worker_id
                == workers@[i].worker_id && req.existing@[e].worker_run_id == (
            workers@[i].worker_run_id->0) && req.existing@[e].effective_len >= req.visible_len,
    ensures
        plan.status == PlacementStatus::Placed,
        req.target_replicas > 0 ==> plan.workers@.len() > 0,
{
    let known = workers@;
    let w = known[i];
    room_is_for_a_full_block(w.tier_free@, req.layout.block_size, 0);
    if req.op == PlacementOp::Read {
        let e = choose|e: int|
            0 <= e < req.existing@.len() && (#[trigger] req.existing@[e]).worker_id == w.worker_id
                && req.existing@[e].worker_run_id == (w.worker_run_id->0)
                && req.existing@[e].effective_len >= req.visible_len;
        assert(req.existing@[e].worker_id == w.worker_id);
        assert(crate::placement::holds_prefix(*req, w));
    }
    assert(is_eligible(*req, known[i]));
    let planned = planned_views(plan.workers@);
    assert(planned.len() == plan.workers@.len());
    let chosen = choose|chosen: Seq<int>|
        #![trigger is_selection(*req, known, chosen)]
        {
            &&& is_selection(*req, known, chosen)
            &&& chosen.len() == planned.len()
            &&& planned.len() <= req.target_replicas
            &&& planned.len() < req.target_replicas ==> forall|j: int|
                0 <= j < known.len() && is_eligible(*req, #[trigger] known[j])
                    ==> chosen.contains(j)
            &&& forall|k: int|
                0 <= k < chosen.len() ==> #[trigger] planned[k] == planned_view(
                    *req,
                    known[chosen[k]],
                )
        };
    if planned.len() == 0 && req.target_replicas > 0 {
        assert(chosen.contains(i));
    }
}

/// A caller is served from as near as a fit worker runs: from its own host or address, then from
/// its rack, its zone and its region. Among workers on its host, and without a caller among all,
/// the one with the smallest number is chosen first.
pub proof fn the_nearest_worker_is_chosen_first(
    planner: &PlacementPlanner,
    req: &PlacementRequest,
    workers: &Vec<WorkerPlacementView>,
    plan: PlacementPlan,
    j: int,
)
    requires
        call_ensures(PlacementPlanner::plan, (planner, req, workers), plan),
        plan.workers@.len() > 0,
        0 <= j < workers@.len(),
        is_eligible(*req, workers@[j]),
    ensures
        exists|i: int|
            {
                let w = #[trigger] workers@[i];
                let near = |c: CallerContextFields, v: WorkerPlacementView|
                    {
                        ||| c.host is Some && v.host is Some && (c.host->0)@ == (v.host->0)@
                        ||| c.ip is Some && v.ip is Some && (c.ip->0)@ == (v.ip->0)@
                    };
                let same_rack = |c: CallerContextFields, v: WorkerPlacementView|
                    c.rack is Some && v.rack is Some && (c.rack->0)@ == (v.rack->0)@;
                let same_zone = |c: CallerContextFields, v: WorkerPlacementView|
                    c.az is Some && v.az is Some && (c.az->0)@ == (v.az->0)@;
                let same_region = |c: CallerContextFields, v: WorkerPlacementView|
                    c.region is Some && v.region is Some && (c.region->0)@ == (v.region->0)@;
                &&& 0 <= i < workers@.len()
                &&& is_eligible(*req, w)
                &&& req.caller is Some && same_rack(req.caller->0, workers@[j]) ==> near(
                    req.caller->0,
                    w,
                ) || same_rack(req.caller->0, w)
                &&& req.caller is Some && same_zone(req.caller->0, workers@[j]) ==> near(
                    req.caller->0,
                    w,
                ) || same_rack(req.caller->0, w) || same_zone(req.caller->0, w)
                &&& req.caller is Some && same_region(req.caller->0, workers@[j]) ==> near(
                    req.caller->0,
                    w,
                ) || same_rack(req.caller->0, w) || same_zone(req.caller->0, w) || same_region(
                    req.caller->0,
                    w,
                )
                &&& plan.workers@[0].worker_id == w.worker_id
                &&& req.caller is None ==> w.worker_id.0 <= workers@[j].worker_id.0
                &&& req.caller is Some && near(req.caller->0, workers@[j]) ==> near(
                    req.caller->0,
                    w,
                )
                &&& req.caller is Some && near(req.caller->0, w) && near(
                    req.caller->0,
                    workers@[j],
                ) ==> w.worker_id.0 <= workers@[j].worker_id.0
            },
{
    let known = workers@;
    let planned = planned_views(plan.workers@);
    assert(planned.len() == plan.workers@.len());
    assert(planned[0] == plan.workers@[0]@);
    let chosen = choose|chosen: Seq<int>|
        #![trigger is_selection(*req, known, chosen)]
        {
            &&& is_selection(*req, known, chosen)
            &&& chosen.len() == planned.len()
            &&& planned.len() <= req.target_replicas
            &&& planned.len() < req.target_replicas ==> forall|j: int|
                0 <= j < known.len() && is_eligible(*req, #[trigger] known[j])
                    ==> chosen.contains(j)
            &&& forall|k: int|
                0 <= k < chosen.len() ==> #[trigger] planned[k] == planned_view(
                    *req,
                    known[chosen[k]],
                )
        };
    let i = chosen[0];
    assert(is_best(*req, known, chosen.take(0), i));
    assert(!chosen.take(0).contains(j));
    assert(crate::placement::is_preferred(*req, known, i, j));
    assert(planned[0] == planned_view(*req, known[i]));
    assert(is_eligible(*req, workers@[i]));
}

// ---- stored files ----

/// A stored file is consistent if and only if its layout is one that files can have, it has as
/// many blocks as its length needs, and all of them are its own.
pub proof fn a_consistent_file_has_its_own_blocks(
    file: &FileData,
    inode_id: InodeId,
    r: Result<(), MetadataError>,
)
    requires
        call_ensures(FileData::validate, (file, inode_id), r),
    ensures
        r is Ok <==> crate::inode::file_error(*file, inode_id) is None,
        r is Ok ==> {
            let size = file.layout.block_size as int;
            &&& 0 < size <= MAX_BLOCK_SIZE
            &&& file.layout.block_format_id.0 == 2
            &&& file.blocks@.len() * size >= file.len
            &&& (file.blocks@.len() - 1) * size < file.len
            &&& forall|i: int|
                0 <= i < file.blocks@.len() ==> (#[trigger] file.blocks@[i]).inode_id == inode_id
        },
        ({
            let size = file.layout.block_size as int;
            &&& 0 < size <= MAX_BLOCK_SIZE
            &&& file.layout.block_format_id.0 == 2
            &&& file.blocks@.len() * size >= file.len
            &&& (file.blocks@.len() - 1) * size < file.len
            &&& forall|i: int|
                0 <= i < file.blocks@.len() ==> (#[trigger] file.blocks@[i]).inode_id == inode_id
        }) ==> r is Ok,
        r is Err ==> r->Err_0 is Internal,
{
    let size = file.layout.block_size as int;
    let n = file.len as int;
    let count = file.blocks@.len() as int;
    if size > 0 && count * size >= n && (count - 1) * size < n {
        assert((n % size == 0 ==> count == n / size) && (n % size != 0 ==> count == n / size + 1))
            by (nonlinear_arith)
            requires
                size > 0,
                n >= 0,
                count >= 0,
                count * size >= n,
                (count - 1) * size < n,
        ;
    }
    if r is Ok {
        assert(count * size >= n && (count - 1) * size < n) by (nonlinear_arith)
            requires
                size > 0,
                n >= 0,
                n % size == 0 ==> count == n / size,
                n % size != 0 ==> count == n / size + 1,
        ;
    }
}

/// A block of a file holds the bytes from its place up to the end of the block, or of the file
/// where that comes first.
pub proof fn a_block_holds_what_the_file_has_there(file: &FileData, ordinal: usize, r: u64)
    requires
        file.layout.block_size > 0,
        ordinal < blocks_for(file.len as nat, file.layout.block_size as nat),
        call_ensures(FileData::block_len, (file, ordinal), r),
    ensures
        ({
            let offset = ordinal * file.layout.block_size;
            &&& 0 < r <= file.layout.block_size
            &&& offset + r <= file.len
            &&& r == file.layout.block_size || offset + r == file.len
        }),
{
    crate::inode::blocks_cover_the_file(
        file.len as nat,
        file.layout.block_size as nat,
        ordinal as nat,
    );
}

/// An inode is a file with its length, or a directory without one.
pub proof fn an_inode_is_a_file_or_a_directory(
    inode: &Inode,
    kind: FileType,
    len: u64,
)
    requires
        call_ensures(Inode::file_type, (inode,), kind),
        call_ensures(Inode::len, (inode,), len),
    ensures
        kind == FileType::File <==> inode.kind is File,
        kind == FileType::Dir <==> inode.kind is Dir,
        inode.kind is File ==> len == inode.kind->File_0.len,
        inode.kind is Dir ==> len == 0,
{
}

/// Generations and epochs move on by one, and not at all at their end.
pub proof fn generations_and_epochs_move_on_by_one(
    generation: ContentGeneration,
    epoch: LeaseEpoch,
    g: Option<ContentGeneration>,
    e: Option<LeaseEpoch>,
)
    requires
        call_ensures(ContentGeneration::checked_next, (generation,), g),
        call_ensures(LeaseEpoch::checked_next, (epoch,), e),
    ensures
        g is Some <==> generation.0 < u64::MAX,
        g is Some ==> (g->0).0 == generation.0 + 1,
        e is Some <==> epoch.0 < u64::MAX,
        e is Some ==> (e->0).0 == epoch.0 + 1,
{
}

/// A layout is valid if and only if its format is known and its blocks are neither empty nor too
/// large. It then gives a shape to every prefix of a block that is not empty.
pub proof fn a_valid_layout_shapes_its_blocks(
    layout: &FileLayout,
    effective_len: u64,
    valid: Result<(), FileLayoutError>,
    shape: Result<BlockShape, BlockShapeError>,
)
    requires
        call_ensures(FileLayout::validate, (layout,), valid),
        call_ensures(BlockShape::for_effective_len, (layout, effective_len), shape),
    ensures
        valid is Ok <==> 0 < layout.block_size <= MAX_BLOCK_SIZE && layout.block_format_id.0 == 2,
        valid is Ok ==> (shape is Ok <==> 0 < effective_len <= layout.block_size),
        shape is Ok ==> {
            &&& shape->Ok_0.block_size == layout.block_size
            &&& shape->Ok_0.block_format_id == layout.block_format_id
            &&& shape->Ok_0.effective_len == effective_len
            &&& shape->Ok_0.chunk_size == DURABLE_PREFIX_STORAGE_CHUNK_SIZE
        },
{
}

/// A new file gets the current block format and the block size that was asked for.
pub proof fn a_new_file_gets_the_current_format(block_size: u32, r: FileLayout)
    requires
        call_ensures(FileLayout::new, (block_size,), r),
    ensures
        r.block_size == block_size,
        r.block_format_id.0 == 2,
{
}

/// A failure is made of what it was given, and asks for what its name says.
pub proof fn failures_are_made_of_what_they_are_given(
    kind: ErrorKind,
    message: String,
    after_ms: Option<u64>,
    hint: RefreshHint,
    fail: RpcErrorDetail,
    retry: RpcErrorDetail,
    refresh: RpcErrorDetail,
    reopen: RpcErrorDetail,
)
    requires
        call_ensures(RpcErrorDetail::fail, (kind, message), fail),
        call_ensures(RpcErrorDetail::retry, (kind, after_ms, message), retry),
        call_ensures(RpcErrorDetail::refresh_metadata, (kind, hint, message), refresh),
        call_ensures(RpcErrorDetail::reopen_write_session, (kind, hint, message), reopen),
    ensures
        fail.kind == kind && retry.kind == kind && refresh.kind == kind && reopen.kind == kind,
        fail.message@ == message@ && retry.message@ == message@,
        refresh.message@ == message@ && reopen.message@ == message@,
        fail.recovery is Fail,
        retry.recovery is Retry && retry.recovery->after_ms == after_ms,
        refresh.recovery is RefreshMetadata,
        refresh.recovery->RefreshMetadata_hint@ == hint@,
        reopen.recovery is ReopenWriteSession,
        reopen.recovery->ReopenWriteSession_hint@ == hint@,
{
    assert(refresh@.recovery == crate::rpc_error::RecoveryActionView::RefreshMetadata {
        hint: hint@,
    });
    assert(reopen@.recovery == crate::rpc_error::RecoveryActionView::ReopenWriteSession {
        hint: hint@,
    });
}

} // verus!
