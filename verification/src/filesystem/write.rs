//! Write leases and block allocation.

use vstd::prelude::*;

use crate::error::{MetadataError, MetadataErrorCode, MetadataErrorView};
use crate::filesystem::command::{
    block_allocation, decode_block_allocation, unexpected_raft_apply_success, unexpected_success,
    ApplySuccess, Command, RaftReply,
};
use crate::filesystem::context::{
    fs_failure_from_metadata_error, lookup_group_error, metadata_failure, persisted_endpoint,
    require_worker_lookup_group, session_terminal_failure, terminal_failure,
    worker_endpoint_from_parts, Authority, AuthorityView, FsFailure, FsFailureView, RequestContext,
    RequestContextView, SUPPORTED_REPLICA_COUNT,
};
use crate::ids::{BlockId, ClientId, InodeId, MountId};
use crate::layout::{BlockFormatIdError, FileLayout, DURABLE_PREFIX_STORAGE_CHUNK_SIZE};
use crate::lease::{FencingToken, LeaseEpoch};
use crate::location::{LocatedBlock, LocatedBlockView};
use crate::placement::{
    is_plan, placement_failure_text, placement_status, planned_views, CallerContextFields,
    PlacementOp, PlacementPlan, PlacementPlanner, PlacementRequest, PlacementStatus,
    PlannedWorker, PlannedWorkerView, WorkerPlacementView,
};
use crate::rpc_error::{ErrorKind, MetadataErrorKind};
use crate::session::laws::tidied_keeps_counters;
use crate::session::model::{BeginAllocateBlockView, RegistryView, WriteTargetReservation};
use crate::session::registry::{BeginAllocateBlock, SessionRegistry};
use crate::session::types::{
    optional_block_message, optional_block_text, BeginAllocateBlockError, CompleteWriteTargetError,
    RegistryLimits, WriteSessionError, WriteSessionIdentity, WriteTargetLimit,
};
use crate::text::{decimal, decimal_text, join};
use crate::worker_info::{endpoint_views, Tier, WorkerEndpointInfo, WorkerEndpointInfoView};

verus! {

/// The kind of failure for a session that is not the caller's or not current.
pub open spec fn session_invalid() -> ErrorKind {
    ErrorKind::Metadata(MetadataErrorKind::SessionInvalid)
}

/// The kind of failure for a session that has expired.
pub open spec fn session_expired() -> ErrorKind {
    ErrorKind::Metadata(MetadataErrorKind::SessionExpired)
}

pub(crate) fn invalid_failure(ctx: &RequestContext, message: String, authority: &Authority) -> (r: FsFailure)
    ensures
        r@ == terminal_failure(ctx@, session_invalid(), message@, authority@),
{
    session_terminal_failure(
        ctx,
        ErrorKind::Metadata(MetadataErrorKind::SessionInvalid),
        message,
        authority,
    )
}

pub(crate) fn expired_failure(ctx: &RequestContext, message: String, authority: &Authority) -> (r: FsFailure)
    ensures
        r@ == terminal_failure(ctx@, session_expired(), message@, authority@),
{
    session_terminal_failure(
        ctx,
        ErrorKind::Metadata(MetadataErrorKind::SessionExpired),
        message,
        authority,
    )
}

pub(crate) fn error_failure(ctx: &RequestContext, error: &MetadataError, authority: &Authority) -> (r:
    FsFailure)
    ensures
        r@ == metadata_failure(ctx@, error@, authority@.without_route()),
{
    let authority = authority.without_route();
    fs_failure_from_metadata_error(ctx, error, &authority)
}

pub(crate) fn with_inode(prefix: &str, inode: InodeId) -> (r: String)
    ensures
        r@ == prefix@ + decimal(inode.0 as nat),
{
    let text = inode.to_text();
    join(prefix, text.as_str())
}

/// The wording for a session that does not exist.
pub open spec fn not_found_text(inode: InodeId) -> Seq<char> {
    "write session not found for inode_id="@ + decimal(inode.0 as nat)
}

/// The wording for a session of another client.
pub open spec fn not_owned_text(operation: Seq<char>, inode: InodeId) -> Seq<char> {
    operation + " client does not own inode_id="@ + decimal(inode.0 as nat)
}

/// The wording for a handle of another epoch.
pub open spec fn epoch_mismatch_text(
    inode: InodeId,
    expected: LeaseEpoch,
    got: LeaseEpoch,
) -> Seq<char> {
    "write handle epoch mismatch for inode_id="@ + decimal(inode.0 as nat) + ": expected "@
        + decimal(expected.0 as nat) + ", got "@ + decimal(got.0 as nat)
}

/// Returns the wording for a session that does not exist.
pub fn not_found_message(inode: InodeId) -> (r: String)
    ensures
        r@ == not_found_text(inode),
{
    with_inode("write session not found for inode_id=", inode)
}

/// Returns the wording for a session of another client.
pub fn not_owned_message(operation: &str, inode: InodeId) -> (r: String)
    ensures
        r@ == not_owned_text(operation@, inode),
{
    let text = inode.to_text();
    let mut out = join(operation, " client does not own inode_id=");
    out.append(text.as_str());
    out
}

/// Returns the wording for a handle of another epoch.
pub fn epoch_mismatch_message(inode: InodeId, expected: LeaseEpoch, got: LeaseEpoch) -> (r: String)
    ensures
        r@ == epoch_mismatch_text(inode, expected, got),
{
    let expected_text = decimal_text(expected.0 as u128);
    let got_text = decimal_text(got.0 as u128);
    let mut out = with_inode("write handle epoch mismatch for inode_id=", inode);
    out.append(": expected ");
    out.append(expected_text.as_str());
    out.append(", got ");
    out.append(got_text.as_str());
    out
}

// ---- admission ----

/// Returns the mount whose data-write admission an operation on a handle needs. Without a
/// session the operation needs metadata-write admission only.
pub fn session_admission_mount(registry: &mut SessionRegistry, inode: InodeId, now_ms: u64) -> (r:
    Option<MountId>)
    requires
        old(registry).wf(),
    ensures
        final(registry).wf(),
        final(registry).limits() == old(registry).limits(),
        final(registry)@ == old(registry)@.tidied(inode.0, now_ms),
        r == match final(registry)@.session_identity(inode) {
            Some(s) => Some(s.mount_id),
            None => None,
        },
{
    match registry.get_session_identity(inode, now_ms) {
        Some(session) => Some(session.mount_id),
        None => None,
    }
}

/// The caller's session of an inode, or why there is none.
pub open spec fn owned_session(
    v: RegistryView,
    ctx: RequestContextView,
    operation: Seq<char>,
    inode: InodeId,
) -> Result<WriteSessionIdentity, FsFailureView> {
    match v.session_identity(inode) {
        None => Err(
            terminal_failure(
                ctx,
                session_invalid(),
                not_found_text(inode),
                AuthorityView::unknown(),
            ),
        ),
        Some(s) => if s.open_client_id != ctx.caller.client.client_id {
            Err(
                terminal_failure(
                    ctx,
                    session_invalid(),
                    not_owned_text(operation, inode),
                    AuthorityView::unknown(),
                ),
            )
        } else {
            Ok(s)
        },
    }
}

/// Returns the caller's session of an inode.
pub fn find_owned_session(
    registry: &mut SessionRegistry,
    ctx: &RequestContext,
    operation: &str,
    inode: InodeId,
    now_ms: u64,
) -> (r: Result<WriteSessionIdentity, FsFailure>)
    requires
        old(registry).wf(),
    ensures
        final(registry).wf(),
        final(registry).limits() == old(registry).limits(),
        final(registry)@ == old(registry)@.tidied(inode.0, now_ms),
        ({
            let owned = owned_session(final(registry)@, ctx@, operation@, inode);
            match r {
                Ok(s) => owned == Ok::<WriteSessionIdentity, FsFailureView>(s),
                Err(f) => owned == Err::<WriteSessionIdentity, FsFailureView>(f@),
            }
        }),
{
    let unknown = Authority::unknown();
    match registry.get_session_identity(inode, now_ms) {
        None => Err(invalid_failure(ctx, not_found_message(inode), &unknown)),
        Some(session) => if session.open_client_id != ctx.caller.client.client_id {
            Err(invalid_failure(ctx, not_owned_message(operation, inode), &unknown))
        } else {
            Ok(session)
        },
    }
}

// ---- block allocation ----

/// What an allocation is to do next.
pub enum AllocationStep {
    /// The step was already issued: answer with its target.
    Replay(LocatedBlock),
    /// Capacity is reserved: propose the allocation. The number is the storage chunk size.
    Propose(WriteTargetReservation, u32),
}

/// The value of an `AllocationStep`.
pub enum AllocationStepView {
    Replay(LocatedBlockView),
    Propose(WriteTargetReservation, u32),
}

impl View for AllocationStep {
    type V = AllocationStepView;

    open spec fn view(&self) -> AllocationStepView {
        match self {
            AllocationStep::Replay(t) => AllocationStepView::Replay(t@),
            AllocationStep::Propose(r, c) => AllocationStepView::Propose(*r, *c),
        }
    }
}

/// What refuses an allocation step that did not begin.
pub open spec fn allocation_refusal(
    ctx: RequestContextView,
    authority: AuthorityView,
    inode: InodeId,
    previous: Option<BlockId>,
    error: BeginAllocateBlockError,
) -> FsFailureView {
    let id = decimal(inode.0 as nat);
    let plain = authority.without_route();
    match error {
        BeginAllocateBlockError::Session(e) => terminal_failure(
            ctx,
            session_expired(),
            "AllocateBlock session is no longer current for inode_id="@ + id + ": "@ + e.text(),
            authority,
        ),
        BeginAllocateBlockError::InvalidArgument(e) => metadata_failure(
            ctx,
            MetadataErrorView {
                code: MetadataErrorCode::InvalidArgument,
                text: "AllocateBlock rejected for inode_id="@ + id + ": "@ + e.text(),
            },
            plain,
        ),
        BeginAllocateBlockError::Pending => metadata_failure(
            ctx,
            MetadataErrorView {
                code: MetadataErrorCode::Again,
                text: "AllocateBlock is already pending for inode_id="@ + id + " and predecessor="@
                    + optional_block_text(previous),
            },
            plain,
        ),
        BeginAllocateBlockError::PublicationInProgress => metadata_failure(
            ctx,
            MetadataErrorView {
                code: MetadataErrorCode::Again,
                text: "AllocateBlock cannot allocate inode_id="@ + id
                    + " while file publication is in progress"@,
            },
            plain,
        ),
        BeginAllocateBlockError::LimitExceeded(exceeded) => metadata_failure(
            ctx,
            match exceeded.limit {
                WriteTargetLimit::Global => MetadataErrorView {
                    code: MetadataErrorCode::GlobalWriteTargetLimitExceeded,
                    text: "global limit "@ + decimal(exceeded.maximum as nat)
                        + " reached before allocating inode_id="@ + id,
                },
                WriteTargetLimit::PerSession => MetadataErrorView {
                    code: MetadataErrorCode::ResourceExhausted,
                    text: "write session target limit "@ + decimal(exceeded.maximum as nat)
                        + " reached for inode_id="@ + id,
                },
            },
            plain,
        ),
    }
}

fn allocation_refusal_failure(
    ctx: &RequestContext,
    authority: &Authority,
    inode: InodeId,
    previous: Option<BlockId>,
    error: BeginAllocateBlockError,
) -> (r: FsFailure)
    ensures
        r@ == allocation_refusal(ctx@, authority@, inode, previous, error),
{
    match error {
        BeginAllocateBlockError::Session(e) => {
            let text = e.message();
            let mut out = with_inode(
                "AllocateBlock session is no longer current for inode_id=",
                inode,
            );
            out.append(": ");
            out.append(text.as_str());
            expired_failure(ctx, out, authority)
        },
        BeginAllocateBlockError::InvalidArgument(e) => {
            let text = e.message();
            let mut out = with_inode("AllocateBlock rejected for inode_id=", inode);
            out.append(": ");
            out.append(text.as_str());
            error_failure(ctx, &MetadataError::InvalidArgument(out), authority)
        },
        BeginAllocateBlockError::Pending => {
            let text = optional_block_message(previous);
            let mut out = with_inode("AllocateBlock is already pending for inode_id=", inode);
            out.append(" and predecessor=");
            out.append(text.as_str());
            error_failure(ctx, &MetadataError::Again(out), authority)
        },
        BeginAllocateBlockError::PublicationInProgress => {
            let mut out = with_inode("AllocateBlock cannot allocate inode_id=", inode);
            out.append(" while file publication is in progress");
            error_failure(ctx, &MetadataError::Again(out), authority)
        },
        BeginAllocateBlockError::LimitExceeded(exceeded) => {
            let maximum = decimal_text(exceeded.maximum as u128);
            let inode_text = inode.to_text();
            match exceeded.limit {
                WriteTargetLimit::Global => {
                    let mut out = join("global limit ", maximum.as_str());
                    out.append(" reached before allocating inode_id=");
                    out.append(inode_text.as_str());
                    error_failure(
                        ctx,
                        &MetadataError::GlobalWriteTargetLimitExceeded(out),
                        authority,
                    )
                },
                WriteTargetLimit::PerSession => {
                    let mut out = join("write session target limit ", maximum.as_str());
                    out.append(" reached for inode_id=");
                    out.append(inode_text.as_str());
                    error_failure(ctx, &MetadataError::ResourceExhausted(out), authority)
                },
            }
        },
    }
}

/// What beginning an allocation does and answers. The handle must have the session's epoch
/// and the lease must be valid; then the step is replayed or reserved.
pub open spec fn allocation_begun(
    v: RegistryView,
    limits: RegistryLimits,
    ctx: RequestContextView,
    authority: AuthorityView,
    session: WriteSessionIdentity,
    inode: InodeId,
    epoch: LeaseEpoch,
    previous: Option<BlockId>,
    now_ms: u64,
) -> (RegistryView, Result<AllocationStepView, FsFailureView>) {
    let checked = v.validate_session(inode, epoch, now_ms);
    let begun = checked.0.begin_allocate_block(limits, inode, epoch, previous, now_ms);
    if epoch != session.lease_epoch {
        (
            v,
            Err(
                terminal_failure(
                    ctx,
                    session_invalid(),
                    epoch_mismatch_text(inode, session.lease_epoch, epoch),
                    authority,
                ),
            ),
        )
    } else if checked.1 is Err {
        (
            checked.0,
            Err(
                terminal_failure(
                    ctx,
                    session_expired(),
                    "lease validation rejected for inode_id="@ + decimal(inode.0 as nat)
                        + "; reopen before AllocateBlock"@,
                    authority,
                ),
            ),
        )
    } else {
        match begun.1 {
            Err(e) => (begun.0, Err(allocation_refusal(ctx, authority, inode, previous, e))),
            Ok(BeginAllocateBlockView::Replay(t)) => (
                begun.0,
                Ok(AllocationStepView::Replay(t)),
            ),
            Ok(BeginAllocateBlockView::Reserved(r)) => if r.layout.block_format_id.is_known() {
                (
                    begun.0,
                    Ok(AllocationStepView::Propose(r, DURABLE_PREFIX_STORAGE_CHUNK_SIZE)),
                )
            } else {
                (
                    begun.0.cancel_write_target(r.inode_id, r.lease_epoch, r.pending),
                    Err(
                        metadata_failure(
                            ctx,
                            MetadataErrorView {
                                code: MetadataErrorCode::Internal,
                                text: "active write layout has an unknown block format: "@ + (
                                BlockFormatIdError { raw: r.layout.block_format_id.0 }).text(),
                            },
                            authority.without_route(),
                        ),
                    ),
                )
            },
        }
    }
}

/// Begins an allocation: replays an issued step, or reserves capacity before the block is
/// allocated.
pub fn begin_allocation(
    registry: &mut SessionRegistry,
    ctx: &RequestContext,
    authority: &Authority,
    session: WriteSessionIdentity,
    inode: InodeId,
    epoch: LeaseEpoch,
    previous: Option<BlockId>,
    now_ms: u64,
) -> (r: Result<AllocationStep, FsFailure>)
    requires
        old(registry).wf(),
    ensures
        final(registry).wf(),
        final(registry).limits() == old(registry).limits(),
        ({
            let outcome = allocation_begun(
                old(registry)@,
                old(registry).limits(),
                ctx@,
                authority@,
                session,
                inode,
                epoch,
                previous,
                now_ms,
            );
            &&& final(registry)@ == outcome.0
            &&& match r {
                Ok(s) => outcome.1 == Ok::<AllocationStepView, FsFailureView>(s@),
                Err(f) => outcome.1 == Err::<AllocationStepView, FsFailureView>(f@),
            }
        }),
{
    if epoch != session.lease_epoch {
        return Err(
            invalid_failure(
                ctx,
                epoch_mismatch_message(inode, session.lease_epoch, epoch),
                authority,
            ),
        );
    }
    if registry.validate_session(inode, epoch, now_ms).is_err() {
        let mut out = with_inode("lease validation rejected for inode_id=", inode);
        out.append("; reopen before AllocateBlock");
        return Err(expired_failure(ctx, out, authority));
    }
    match registry.begin_allocate_block(inode, epoch, previous, now_ms) {
        Err(e) => Err(allocation_refusal_failure(ctx, authority, inode, previous, e)),
        Ok(BeginAllocateBlock::Replay(target)) => Ok(AllocationStep::Replay(target)),
        Ok(BeginAllocateBlock::Reserved(reservation)) => {
            match reservation.layout.block_format_id.format_spec() {
                Ok(spec) => Ok(AllocationStep::Propose(reservation, spec.storage_chunk_size)),
                Err(e) => {
                    reservation.release(registry);
                    let text = e.message();
                    let error = MetadataError::Internal(
                        join(
                            "active write layout has an unknown block format: ",
                            text.as_str(),
                        ),
                    );
                    Err(error_failure(ctx, &error, authority))
                },
            }
        },
    }
}

/// Returns the command that allocates the block of a reservation.
pub fn allocation_command(reservation: &WriteTargetReservation) -> (r: Command)
    ensures
        r == (Command::AllocateBlock {
            inode_id: reservation.inode_id,
            lease_epoch: reservation.lease_epoch,
        }),
{
    Command::AllocateBlock {
        inode_id: reservation.inode_id,
        lease_epoch: reservation.lease_epoch,
    }
}

/// Why a block that was allocated cannot be placed, if it cannot: no workers are known, or
/// no owner group is. The first reason counts.
pub open spec fn unplaceable(
    ctx: RequestContextView,
    authority: AuthorityView,
    block: Result<BlockId, MetadataErrorView>,
    has_workers: bool,
) -> Option<FsFailureView> {
    if block is Err {
        Some(metadata_failure(ctx, block->Err_0, authority.without_route()))
    } else if !has_workers {
        Some(
            metadata_failure(
                ctx,
                MetadataErrorView {
                    code: MetadataErrorCode::ServiceUnavailable,
                    text: "Worker manager not available"@,
                },
                authority.without_route(),
            ),
        )
    } else if authority.group_name is None {
        Some(metadata_failure(ctx, lookup_group_error("AllocateBlock"@), authority))
    } else {
        None
    }
}

/// The value of what an allocation returned.
pub open spec fn block_result_view(block: Result<BlockId, MetadataError>) -> Result<
    BlockId,
    MetadataErrorView,
> {
    match block {
        Ok(b) => Ok(b),
        Err(e) => Err(e@),
    }
}

/// Whether a request asks for one worker with room for a new block.
pub open spec fn asks_for_new_block(
    request: PlacementRequest,
    group: Option<Seq<char>>,
    block: BlockId,
    layout: FileLayout,
    caller: Option<CallerContextFields>,
) -> bool {
    &&& Some(request.group_name@) == group
    &&& request.op == PlacementOp::Write
    &&& request.block_id == block
    &&& request.visible_len == 0
    &&& request.layout == layout
    &&& request.caller == caller
    &&& request.existing@.len() == 0
    &&& request.exclude_workers@.len() == 0
    &&& request.target_replicas == SUPPORTED_REPLICA_COUNT
}

/// Asks for the placement of a block that was allocated, or releases its reservation.
pub fn request_placement(
    registry: &mut SessionRegistry,
    ctx: &RequestContext,
    authority: &Authority,
    reservation: WriteTargetReservation,
    block: Result<BlockId, MetadataError>,
    has_workers: bool,
    caller: Option<CallerContextFields>,
) -> (r: Result<PlacementRequest, FsFailure>)
    requires
        old(registry).wf(),
    ensures
        final(registry).wf(),
        final(registry).limits() == old(registry).limits(),
        match unplaceable(ctx@, authority@, block_result_view(block), has_workers) {
            Some(f) => {
                &&& r is Err
                &&& (r->Err_0)@ == f
                &&& final(registry)@ == old(registry)@.cancel_write_target(
                    reservation.inode_id,
                    reservation.lease_epoch,
                    reservation.pending,
                )
            },
            None => {
                &&& final(registry)@ == old(registry)@
                &&& r is Ok
                &&& asks_for_new_block(
                    r->Ok_0,
                    authority@.group_name,
                    block->Ok_0,
                    reservation.layout,
                    caller,
                )
            },
        },
{
    let block_id = match block {
        Ok(block_id) => block_id,
        Err(e) => {
            reservation.release(registry);
            return Err(error_failure(ctx, &e, authority));
        },
    };
    if !has_workers {
        reservation.release(registry);
        let error = MetadataError::ServiceUnavailable("Worker manager not available".to_owned());
        return Err(error_failure(ctx, &error, authority));
    }
    let group_name = match require_worker_lookup_group(ctx, authority, "AllocateBlock") {
        Ok(group_name) => group_name,
        Err(f) => {
            reservation.release(registry);
            return Err(f);
        },
    };
    Ok(
        PlacementRequest {
            group_name,
            op: PlacementOp::Write,
            block_id,
            visible_len: 0,
            layout: reservation.layout,
            caller,
            existing: Vec::new(),
            exclude_workers: Vec::new(),
            target_replicas: SUPPORTED_REPLICA_COUNT,
        },
    )
}

/// The endpoints of chosen workers. The first that names none decides the error.
pub open spec fn planned_endpoints(workers: Seq<PlannedWorkerView>) -> Result<
    Seq<WorkerEndpointInfoView>,
    MetadataErrorView,
>
    decreases workers.len(),
{
    if workers.len() == 0 {
        Ok(Seq::empty())
    } else {
        let last = workers.last();
        match planned_endpoints(workers.drop_last()) {
            Err(e) => Err(e),
            Ok(front) => match persisted_endpoint(
                last.worker_id,
                last.endpoint,
                last.worker_net_protocol,
                last.worker_run_id,
            ) {
                Err(e) => Err(e),
                Ok(endpoint) => Ok(front.push(endpoint)),
            },
        }
    }
}

/// The endpoints of chosen workers are their own, in order.
pub proof fn lemma_planned_endpoints(workers: Seq<PlannedWorkerView>)
    ensures
        match planned_endpoints(workers) {
            Ok(endpoints) => {
                &&& endpoints.len() == workers.len()
                &&& forall|i: int|
                    0 <= i < workers.len() ==> {
                        let told = #[trigger] endpoints[i];
                        &&& told.worker_id == workers[i].worker_id
                        &&& told.endpoint == workers[i].endpoint
                        &&& told.worker_run_id == workers[i].worker_run_id
                    }
            },
            Err(_) => workers.len() > 0,
        },
    decreases workers.len(),
{
    if workers.len() > 0 {
        lemma_planned_endpoints(workers.drop_last());
    }
}

/// The first tier that a chosen worker names.
pub open spec fn first_tier(workers: Seq<PlannedWorkerView>) -> Option<Tier>
    decreases workers.len(),
{
    if workers.len() == 0 {
        None
    } else {
        match first_tier(workers.drop_last()) {
            Some(t) => Some(t),
            None => workers.last().tier,
        }
    }
}

proof fn lemma_planned_error(workers: Seq<PlannedWorkerView>, k: int)
    requires
        0 <= k <= workers.len(),
        planned_endpoints(workers.take(k)) is Err,
    ensures
        planned_endpoints(workers) == planned_endpoints(workers.take(k)),
    decreases workers.len() - k,
{
    if k == workers.len() {
        assert(workers.take(k) =~= workers);
    } else {
        assert(workers.take(k + 1).drop_last() =~= workers.take(k));
        lemma_planned_error(workers, k + 1);
    }
}

/// Returns the endpoints of chosen workers, and the first tier that one of them names.
pub fn endpoints_of_plan(workers: &Vec<PlannedWorker>) -> (r: Result<
    (Vec<WorkerEndpointInfo>, Option<Tier>),
    MetadataError,
>)
    ensures
        ({
            let views = planned_views(workers@);
            match r {
                Ok(p) => {
                    &&& planned_endpoints(views) == Ok::<
                        Seq<WorkerEndpointInfoView>,
                        MetadataErrorView,
                    >(endpoint_views(p.0@))
                    &&& p.1 == first_tier(views)
                },
                Err(e) => planned_endpoints(views) == Err::<
                    Seq<WorkerEndpointInfoView>,
                    MetadataErrorView,
                >(e@),
            }
        }),
{
    let ghost views = planned_views(workers@);
    let mut endpoints: Vec<WorkerEndpointInfo> = Vec::new();
    let mut tier: Option<Tier> = None;
    let mut i: usize = 0;
    assert(views.take(0) =~= Seq::empty());
    assert(endpoint_views(endpoints@) =~= Seq::empty());
    while i < workers.len()
        invariant
            views == planned_views(workers@),
            i <= workers@.len(),
            planned_endpoints(views.take(i as int)) == Ok::<
                Seq<WorkerEndpointInfoView>,
                MetadataErrorView,
            >(endpoint_views(endpoints@)),
            tier == first_tier(views.take(i as int)),
        decreases workers.len() - i,
    {
        let worker = &workers[i];
        assert(views.take(i as int + 1).drop_last() =~= views.take(i as int));
        assert(views.take(i as int + 1).last() == worker@);
        if tier.is_none() {
            tier = worker.tier;
        }
        match worker_endpoint_from_parts(
            worker.worker_id,
            worker.endpoint.clone(),
            worker.worker_net_protocol,
            worker.worker_run_id,
        ) {
            Ok(endpoint) => {
                let ghost before = endpoints@;
                endpoints.push(endpoint);
                assert(endpoint_views(endpoints@) =~= endpoint_views(before).push(endpoint@));
            },
            Err(e) => {
                proof {
                    lemma_planned_error(views, i as int + 1);
                }
                return Err(e);
            },
        }
        i += 1;
    }
    assert(views.take(i as int) =~= views);
    Ok((endpoints, tier))
}

/// The target that a placement gives a reserved step, or why it gives none.
pub open spec fn placed_target(
    reservation: WriteTargetReservation,
    block_id: BlockId,
    chunk_size: u32,
    status: PlacementStatus,
    workers: Seq<PlannedWorkerView>,
) -> Result<LocatedBlockView, MetadataErrorView> {
    if status != PlacementStatus::Placed {
        Err(
            MetadataErrorView {
                code: MetadataErrorCode::ServiceUnavailable,
                text: "Failed to select write placement: "@ + placement_failure_text(status),
            },
        )
    } else {
        match planned_endpoints(workers) {
            Err(e) => Err(e),
            Ok(worker_endpoints) => match first_tier(workers) {
                None => Err(
                    MetadataErrorView {
                        code: MetadataErrorCode::ServiceUnavailable,
                        text: "selected write placement is missing storage tier"@,
                    },
                ),
                Some(tier) => if worker_endpoints.len() == 0 {
                    Err(
                        MetadataErrorView {
                            code: MetadataErrorCode::ServiceUnavailable,
                            text: "selected placement has no live worker endpoints"@,
                        },
                    )
                } else {
                    Ok(
                        LocatedBlockView {
                            block_id,
                            file_offset: reservation.file_offset,
                            block_size: reservation.layout.block_size as u64,
                            worker_endpoints,
                            fencing_token: FencingToken {
                                block_id,
                                owner: reservation.open_client_id,
                                epoch: reservation.lease_epoch,
                            },
                            write_offset: 0,
                            chunk_size,
                            block_format_id: reservation.layout.block_format_id,
                            tier,
                        },
                    )
                },
            },
        }
    }
}

fn build_target(
    reservation: WriteTargetReservation,
    block_id: BlockId,
    chunk_size: u32,
    plan: &PlacementPlan,
) -> (r: Result<LocatedBlock, MetadataError>)
    ensures
        ({
            let placed = placed_target(
                reservation,
                block_id,
                chunk_size,
                plan.status,
                planned_views(plan.workers@),
            );
            match r {
                Ok(t) => placed == Ok::<LocatedBlockView, MetadataErrorView>(t@),
                Err(e) => placed == Err::<LocatedBlockView, MetadataErrorView>(e@),
            }
        }),
{
    if plan.status != PlacementStatus::Placed {
        let text = plan.failure_message();
        return Err(
            MetadataError::ServiceUnavailable(
                join("Failed to select write placement: ", text.as_str()),
            ),
        );
    }
    let (worker_endpoints, selected_tier) = match endpoints_of_plan(&plan.workers) {
        Ok(p) => p,
        Err(e) => return Err(e),
    };
    let tier = match selected_tier {
        Some(tier) => tier,
        None => return Err(
            MetadataError::ServiceUnavailable(
                "selected write placement is missing storage tier".to_owned(),
            ),
        ),
    };
    if worker_endpoints.len() == 0 {
        assert(endpoint_views(worker_endpoints@).len() == 0);
        return Err(
            MetadataError::ServiceUnavailable(
                "selected placement has no live worker endpoints".to_owned(),
            ),
        );
    }
    assert(endpoint_views(worker_endpoints@).len() > 0);
    Ok(
        LocatedBlock {
            block_id,
            file_offset: reservation.file_offset,
            block_size: reservation.layout.block_size as u64,
            worker_endpoints,
            fencing_token: FencingToken {
                block_id,
                owner: reservation.open_client_id,
                epoch: reservation.lease_epoch,
            },
            write_offset: 0,
            chunk_size,
            block_format_id: reservation.layout.block_format_id,
            tier,
        },
    )
}

/// What finishing an allocation does and answers.
pub open spec fn allocation_finished(
    v: RegistryView,
    ctx: RequestContextView,
    authority: AuthorityView,
    reservation: WriteTargetReservation,
    block_id: BlockId,
    chunk_size: u32,
    status: PlacementStatus,
    workers: Seq<PlannedWorkerView>,
    now_ms: u64,
) -> (RegistryView, Result<LocatedBlockView, FsFailureView>) {
    let inode = reservation.inode_id;
    match placed_target(reservation, block_id, chunk_size, status, workers) {
        Err(e) => (
            v.cancel_write_target(inode, reservation.lease_epoch, reservation.pending),
            Err(metadata_failure(ctx, e, authority.without_route())),
        ),
        Ok(target) => {
            let completed = v.complete_write_target(
                inode,
                reservation.lease_epoch,
                reservation.pending,
                target,
                now_ms,
            );
            match completed.1 {
                Ok(t) => (completed.0, Ok(t)),
                Err(CompleteWriteTargetError::NotCurrent) => (
                    completed.0,
                    Err(
                        terminal_failure(
                            ctx,
                            session_expired(),
                            "write session expired before AllocateBlock completed for inode_id="@
                                + decimal(inode.0 as nat),
                            authority,
                        ),
                    ),
                ),
                Err(CompleteWriteTargetError::InvalidTarget(e)) => (
                    completed.0,
                    Err(
                        metadata_failure(
                            ctx,
                            MetadataErrorView {
                                code: MetadataErrorCode::InvalidArgument,
                                text: "AllocateBlock rejected for inode_id="@ + decimal(
                                    inode.0 as nat,
                                ) + ": "@ + e.text(),
                            },
                            authority.without_route(),
                        ),
                    ),
                ),
            }
        },
    }
}

/// Finishes an allocation: installs the placed target, or releases the reservation.
pub fn finish_allocation(
    registry: &mut SessionRegistry,
    ctx: &RequestContext,
    authority: &Authority,
    reservation: WriteTargetReservation,
    block_id: BlockId,
    chunk_size: u32,
    plan: &PlacementPlan,
    now_ms: u64,
) -> (r: Result<LocatedBlock, FsFailure>)
    requires
        old(registry).wf(),
    ensures
        final(registry).wf(),
        final(registry).limits() == old(registry).limits(),
        ({
            let outcome = allocation_finished(
                old(registry)@,
                ctx@,
                authority@,
                reservation,
                block_id,
                chunk_size,
                plan.status,
                planned_views(plan.workers@),
                now_ms,
            );
            &&& final(registry)@ == outcome.0
            &&& match r {
                Ok(t) => outcome.1 == Ok::<LocatedBlockView, FsFailureView>(t@),
                Err(f) => outcome.1 == Err::<LocatedBlockView, FsFailureView>(f@),
            }
        }),
{
    let target = match build_target(reservation, block_id, chunk_size, plan) {
        Ok(target) => target,
        Err(e) => {
            reservation.release(registry);
            return Err(error_failure(ctx, &e, authority));
        },
    };
    match reservation.complete(registry, target, now_ms) {
        Ok(target) => Ok(target),
        Err(CompleteWriteTargetError::NotCurrent) => Err(
            expired_failure(
                ctx,
                with_inode(
                    "write session expired before AllocateBlock completed for inode_id=",
                    reservation.inode_id,
                ),
                authority,
            ),
        ),
        Err(CompleteWriteTargetError::InvalidTarget(e)) => {
            let text = e.message();
            let mut out = with_inode(
                "AllocateBlock rejected for inode_id=",
                reservation.inode_id,
            );
            out.append(": ");
            out.append(text.as_str());
            Err(error_failure(ctx, &MetadataError::InvalidArgument(out), authority))
        },
    }
}

/// Whether an allocation may end so after its command returned: a block that was allocated
/// is placed on the best known worker, and its target issued.
pub open spec fn allocation_settled(
    v: RegistryView,
    ctx: RequestContextView,
    authority: AuthorityView,
    reservation: WriteTargetReservation,
    chunk_size: u32,
    block: Result<BlockId, MetadataErrorView>,
    workers: Option<Seq<WorkerPlacementView>>,
    caller: Option<CallerContextFields>,
    now_ms: u64,
    outcome: (RegistryView, Result<LocatedBlockView, FsFailureView>),
) -> bool {
    match unplaceable(ctx, authority, block, workers is Some) {
        Some(f) => outcome == (
            v.cancel_write_target(
                reservation.inode_id,
                reservation.lease_epoch,
                reservation.pending,
            ),
            Err::<LocatedBlockView, FsFailureView>(f),
        ),
        None => exists|req: PlacementRequest, planned: Seq<PlannedWorkerView>|
            {
                &&& asks_for_new_block(
                    req,
                    authority.group_name,
                    block->Ok_0,
                    reservation.layout,
                    caller,
                )
                &&& #[trigger] is_plan(req, workers->0, planned)
                &&& outcome == allocation_finished(
                    v,
                    ctx,
                    authority,
                    reservation,
                    block->Ok_0,
                    chunk_size,
                    placement_status(req, workers->0),
                    planned,
                    now_ms,
                )
            },
    }
}

/// The value of the workers that are known.
pub open spec fn known_workers(workers: Option<Vec<WorkerPlacementView>>) -> Option<
    Seq<WorkerPlacementView>,
> {
    match workers {
        Some(w) => Some(w@),
        None => None,
    }
}

/// The value of what a session registry and an allocation came to.
pub open spec fn target_outcome(
    v: RegistryView,
    r: Result<LocatedBlock, FsFailure>,
) -> (RegistryView, Result<LocatedBlockView, FsFailureView>) {
    (
        v,
        match r {
            Ok(t) => Ok(t@),
            Err(f) => Err(f@),
        },
    )
}

/// Ends an allocation with what its command returned. `workers` are those of the owner
/// group, where workers are known at all.
pub fn settle_allocation(
    registry: &mut SessionRegistry,
    ctx: &RequestContext,
    authority: &Authority,
    reservation: WriteTargetReservation,
    chunk_size: u32,
    reply: RaftReply,
    workers: &Option<Vec<WorkerPlacementView>>,
    caller: Option<CallerContextFields>,
    now_ms: u64,
) -> (r: Result<LocatedBlock, FsFailure>)
    requires
        old(registry).wf(),
    ensures
        final(registry).wf(),
        final(registry).limits() == old(registry).limits(),
        allocation_settled(
            old(registry)@,
            ctx@,
            authority@,
            reservation,
            chunk_size,
            block_allocation(reply, reservation.inode_id),
            known_workers(*workers),
            caller,
            now_ms,
            target_outcome(final(registry)@, r),
        ),
{
    let block = decode_block_allocation(reply, reservation.inode_id);
    let allocated = match &block {
        Ok(block_id) => Some(*block_id),
        Err(_) => None,
    };
    let request = match request_placement(
        registry,
        ctx,
        authority,
        reservation,
        block,
        workers.is_some(),
        caller,
    ) {
        Ok(request) => request,
        Err(f) => return Err(f),
    };
    let block_id = allocated.unwrap();
    let plan = PlacementPlanner.plan(&request, workers.as_ref().unwrap());
    finish_allocation(
        registry,
        ctx,
        authority,
        reservation,
        block_id,
        chunk_size,
        &plan,
        now_ms,
    )
}

/// An allocation that fails holds no capacity: its step is not pending any more.
pub proof fn a_failed_allocation_holds_no_capacity(
    v: RegistryView,
    limits: RegistryLimits,
    ctx: RequestContextView,
    authority: AuthorityView,
    reservation: WriteTargetReservation,
    chunk_size: u32,
    block: Result<BlockId, MetadataErrorView>,
    workers: Option<Seq<WorkerPlacementView>>,
    caller: Option<CallerContextFields>,
    now_ms: u64,
    outcome: (RegistryView, Result<LocatedBlockView, FsFailureView>),
)
    requires
        v.wf(limits),
        allocation_settled(
            v,
            ctx,
            authority,
            reservation,
            chunk_size,
            block,
            workers,
            caller,
            now_ms,
            outcome,
        ),
        outcome.1 is Err,
    ensures
        !outcome.0.is_current_pending(
            reservation.inode_id,
            reservation.lease_epoch,
            reservation.pending,
        ),
{
    let key = reservation.inode_id.0;
    assert(v.entries.contains_key(key) ==> v.entry_wf(key, limits));
    let t = v.tidied(key, now_ms);
    tidied_keeps_counters(v, limits, key, now_ms);
    assert(t.entries.contains_key(key) ==> t.entry_wf(key, limits));
}

/// An allocation that succeeds issues its block to the client of the session, at the offset
/// that was reserved and under the epoch that was presented.
pub proof fn an_issued_target_is_what_was_reserved(
    v: RegistryView,
    ctx: RequestContextView,
    authority: AuthorityView,
    reservation: WriteTargetReservation,
    chunk_size: u32,
    block: Result<BlockId, MetadataErrorView>,
    workers: Option<Seq<WorkerPlacementView>>,
    caller: Option<CallerContextFields>,
    now_ms: u64,
    outcome: (RegistryView, Result<LocatedBlockView, FsFailureView>),
)
    requires
        allocation_settled(
            v,
            ctx,
            authority,
            reservation,
            chunk_size,
            block,
            workers,
            caller,
            now_ms,
            outcome,
        ),
        outcome.1 is Ok,
    ensures
        block is Ok,
        ({
            let target = outcome.1->Ok_0;
            &&& target.block_id == block->Ok_0
            &&& target.file_offset == reservation.file_offset
            &&& target.write_offset == 0
            &&& target.fencing_token == (FencingToken {
                block_id: block->Ok_0,
                owner: reservation.open_client_id,
                epoch: reservation.lease_epoch,
            })
            &&& target.worker_endpoints.len() > 0
        }),
{
}

// ---- renewal ----

/// The diagnostic text of a session error.
pub open spec fn session_error_text(error: WriteSessionError) -> Seq<char> {
    match error {
        WriteSessionError::NotFound => "NotFound"@,
        WriteSessionError::LeaseEpochMismatch { expected, got } =>
            "LeaseEpochMismatch { expected: LeaseEpoch("@ + decimal(expected.0 as nat)
                + "), got: LeaseEpoch("@ + decimal(got.0 as nat) + ") }"@,
        WriteSessionError::OwnerMismatch => "OwnerMismatch"@,
        WriteSessionError::Expired => "Expired"@,
    }
}

fn session_error_message(error: WriteSessionError) -> (r: String)
    ensures
        r@ == session_error_text(error),
{
    match error {
        WriteSessionError::NotFound => "NotFound".to_owned(),
        WriteSessionError::LeaseEpochMismatch { expected, got } => {
            let expected_text = decimal_text(expected.0 as u128);
            let got_text = decimal_text(got.0 as u128);
            let mut out = join(
                "LeaseEpochMismatch { expected: LeaseEpoch(",
                expected_text.as_str(),
            );
            out.append("), got: LeaseEpoch(");
            out.append(got_text.as_str());
            out.append(") }");
            out
        },
        WriteSessionError::OwnerMismatch => "OwnerMismatch".to_owned(),
        WriteSessionError::Expired => "Expired".to_owned(),
    }
}

/// What renewing a lease does and answers.
pub open spec fn lease_renewed(
    v: RegistryView,
    limits: RegistryLimits,
    ctx: RequestContextView,
    authority: AuthorityView,
    session: WriteSessionIdentity,
    inode: InodeId,
    epoch: LeaseEpoch,
    now_ms: u64,
) -> (RegistryView, Result<u64, FsFailureView>) {
    if epoch != session.lease_epoch {
        (
            v,
            Err(
                terminal_failure(
                    ctx,
                    session_invalid(),
                    epoch_mismatch_text(inode, session.lease_epoch, epoch),
                    authority,
                ),
            ),
        )
    } else {
        let renewed = v.renew_session(
            limits,
            inode,
            epoch,
            ctx.caller.client.client_id,
            now_ms,
        );
        match renewed.1 {
            Ok(expires_at_ms) => (renewed.0, Ok(expires_at_ms)),
            Err(WriteSessionError::Expired) => (
                renewed.0,
                Err(
                    terminal_failure(
                        ctx,
                        session_expired(),
                        "lease renewal rejected for inode_id="@ + decimal(inode.0 as nat)
                            + "; write lease expired"@,
                        authority,
                    ),
                ),
            ),
            Err(e) => (
                renewed.0,
                Err(
                    terminal_failure(
                        ctx,
                        session_invalid(),
                        "write session renewal rejected for inode_id="@ + decimal(inode.0 as nat)
                            + ": "@ + session_error_text(e),
                        authority,
                    ),
                ),
            ),
        }
    }
}

/// Renews the caller's lease. Returns the new deadline.
pub fn renew_lease(
    registry: &mut SessionRegistry,
    ctx: &RequestContext,
    authority: &Authority,
    session: WriteSessionIdentity,
    inode: InodeId,
    epoch: LeaseEpoch,
    now_ms: u64,
) -> (r: Result<u64, FsFailure>)
    requires
        old(registry).wf(),
    ensures
        final(registry).wf(),
        final(registry).limits() == old(registry).limits(),
        ({
            let outcome = lease_renewed(
                old(registry)@,
                old(registry).limits(),
                ctx@,
                authority@,
                session,
                inode,
                epoch,
                now_ms,
            );
            &&& final(registry)@ == outcome.0
            &&& match r {
                Ok(t) => outcome.1 == Ok::<u64, FsFailureView>(t),
                Err(f) => outcome.1 == Err::<u64, FsFailureView>(f@),
            }
        }),
{
    if epoch != session.lease_epoch {
        return Err(
            invalid_failure(
                ctx,
                epoch_mismatch_message(inode, session.lease_epoch, epoch),
                authority,
            ),
        );
    }
    match registry.renew_session_at(inode, epoch, ctx.caller.client.client_id, now_ms) {
        Ok(expires_at_ms) => Ok(expires_at_ms),
        Err(e) => match e {
            WriteSessionError::Expired => {
                let mut out = with_inode("lease renewal rejected for inode_id=", inode);
                out.append("; write lease expired");
                Err(expired_failure(ctx, out, authority))
            },
            _ => {
                let text = session_error_message(e);
                let mut out = with_inode("write session renewal rejected for inode_id=", inode);
                out.append(": ");
                out.append(text.as_str());
                Err(invalid_failure(ctx, out, authority))
            },
        },
    }
}

// ---- abort ----

/// Durable record of who created a file, by which a restarted leader knows the first
/// owner.
#[derive(Clone, Copy, Debug, PartialEq, Eq, Structural)]
pub struct CreateReplayRecord {
    pub client_id: ClientId,
    pub lease_epoch: LeaseEpoch,
    pub mount_id: MountId,
}

/// The mount of the lease that an abort is to end. `None` means that there is nothing to
/// end, and the abort succeeds at once.
pub open spec fn abort_mount(
    v: RegistryView,
    ctx: RequestContextView,
    inode: InodeId,
    epoch: LeaseEpoch,
    replay: Result<Option<CreateReplayRecord>, MetadataErrorView>,
) -> Result<Option<MountId>, FsFailureView> {
    let unknown = AuthorityView::unknown();
    match v.session_identity(inode) {
        Some(s) => if s.open_client_id != ctx.caller.client.client_id {
            Err(
                terminal_failure(
                    ctx,
                    session_invalid(),
                    not_owned_text("AbortFileWrite"@, inode),
                    unknown,
                ),
            )
        } else if epoch != s.lease_epoch {
            Err(
                terminal_failure(
                    ctx,
                    session_invalid(),
                    epoch_mismatch_text(inode, s.lease_epoch, epoch),
                    unknown,
                ),
            )
        } else {
            Ok(Some(s.mount_id))
        },
        None => match replay {
            Err(e) => Err(metadata_failure(ctx, e, unknown)),
            Ok(Some(record)) => if record.client_id == ctx.caller.client.client_id
                && record.lease_epoch == epoch {
                Ok(Some(record.mount_id))
            } else {
                Ok(None)
            },
            Ok(None) => Ok(None),
        },
    }
}

/// The value of what reading a create record returned.
pub open spec fn replay_read_view(
    replay: Result<Option<CreateReplayRecord>, MetadataError>,
) -> Result<Option<CreateReplayRecord>, MetadataErrorView> {
    match replay {
        Ok(r) => Ok(r),
        Err(e) => Err(e@),
    }
}

/// Returns the mount of the lease that an abort is to end, if there is one. `replay` is
/// what reading the durable create record returned; it counts only without a session.
pub fn plan_abort(
    registry: &mut SessionRegistry,
    ctx: &RequestContext,
    inode: InodeId,
    epoch: LeaseEpoch,
    replay: Result<Option<CreateReplayRecord>, MetadataError>,
    now_ms: u64,
) -> (r: Result<Option<MountId>, FsFailure>)
    requires
        old(registry).wf(),
    ensures
        final(registry).wf(),
        final(registry).limits() == old(registry).limits(),
        final(registry)@ == old(registry)@.tidied(inode.0, now_ms),
        ({
            let planned = abort_mount(
                final(registry)@,
                ctx@,
                inode,
                epoch,
                replay_read_view(replay),
            );
            match r {
                Ok(m) => planned == Ok::<Option<MountId>, FsFailureView>(m),
                Err(f) => planned == Err::<Option<MountId>, FsFailureView>(f@),
            }
        }),
{
    let unknown = Authority::unknown();
    match registry.get_session_identity(inode, now_ms) {
        Some(session) => {
            if session.open_client_id != ctx.caller.client.client_id {
                return Err(
                    invalid_failure(ctx, not_owned_message("AbortFileWrite", inode), &unknown),
                );
            }
            if epoch != session.lease_epoch {
                return Err(
                    invalid_failure(
                        ctx,
                        epoch_mismatch_message(inode, session.lease_epoch, epoch),
                        &unknown,
                    ),
                );
            }
            Ok(Some(session.mount_id))
        },
        None => match replay {
            Err(e) => Err(fs_failure_from_metadata_error(ctx, &e, &unknown)),
            Ok(Some(record)) => if record.client_id == ctx.caller.client.client_id
                && record.lease_epoch == epoch {
                Ok(Some(record.mount_id))
            } else {
                Ok(None)
            },
            Ok(None) => Ok(None),
        },
    }
}

/// Whether ending the lease of `inode` at `epoch` succeeded: the epoch behind it is now in
/// force.
pub open spec fn lease_end_reply(reply: RaftReply, inode: InodeId, epoch: LeaseEpoch) -> Result<
    (),
    MetadataErrorView,
> {
    match reply {
        Err(e) => Err(e@),
        Ok(success) => if epoch.next() is Some && success == (ApplySuccess::WriteLeaseEnded {
            inode_id: inode,
            lease_epoch: epoch.next()->0,
        }) {
            Ok(())
        } else {
            Err(unexpected_success("EndWriteLease"@, success))
        },
    }
}

/// What finishing an abort does and answers: only the session with the ended epoch goes.
pub open spec fn abort_finished(
    v: RegistryView,
    ctx: RequestContextView,
    authority: AuthorityView,
    inode: InodeId,
    epoch: LeaseEpoch,
    reply: RaftReply,
) -> (RegistryView, Result<(), FsFailureView>) {
    match lease_end_reply(reply, inode, epoch) {
        Err(e) => (v, Err(metadata_failure(ctx, e, authority.without_route()))),
        Ok(()) => (v.remove_session_if_epoch(inode, epoch).0, Ok(())),
    }
}

/// Finishes an abort with what ending the lease returned.
pub fn finish_abort(
    registry: &mut SessionRegistry,
    ctx: &RequestContext,
    authority: &Authority,
    inode: InodeId,
    epoch: LeaseEpoch,
    reply: RaftReply,
) -> (r: Result<(), FsFailure>)
    requires
        old(registry).wf(),
    ensures
        final(registry).wf(),
        final(registry).limits() == old(registry).limits(),
        ({
            let outcome = abort_finished(
                old(registry)@,
                ctx@,
                authority@,
                inode,
                epoch,
                reply,
            );
            &&& final(registry)@ == outcome.0
            &&& match r {
                Ok(()) => outcome.1 == Ok::<(), FsFailureView>(()),
                Err(f) => outcome.1 == Err::<(), FsFailureView>(f@),
            }
        }),
{
    let success = match reply {
        Err(e) => return Err(error_failure(ctx, &e, authority)),
        Ok(success) => success,
    };
    let ended = match epoch.checked_next() {
        Some(next) => success == ApplySuccess::WriteLeaseEnded { inode_id: inode, lease_epoch: next },
        None => false,
    };
    if !ended {
        let error = unexpected_raft_apply_success("EndWriteLease", success);
        return Err(error_failure(ctx, &error, authority));
    }
    registry.remove_session_if_epoch(inode, epoch);
    Ok(())
}

} // verus!
