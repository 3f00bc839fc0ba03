//! What successes, failures and the readiness of workers tell.

use vstd::prelude::*;

use crate::error::MetadataError;
use crate::filesystem::context::{
    failure_from_admission, failure_from_resolved_path_error, fs_failure_from_rpc_error,
    missing_resolved_target_error, refresh_metadata_failure_with_hint, refresh_metadata_fs_failure,
    require_worker_lookup_group, session_terminal_failure, success_with_route_epoch,
    validate_active_write_layout, worker_endpoint_from_parts, AdmissionFailure, Authority,
    FsFailure, FsSuccess, MountContext, RequestContext, ResolvedPath,
};
use crate::filesystem::readiness::{
    after_wait, needs_observation, publish_ready_conflict_failure, require_publish_deadline,
    require_publish_ready, wait_for_publish_ready, PublishReadyConflict, PublishReadyStatus,
    PublishReadyTarget, ReadyWait, WaitOutcome,
};
use crate::group_watermark::RaftLogId;
use crate::ids::{BlockId, GroupName, WorkerId};
use crate::layout::{layout_error, FileLayout, MAX_BLOCK_SIZE};
use crate::rpc_error::{ErrorKind, RefreshHint, RpcErrorDetail, WorkerErrorKind};
use crate::worker_info::{WorkerEndpointInfo, WorkerNetProtocol, WorkerRunId};

verus! {

/// A success carries its payload under the authority that gave it. A leader that knows its owner
/// group also tells how far it has applied the group's log.
pub proof fn a_success_tells_its_authority<T>(
    payload: T,
    authority: &Authority,
    leader_state: Option<RaftLogId>,
    r: FsSuccess<T>,
)
    requires
        call_ensures(success_with_route_epoch::<T>, (payload, authority, leader_state), r),
    ensures
        r.payload == payload,
        r.group_name is Some <==> authority.group_name is Some,
        r.group_name is Some ==> (r.group_name->0)@ == (authority.group_name->0)@,
        r.mount_epoch == authority.mount_epoch,
        r.route_epoch == authority.route_epoch,
        r.state@.len() == (if authority.group_name is Some && leader_state is Some {
            1nat
        } else {
            0nat
        }),
        r.state@.len() > 0 ==> r.state@[0].state_id == leader_state->0 && r.state@[0].group_name@
            == (authority.group_name->0)@,
{
    let views = crate::group_watermark::watermark_views(r.state@);
    assert(views.len() == r.state@.len());
    if r.state@.len() > 0 {
        assert(views[0] == r.state@[0]@);
    }
}

/// A failure tells its error under the authority that gave it. Where no owner group is known it
/// names the group that the caller asked, and it never tells an applied state.
pub proof fn a_failure_tells_its_error(
    ctx: &RequestContext,
    error: RpcErrorDetail,
    authority: &Authority,
    r: FsFailure,
)
    requires
        call_ensures(fs_failure_from_rpc_error, (ctx, error, authority), r),
    ensures
        r.error.kind == error.kind,
        r.error.message@ == error.message@,
        r.error.recovery@ == error.recovery@,
        authority.group_name is Some ==> r.group_name is Some && (r.group_name->0)@ == (
        authority.group_name->0)@,
        authority.group_name is None ==> (r.group_name is Some
            <==> ctx.caller.group_name is Some),
        authority.group_name is None && r.group_name is Some ==> (r.group_name->0)@ == (
        ctx.caller.group_name->0)@,
        r.mount_epoch == authority.mount_epoch,
        r.route_epoch == authority.route_epoch,
        r.state@.len() == 0,
{
    assert(crate::group_watermark::watermark_views(r.state@).len() == r.state@.len());
}

/// A session that cannot go on asks its caller to open again, and tells no route.
pub proof fn a_terminal_failure_asks_to_reopen(
    ctx: &RequestContext,
    kind: ErrorKind,
    message: String,
    authority: &Authority,
    r: FsFailure,
)
    requires
        call_ensures(session_terminal_failure, (ctx, kind, message, authority), r),
    ensures
        r.error.kind == kind,
        r.error.message@ == message@,
        r.error.recovery is ReopenWriteSession,
        r.mount_epoch == authority.mount_epoch,
        r.route_epoch is None,
{
}

/// A failure that asks to refresh carries the hint that was given; where it is to repeat the
/// authority, whatever is known of that takes its place in the hint.
pub proof fn a_refresh_tells_what_is_known(
    ctx: &RequestContext,
    kind: ErrorKind,
    message: String,
    authority: &Authority,
    hint: RefreshHint,
    plain: FsFailure,
    hinted: FsFailure,
)
    requires
        call_ensures(refresh_metadata_fs_failure, (ctx, kind, message, authority, hint), plain),
        call_ensures(
            refresh_metadata_failure_with_hint,
            (ctx, kind, message, authority, hint),
            hinted,
        ),
    ensures
        plain.error.kind == kind && hinted.error.kind == kind,
        plain.error.message@ == message@ && hinted.error.message@ == message@,
        plain.error.recovery is RefreshMetadata && hinted.error.recovery is RefreshMetadata,
        plain.error.recovery->RefreshMetadata_hint@ == hint@,
        ({
            let told = hinted.error.recovery->RefreshMetadata_hint;
            &&& authority.group_name is Some ==> told.group_name is Some && (
            told.group_name->0)@ == (authority.group_name->0)@
            &&& authority.mount_epoch is Some ==> told.mount_epoch == authority.mount_epoch
            &&& authority.mount_epoch is None ==> told.mount_epoch == hint.mount_epoch
            &&& authority.route_epoch is Some ==> told.route_epoch == authority.route_epoch
            &&& authority.route_epoch is None ==> told.route_epoch == hint.route_epoch
            &&& told.worker_resolve_required == hint.worker_resolve_required
        }),
{
    assert(plain.error@.recovery == crate::rpc_error::RecoveryActionView::RefreshMetadata {
        hint: hint@,
    });
}

/// A request that was not admitted is told the refusal as it is.
pub proof fn a_refused_admission_is_told(failure: AdmissionFailure, r: FsFailure)
    requires
        call_ensures(failure_from_admission, (failure,), r),
    ensures
        r.error.kind == failure.err.kind,
        r.error.message@ == failure.err.message@,
        r.error.recovery@ == failure.err.recovery@,
        r.group_name is Some <==> failure.group_name is Some,
        r.group_name is Some ==> (r.group_name->0)@ == (failure.group_name->0)@,
        r.mount_epoch == failure.mount_epoch,
        r.route_epoch is None,
        r.state@.len() == 0,
{
    assert(crate::group_watermark::watermark_views(r.state@).len() == r.state@.len());
}

/// The failure of a path names the owner group and the epoch of its mount, where that is known.
pub proof fn a_failed_path_names_its_mount(
    ctx: &RequestContext,
    error: &MetadataError,
    mount: &Option<MountContext>,
    r: FsFailure,
)
    requires
        call_ensures(failure_from_resolved_path_error, (ctx, error, mount), r),
    ensures
        r.error.message@ == error@.text,
        *mount is Some ==> {
            &&& r.group_name is Some
            &&& (r.group_name->0)@ == ((*mount)->0).owner_group_name@
            &&& r.mount_epoch == Some(((*mount)->0).mount_epoch)
        },
        *mount is None ==> r.mount_epoch is None,
{
}

/// A path without a target is not found.
pub proof fn a_missing_target_is_not_found(resolved: &ResolvedPath, r: MetadataError)
    requires
        call_ensures(missing_resolved_target_error, (resolved,), r),
    ensures
        r is NotFound,
{
}

/// A worker is named by its number, its endpoint and its process, and only where it has all of
/// them and speaks the one protocol.
pub proof fn an_endpoint_is_named_by_its_fields(
    worker_id: WorkerId,
    endpoint: String,
    worker_net_protocol: i32,
    worker_run_id: WorkerRunId,
    r: Result<WorkerEndpointInfo, MetadataError>,
)
    requires
        call_ensures(
            worker_endpoint_from_parts,
            (worker_id, endpoint, worker_net_protocol, worker_run_id),
            r,
        ),
    ensures
        r is Ok <==> worker_net_protocol == 1 && worker_id.0 != 0 && endpoint@.len() > 0
            && worker_run_id.0 != 0,
        r is Ok ==> {
            &&& r->Ok_0.worker_id == worker_id
            &&& r->Ok_0.endpoint@ == endpoint@
            &&& r->Ok_0.worker_run_id == worker_run_id
            &&& r->Ok_0.worker_net_protocol == WorkerNetProtocol::Grpc
        },
        r is Err ==> r->Err_0 is InvalidArgument,
{
}

/// A file can be written if and only if its blocks are neither empty nor larger than a block may
/// be, and its block format is the known one.
pub proof fn a_written_file_has_a_valid_layout(layout: &FileLayout, r: Result<(), MetadataError>)
    requires
        call_ensures(validate_active_write_layout, (layout,), r),
    ensures
        r is Ok <==> 0 < layout.block_size <= MAX_BLOCK_SIZE && layout.block_format_id.0 == 2,
        r is Ok <==> layout_error(*layout) is None,
        r is Err ==> r->Err_0 is InvalidArgument,
{
}

/// Workers are looked up in the owner group, and not at all where that is not known.
pub proof fn workers_are_looked_up_in_the_owner_group(
    ctx: &RequestContext,
    authority: &Authority,
    intent: &str,
    r: Result<GroupName, FsFailure>,
)
    requires
        call_ensures(require_worker_lookup_group, (ctx, authority, intent), r),
    ensures
        r is Ok <==> authority.group_name is Some,
        r is Ok ==> (r->Ok_0)@ == (authority.group_name->0)@,
{
}

// ---- readiness ----

/// Reports are looked at if and only if there are targets. Without workers there is nothing to
/// look at, and the publication is refused.
pub proof fn targets_need_reports(
    ctx: &RequestContext,
    authority: &Authority,
    targets: &Vec<PublishReadyTarget>,
    has_workers: bool,
    r: Result<bool, FsFailure>,
)
    requires
        call_ensures(needs_observation, (ctx, authority, targets, has_workers), r),
    ensures
        r is Ok <==> targets@.len() == 0 || has_workers,
        r is Ok ==> r->Ok_0 == (targets@.len() > 0),
        r is Err ==> r->Err_0.error.kind == ErrorKind::Worker(
            WorkerErrorKind::BlockLocationUnavailable,
        ),
{
}

/// A publication waits while a report is missing and its deadline has not passed, for exactly
/// the rest of the deadline; it is done when every target is ready; and it is refused on a
/// conflict, and after the deadline.
pub proof fn a_publication_waits_for_reports(
    ctx: &RequestContext,
    authority: &Authority,
    status: PublishReadyStatus,
    now_ms: u64,
    r: Result<ReadyWait, FsFailure>,
)
    requires
        call_ensures(wait_for_publish_ready, (ctx, authority, status, now_ms), r),
    ensures
        r == Ok::<ReadyWait, FsFailure>(ReadyWait::Done) <==> status == PublishReadyStatus::Ready,
        match status {
            PublishReadyStatus::Ready => true,
            PublishReadyStatus::Conflict(_) => r is Err,
            PublishReadyStatus::Pending { block_id } => if (now_ms as int)
                < ctx.caller.deadline.0 {
                &&& r is Ok
                &&& r->Ok_0 is Wait
                &&& r->Ok_0->Wait_block_id == block_id
                &&& now_ms + r->Ok_0->Wait_remaining_ms == ctx.caller.deadline.0
            } else {
                r is Err
            },
        },
        r is Err ==> r->Err_0.error.recovery is RefreshMetadata,
{
}

/// After a wait the reports are looked at again only where something was reported.
pub proof fn only_reports_end_a_wait_well(
    ctx: &RequestContext,
    authority: &Authority,
    block_id: BlockId,
    outcome: WaitOutcome,
    r: Result<(), FsFailure>,
)
    requires
        call_ensures(after_wait, (ctx, authority, block_id, outcome), r),
    ensures
        r is Ok <==> outcome == WaitOutcome::Observed,
        outcome == WaitOutcome::TimedOut ==> r->Err_0.error.kind == ErrorKind::Worker(
            WorkerErrorKind::BlockLocationUnavailable,
        ),
{
}

/// A publication is proposed only with every target ready, or without any target.
pub proof fn only_ready_targets_are_proposed(
    ctx: &RequestContext,
    authority: &Authority,
    targets: &Vec<PublishReadyTarget>,
    has_workers: bool,
    status: PublishReadyStatus,
    r: Result<(), FsFailure>,
)
    requires
        call_ensures(
            require_publish_ready,
            (ctx, authority, targets, has_workers, status),
            r,
        ),
    ensures
        r is Ok <==> targets@.len() == 0 || (has_workers && status == PublishReadyStatus::Ready),
        r is Err ==> r->Err_0.error.recovery is RefreshMetadata,
{
}

/// A publication is refused from its deadline on, and never before.
pub proof fn publications_end_at_their_deadline(
    ctx: &RequestContext,
    authority: &Authority,
    now_ms: u64,
    r: Result<(), FsFailure>,
)
    requires
        call_ensures(require_publish_deadline, (ctx, authority, now_ms), r),
    ensures
        r is Ok <==> (now_ms as int) < ctx.caller.deadline.0,
        r is Err && authority.group_name is Some ==> r->Err_0.error.recovery is RefreshMetadata,
        r is Err && authority.group_name is None ==> r->Err_0.error.recovery is Retry,
{
}

/// Each conflict has its own kind. The caller is to look its workers up again where the worker
/// has changed, and not where the block itself is at fault.
pub proof fn conflicts_are_told_apart(
    ctx: &RequestContext,
    conflict: PublishReadyConflict,
    authority: &Authority,
    r: FsFailure,
)
    requires
        call_ensures(publish_ready_conflict_failure, (ctx, conflict, authority), r),
    ensures
        r.error.recovery is RefreshMetadata,
        r.error.kind == ErrorKind::Worker(WorkerErrorKind::RunMismatch)
            <==> conflict is WorkerRunMismatch,
        r.error.kind == ErrorKind::Worker(WorkerErrorKind::Fencing)
            <==> conflict is LeaseEpochMismatch,
        r.error.kind == ErrorKind::Worker(WorkerErrorKind::Corrupt)
            <==> conflict is UnreadableBlock,
        r.error.kind == ErrorKind::Worker(WorkerErrorKind::BlockLocationUnavailable)
            <==> conflict is MissingWriteEndpoint || conflict is EndpointMismatch,
        r.error.recovery->RefreshMetadata_hint.worker_resolve_required
            <==> conflict is MissingWriteEndpoint || conflict is EndpointMismatch
            || conflict is WorkerRunMismatch,
{
}

} // verus!
