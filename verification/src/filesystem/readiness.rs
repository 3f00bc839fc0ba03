//! What workers must have reported before a file publication is proposed.

use vstd::prelude::*;

use crate::error::{MetadataError, MetadataErrorCode, MetadataErrorView};
use crate::filesystem::context::{
    authority_hint, fs_failure_from_metadata_error, metadata_failure,
    refresh_metadata_failure_with_hint, refresh_failure, Authority, AuthorityView, FsFailure,
    FsFailureView, RequestContext, RequestContextView,
};
use crate::ids::{block_id_text, BlockId, WorkerId};
use crate::lease::LeaseEpoch;
use crate::location::{LocatedBlock, LocatedBlockView};
use crate::outside_uuid::hyphenated_text;
use crate::rpc_error::{ErrorKind, RefreshHint, RefreshHintView, WorkerErrorKind};
use crate::text::{decimal, decimal_text, join};
use crate::worker_info::{BlockReportBlockState, WorkerRunId};

verus! {

/// A target that a worker must have reported ready, with the length that is published.
#[derive(Debug)]
pub struct PublishReadyTarget {
    pub target: LocatedBlock,
    pub effective_len: u64,
}

/// The value of a `PublishReadyTarget`.
pub struct PublishReadyTargetView {
    pub target: LocatedBlockView,
    pub effective_len: u64,
}

impl View for PublishReadyTarget {
    type V = PublishReadyTargetView;

    open spec fn view(&self) -> PublishReadyTargetView {
        PublishReadyTargetView { target: self.target@, effective_len: self.effective_len }
    }
}

/// The values of a sequence of targets.
pub open spec fn ready_target_views(targets: Seq<PublishReadyTarget>) -> Seq<
    PublishReadyTargetView,
> {
    targets.map_values(|t: PublishReadyTarget| t@)
}

/// An observation that no later report can turn into readiness.
#[derive(Clone, Copy, Debug, PartialEq, Eq, Structural)]
pub enum PublishReadyConflict {
    MissingWriteEndpoint { block_id: BlockId },
    WorkerRunMismatch {
        block_id: BlockId,
        worker_id: WorkerId,
        expected: WorkerRunId,
        current: Option<WorkerRunId>,
    },
    EndpointMismatch { block_id: BlockId, worker_id: WorkerId },
    LeaseEpochMismatch {
        block_id: BlockId,
        worker_id: WorkerId,
        expected_epoch: LeaseEpoch,
        reported_epoch: LeaseEpoch,
    },
    UnreadableBlock { block_id: BlockId, worker_id: WorkerId, state: BlockReportBlockState },
}

/// What the workers have reported of all targets.
#[derive(Clone, Copy, Debug, PartialEq, Eq, Structural)]
pub enum PublishReadyStatus {
    /// Every target is ready.
    Ready,
    /// A report of this block is still missing.
    Pending { block_id: BlockId },
    /// The publication cannot go on.
    Conflict(PublishReadyConflict),
}

/// The diagnostic text of an optional run identity.
pub open spec fn optional_run_text(run: Option<WorkerRunId>) -> Seq<char> {
    match run {
        None => "None"@,
        Some(run) => "Some(WorkerRunId("@ + hyphenated_text(run.0) + "))"@,
    }
}

fn optional_run_message(run: Option<WorkerRunId>) -> (r: String)
    ensures
        r@ == optional_run_text(run),
{
    match run {
        None => "None".to_owned(),
        Some(run) => {
            let text = run.to_text();
            let mut out = join("Some(WorkerRunId(", text.as_str());
            out.append("))");
            out
        },
    }
}

impl PublishReadyConflict {
    /// The kind of failure that a conflict gives.
    pub open spec fn kind(self) -> ErrorKind {
        match self {
            PublishReadyConflict::MissingWriteEndpoint { .. } => location_unavailable(),
            PublishReadyConflict::WorkerRunMismatch { .. } => ErrorKind::Worker(
                WorkerErrorKind::RunMismatch,
            ),
            PublishReadyConflict::EndpointMismatch { .. } => location_unavailable(),
            PublishReadyConflict::LeaseEpochMismatch { .. } => ErrorKind::Worker(
                WorkerErrorKind::Fencing,
            ),
            PublishReadyConflict::UnreadableBlock { .. } => ErrorKind::Worker(
                WorkerErrorKind::Corrupt,
            ),
        }
    }

    /// Whether the caller has to look its workers up again.
    pub open spec fn needs_resolution(self) -> bool {
        match self {
            PublishReadyConflict::MissingWriteEndpoint { .. } => true,
            PublishReadyConflict::WorkerRunMismatch { .. } => true,
            PublishReadyConflict::EndpointMismatch { .. } => true,
            PublishReadyConflict::LeaseEpochMismatch { .. } => false,
            PublishReadyConflict::UnreadableBlock { .. } => false,
        }
    }

    /// The wording of a conflict.
    pub open spec fn text(self) -> Seq<char> {
        match self {
            PublishReadyConflict::MissingWriteEndpoint { block_id } => "block "@ + block_id_text(
                block_id,
            ) + " has no metadata-authorized write endpoint"@,
            PublishReadyConflict::WorkerRunMismatch { block_id, worker_id, expected, current } =>
                "worker run changed before publishing block "@ + block_id_text(block_id)
                    + ": worker_id="@ + decimal(worker_id.0 as nat) + ", expected="@
                    + hyphenated_text(expected.0) + ", current="@ + optional_run_text(current),
            PublishReadyConflict::EndpointMismatch { block_id, worker_id } =>
                "worker endpoint changed before publishing block "@ + block_id_text(block_id)
                    + ": worker_id="@ + decimal(worker_id.0 as nat),
            PublishReadyConflict::LeaseEpochMismatch {
                block_id,
                worker_id,
                expected_epoch,
                reported_epoch,
            } => "worker reported the wrong writer epoch for block "@ + block_id_text(block_id)
                + ": worker_id="@ + decimal(worker_id.0 as nat) + ", expected="@ + decimal(
                expected_epoch.0 as nat,
            ) + ", reported="@ + decimal(reported_epoch.0 as nat),
            PublishReadyConflict::UnreadableBlock { block_id, worker_id, state } =>
                "worker reported an unreadable block before publication: block_id="@
                    + block_id_text(block_id) + ", worker_id="@ + decimal(worker_id.0 as nat)
                    + ", state="@ + state.text(),
        }
    }

    /// Returns the wording of a conflict.
    pub fn message(self) -> (r: String)
        ensures
            r@ == self.text(),
    {
        match self {
            PublishReadyConflict::MissingWriteEndpoint { block_id } => {
                let block = block_id.to_text();
                let mut out = join("block ", block.as_str());
                out.append(" has no metadata-authorized write endpoint");
                out
            },
            PublishReadyConflict::WorkerRunMismatch { block_id, worker_id, expected, current } => {
                let block = block_id.to_text();
                let worker = decimal_text(worker_id.0 as u128);
                let expected_text = expected.to_text();
                let current_text = optional_run_message(current);
                let mut out = join("worker run changed before publishing block ", block.as_str());
                out.append(": worker_id=");
                out.append(worker.as_str());
                out.append(", expected=");
                out.append(expected_text.as_str());
                out.append(", current=");
                out.append(current_text.as_str());
                out
            },
            PublishReadyConflict::EndpointMismatch { block_id, worker_id } => {
                let block = block_id.to_text();
                let worker = decimal_text(worker_id.0 as u128);
                let mut out = join(
                    "worker endpoint changed before publishing block ",
                    block.as_str(),
                );
                out.append(": worker_id=");
                out.append(worker.as_str());
                out
            },
            PublishReadyConflict::LeaseEpochMismatch {
                block_id,
                worker_id,
                expected_epoch,
                reported_epoch,
            } => {
                let block = block_id.to_text();
                let worker = decimal_text(worker_id.0 as u128);
                let expected_text = decimal_text(expected_epoch.0 as u128);
                let reported_text = decimal_text(reported_epoch.0 as u128);
                let mut out = join(
                    "worker reported the wrong writer epoch for block ",
                    block.as_str(),
                );
                out.append(": worker_id=");
                out.append(worker.as_str());
                out.append(", expected=");
                out.append(expected_text.as_str());
                out.append(", reported=");
                out.append(reported_text.as_str());
                out
            },
            PublishReadyConflict::UnreadableBlock { block_id, worker_id, state } => {
                let block = block_id.to_text();
                let worker = decimal_text(worker_id.0 as u128);
                let mut out = join(
                    "worker reported an unreadable block before publication: block_id=",
                    block.as_str(),
                );
                out.append(", worker_id=");
                out.append(worker.as_str());
                out.append(", state=");
                out.append(state.name());
                out
            },
        }
    }
}

/// The kind of failure for a block that no known worker has ready.
pub open spec fn location_unavailable() -> ErrorKind {
    ErrorKind::Worker(WorkerErrorKind::BlockLocationUnavailable)
}

/// The failure of a publication that asks the caller to refresh its metadata. `resolve`
/// asks it to look its workers up again.
pub open spec fn ready_failure(
    ctx: RequestContextView,
    kind: ErrorKind,
    message: Seq<char>,
    authority: AuthorityView,
    resolve: bool,
) -> FsFailureView {
    refresh_failure(
        ctx,
        kind,
        message,
        authority,
        authority_hint(
            authority,
            RefreshHintView { worker_resolve_required: resolve, ..RefreshHintView::none() },
        ),
    )
}

/// Creates the failure of a publication that asks the caller to refresh its metadata.
pub fn publish_ready_refresh_failure(
    ctx: &RequestContext,
    kind: ErrorKind,
    message: String,
    authority: &Authority,
    worker_resolve_required: bool,
) -> (r: FsFailure)
    ensures
        r@ == ready_failure(ctx@, kind, message@, authority@, worker_resolve_required),
{
    let mut hint = RefreshHint::default();
    hint.worker_resolve_required = worker_resolve_required;
    refresh_metadata_failure_with_hint(ctx, kind, message, authority, hint)
}

/// The failure that a conflict gives.
pub open spec fn conflict_failure(
    ctx: RequestContextView,
    conflict: PublishReadyConflict,
    authority: AuthorityView,
) -> FsFailureView {
    ready_failure(ctx, conflict.kind(), conflict.text(), authority, conflict.needs_resolution())
}

/// Creates the failure that a conflict gives.
pub fn publish_ready_conflict_failure(
    ctx: &RequestContext,
    conflict: PublishReadyConflict,
    authority: &Authority,
) -> (r: FsFailure)
    ensures
        r@ == conflict_failure(ctx@, conflict, authority@),
{
    let message = conflict.message();
    let (kind, resolve) = match conflict {
        PublishReadyConflict::MissingWriteEndpoint { .. } => (
            ErrorKind::Worker(WorkerErrorKind::BlockLocationUnavailable),
            true,
        ),
        PublishReadyConflict::WorkerRunMismatch { .. } => (
            ErrorKind::Worker(WorkerErrorKind::RunMismatch),
            true,
        ),
        PublishReadyConflict::EndpointMismatch { .. } => (
            ErrorKind::Worker(WorkerErrorKind::BlockLocationUnavailable),
            true,
        ),
        PublishReadyConflict::LeaseEpochMismatch { .. } => (
            ErrorKind::Worker(WorkerErrorKind::Fencing),
            false,
        ),
        PublishReadyConflict::UnreadableBlock { .. } => (
            ErrorKind::Worker(WorkerErrorKind::Corrupt),
            false,
        ),
    };
    publish_ready_refresh_failure(ctx, kind, message, authority, resolve)
}

/// The failure where nothing is known of the workers.
pub open spec fn no_observations(ctx: RequestContextView, authority: AuthorityView) -> FsFailureView {
    ready_failure(
        ctx,
        location_unavailable(),
        "worker observations are unavailable for file publication"@,
        authority,
        false,
    )
}

/// Whether readiness is decided before any report is looked at: with no target there is
/// nothing to wait for, and without workers there is nothing to look at.
pub open spec fn decided_unobserved(
    ctx: RequestContextView,
    authority: AuthorityView,
    targets: nat,
    has_workers: bool,
) -> Option<Result<(), FsFailureView>> {
    if targets == 0 {
        Some(Ok(()))
    } else if !has_workers {
        Some(Err(no_observations(ctx, authority)))
    } else {
        None
    }
}

/// Returns whether reports have to be looked at.
pub fn needs_observation(
    ctx: &RequestContext,
    authority: &Authority,
    targets: &Vec<PublishReadyTarget>,
    has_workers: bool,
) -> (r: Result<bool, FsFailure>)
    ensures
        match decided_unobserved(ctx@, authority@, targets@.len(), has_workers) {
            None => r == Ok::<bool, FsFailure>(true),
            Some(Ok(())) => r == Ok::<bool, FsFailure>(false),
            Some(Err(f)) => r is Err && (r->Err_0)@ == f,
        },
{
    if targets.len() == 0 {
        return Ok(false);
    }
    if !has_workers {
        return Err(
            publish_ready_refresh_failure(
                ctx,
                ErrorKind::Worker(WorkerErrorKind::BlockLocationUnavailable),
                "worker observations are unavailable for file publication".to_owned(),
                authority,
                false,
            ),
        );
    }
    Ok(true)
}

/// What a waiting publication does next.
#[derive(Clone, Copy, Debug, PartialEq, Eq, Structural)]
pub enum ReadyWait {
    /// Every target is ready.
    Done,
    /// Wait for the next report, at most so many milliseconds.
    Wait { block_id: BlockId, remaining_ms: u64 },
}

/// The failure of a publication whose deadline came first.
pub open spec fn wait_expired(
    ctx: RequestContextView,
    authority: AuthorityView,
    block_id: BlockId,
) -> FsFailureView {
    ready_failure(
        ctx,
        location_unavailable(),
        "deadline expired while waiting for Ready report for block "@ + block_id_text(block_id),
        authority,
        false,
    )
}

fn wait_expired_failure(ctx: &RequestContext, authority: &Authority, block_id: BlockId) -> (r:
    FsFailure)
    ensures
        r@ == wait_expired(ctx@, authority@, block_id),
{
    let block = block_id.to_text();
    publish_ready_refresh_failure(
        ctx,
        ErrorKind::Worker(WorkerErrorKind::BlockLocationUnavailable),
        join("deadline expired while waiting for Ready report for block ", block.as_str()),
        authority,
        false,
    )
}

/// What a waiting publication does next, given what has been reported so far.
pub open spec fn wait_step(
    ctx: RequestContextView,
    authority: AuthorityView,
    status: PublishReadyStatus,
    now_ms: u64,
) -> Result<ReadyWait, FsFailureView> {
    match status {
        PublishReadyStatus::Ready => Ok(ReadyWait::Done),
        PublishReadyStatus::Conflict(conflict) => Err(conflict_failure(ctx, conflict, authority)),
        PublishReadyStatus::Pending { block_id } => if now_ms >= ctx.caller.deadline.0 {
            Err(wait_expired(ctx, authority, block_id))
        } else {
            Ok(
                ReadyWait::Wait {
                    block_id,
                    remaining_ms: (ctx.caller.deadline.0 - now_ms) as u64,
                },
            )
        },
    }
}

/// Decides what a waiting publication does next. `status` is taken after the reports are
/// subscribed to, so that none is missed.
pub fn wait_for_publish_ready(
    ctx: &RequestContext,
    authority: &Authority,
    status: PublishReadyStatus,
    now_ms: u64,
) -> (r: Result<ReadyWait, FsFailure>)
    ensures
        match r {
            Ok(step) => wait_step(ctx@, authority@, status, now_ms) == Ok::<
                ReadyWait,
                FsFailureView,
            >(step),
            Err(f) => wait_step(ctx@, authority@, status, now_ms) == Err::<
                ReadyWait,
                FsFailureView,
            >(f@),
        },
{
    match status {
        PublishReadyStatus::Ready => Ok(ReadyWait::Done),
        PublishReadyStatus::Conflict(conflict) => Err(
            publish_ready_conflict_failure(ctx, conflict, authority),
        ),
        PublishReadyStatus::Pending { block_id } => {
            let remaining_ms: u64 = ctx.caller.deadline.remaining_ms(now_ms);
            if remaining_ms == 0 {
                return Err(wait_expired_failure(ctx, authority, block_id));
            }
            Ok(ReadyWait::Wait { block_id, remaining_ms })
        },
    }
}

/// How waiting for a report ended.
#[derive(Clone, Copy, Debug, PartialEq, Eq, Structural)]
pub enum WaitOutcome {
    Observed,
    Closed,
    TimedOut,
}

/// Why waiting ended the publication, if it did.
pub open spec fn wait_failure(
    ctx: RequestContextView,
    authority: AuthorityView,
    block_id: BlockId,
    outcome: WaitOutcome,
) -> Option<FsFailureView> {
    match outcome {
        WaitOutcome::Observed => None,
        WaitOutcome::Closed => Some(
            metadata_failure(
                ctx,
                MetadataErrorView {
                    code: MetadataErrorCode::Internal,
                    text: "worker publication observation channel closed"@,
                },
                authority,
            ),
        ),
        WaitOutcome::TimedOut => Some(wait_expired(ctx, authority, block_id)),
    }
}

/// Decides whether the reports are looked at again after a wait.
pub fn after_wait(
    ctx: &RequestContext,
    authority: &Authority,
    block_id: BlockId,
    outcome: WaitOutcome,
) -> (r: Result<(), FsFailure>)
    ensures
        match wait_failure(ctx@, authority@, block_id, outcome) {
            None => r is Ok,
            Some(f) => r is Err && (r->Err_0)@ == f,
        },
{
    match outcome {
        WaitOutcome::Observed => Ok(()),
        WaitOutcome::Closed => {
            let error = MetadataError::Internal(
                "worker publication observation channel closed".to_owned(),
            );
            Err(fs_failure_from_metadata_error(ctx, &error, authority))
        },
        WaitOutcome::TimedOut => Err(wait_expired_failure(ctx, authority, block_id)),
    }
}

/// Why a publication may not be proposed now, as far as workers are concerned. `status`
/// counts only where there are targets and workers.
pub open spec fn unready(
    ctx: RequestContextView,
    authority: AuthorityView,
    targets: nat,
    has_workers: bool,
    status: PublishReadyStatus,
) -> Option<FsFailureView> {
    match decided_unobserved(ctx, authority, targets, has_workers) {
        Some(Ok(())) => None,
        Some(Err(f)) => Some(f),
        None => match status {
            PublishReadyStatus::Ready => None,
            PublishReadyStatus::Conflict(conflict) => Some(
                conflict_failure(ctx, conflict, authority),
            ),
            PublishReadyStatus::Pending { block_id } => Some(
                ready_failure(
                    ctx,
                    location_unavailable(),
                    "Ready evidence changed before publishing block "@ + block_id_text(block_id),
                    authority,
                    false,
                ),
            ),
        },
    }
}

/// Looks at the reports once more, without waiting, right before the proposal.
pub fn require_publish_ready(
    ctx: &RequestContext,
    authority: &Authority,
    targets: &Vec<PublishReadyTarget>,
    has_workers: bool,
    status: PublishReadyStatus,
) -> (r: Result<(), FsFailure>)
    ensures
        match unready(ctx@, authority@, targets@.len(), has_workers, status) {
            None => r is Ok,
            Some(f) => r is Err && (r->Err_0)@ == f,
        },
{
    match needs_observation(ctx, authority, targets, has_workers) {
        Err(f) => return Err(f),
        Ok(false) => return Ok(()),
        Ok(true) => {},
    }
    match status {
        PublishReadyStatus::Ready => Ok(()),
        PublishReadyStatus::Conflict(conflict) => Err(
            publish_ready_conflict_failure(ctx, conflict, authority),
        ),
        PublishReadyStatus::Pending { block_id } => {
            let block = block_id.to_text();
            Err(
                publish_ready_refresh_failure(
                    ctx,
                    ErrorKind::Worker(WorkerErrorKind::BlockLocationUnavailable),
                    join("Ready evidence changed before publishing block ", block.as_str()),
                    authority,
                    false,
                ),
            )
        },
    }
}

/// The failure of a publication after the caller's deadline.
pub open spec fn deadline_failure(ctx: RequestContextView, authority: AuthorityView) -> FsFailureView {
    if authority.group_name is Some {
        ready_failure(
            ctx,
            location_unavailable(),
            "deadline expired before file publication"@,
            authority,
            false,
        )
    } else {
        metadata_failure(
            ctx,
            MetadataErrorView {
                code: MetadataErrorCode::Again,
                text: "deadline expired before file publication"@,
            },
            authority,
        )
    }
}

/// Rejects a new publication after the caller's deadline. A durable replay is resolved
/// before.
pub fn require_publish_deadline(ctx: &RequestContext, authority: &Authority, now_ms: u64) -> (r:
    Result<(), FsFailure>)
    ensures
        if now_ms >= ctx@.caller.deadline.0 {
            r is Err && (r->Err_0)@ == deadline_failure(ctx@, authority@)
        } else {
            r is Ok
        },
{
    if !ctx.caller.deadline.has_passed(now_ms) {
        return Ok(());
    }
    match &authority.group_name {
        Some(_) => Err(
            publish_ready_refresh_failure(
                ctx,
                ErrorKind::Worker(WorkerErrorKind::BlockLocationUnavailable),
                "deadline expired before file publication".to_owned(),
                authority,
                false,
            ),
        ),
        None => {
            let error = MetadataError::Again(
                "deadline expired before file publication".to_owned(),
            );
            Err(fs_failure_from_metadata_error(ctx, &error, authority))
        },
    }
}

/// Waiting ends: a publication whose deadline has passed never waits again, and every wait
/// fits into what is left of the deadline.
pub proof fn waits_end_at_the_deadline(
    ctx: RequestContextView,
    authority: AuthorityView,
    status: PublishReadyStatus,
    now_ms: u64,
)
    ensures
        match wait_step(ctx, authority, status, now_ms) {
            Ok(ReadyWait::Wait { remaining_ms, .. }) => {
                &&& now_ms < ctx.caller.deadline.0
                &&& remaining_ms > 0
                &&& now_ms + remaining_ms == ctx.caller.deadline.0
            },
            _ => true,
        },
        now_ms >= ctx.caller.deadline.0 ==> !(wait_step(ctx, authority, status, now_ms)
            matches Ok(ReadyWait::Wait { .. })),
{
}

/// What was ready when waiting ended counts only if it is ready when the publication is
/// proposed: the second look refuses exactly what the first would not have let through.
pub proof fn readiness_is_the_same_at_both_looks(
    ctx: RequestContextView,
    authority: AuthorityView,
    targets: nat,
    status: PublishReadyStatus,
    now_ms: u64,
)
    requires
        targets > 0,
    ensures
        unready(ctx, authority, targets, true, status) is None <==> wait_step(
            ctx,
            authority,
            status,
            now_ms,
        ) == Ok::<ReadyWait, FsFailureView>(ReadyWait::Done),
{
}

} // verus!
