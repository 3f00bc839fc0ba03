//! What block allocation, lease renewal, abort and write routing promise.

use vstd::prelude::*;

use crate::error::MetadataError;
use crate::filesystem::command::{
    block_allocation, decode_block_allocation, decode_publication, fence_command, is_fenced,
    require_reply, route_ctx_for_write_with_error_hints, route_write_ctx, route_write_mount,
    ApplySuccess, Command, InodeRead, MountEntry, RaftReply, RoutedFsWriteCtx,
};
use crate::filesystem::context::{
    Authority, AuthorityView, FsFailure, RequestContext, RequestContextView,
};
use crate::filesystem::write::{
    allocation_command, allocation_finished, allocation_refusal, asks_for_new_block,
    begin_allocation, endpoints_of_plan, find_owned_session, finish_abort, finish_allocation,
    first_tier, lemma_planned_endpoints, plan_abort, planned_endpoints, renew_lease,
    request_placement, session_admission_mount, settle_allocation, target_outcome, AllocationStep,
    CreateReplayRecord,
};
use crate::fs::{ContentGeneration, WriteMode};
use crate::ids::{BlockId, InodeId, MountId};
use crate::layout::{DURABLE_PREFIX_STORAGE_CHUNK_SIZE, MAX_BLOCK_SIZE};
use crate::lease::{LeaseEpoch, WriteHandle};
use crate::location::LocatedBlock;
use crate::placement::{
    is_eligible, is_plan, placement_status, planned_view, planned_views,
    planned_workers_are_eligible, room_is_for_a_full_block, CallerContextFields, PlacementOp,
    PlacementPlan, PlacementRequest, PlacementStatus, PlannedWorker, PlannedWorkerView,
    WorkerPlacementView,
};
use crate::rpc_error::{ErrorKind, InternalErrorKind, MetadataErrorKind, ProtocolErrorKind};
use crate::session::effects::tidying_drops_only_what_is_expired;
use crate::session::laws::swept_keeps_what_is_live;
use crate::session::model::{
    find_step, lemma_find_step, lemma_tidied, WriteTargetReservation,
    MAX_EXPIRED_SESSION_RETIREMENTS_PER_CALL,
};
use crate::session::registry::SessionRegistry;
use crate::session::types::{
    BeginAllocateBlockError, EntryView, WriteSessionIdentity, WriteSessionView, WriteTargetLimit,
};
use crate::worker_info::{endpoint_views, Tier, WorkerEndpointInfo};

verus! {

// ---- sessions ----

/// A caller finds a session if and only if its inode has a live one that belongs to it. It is
/// told to open again otherwise.
pub proof fn callers_find_their_own_session(
    registry: &mut SessionRegistry,
    ctx: &RequestContext,
    operation: &str,
    inode: InodeId,
    now_ms: u64,
    r: Result<WriteSessionIdentity, FsFailure>,
)
    requires
        old(registry).wf(),
        call_ensures(find_owned_session, (registry, ctx, operation, inode, now_ms), r),
    ensures
        ({
            let s = old(registry)@.entries[inode.0]->Active_0;
            &&& r is Ok <==> {
                &&& old(registry)@.entries.contains_key(inode.0)
                &&& old(registry)@.entries[inode.0] is Active
                &&& old(registry)@.entries[inode.0].retirement_at_ms() > now_ms
                &&& s.open_client_id == ctx.caller.client.client_id
            }
            &&& r is Ok ==> {
                &&& r->Ok_0.lease_epoch == s.lease_epoch
                &&& r->Ok_0.mount_id == s.mount_id
                &&& r->Ok_0.open_client_id == s.open_client_id
            }
            &&& r is Err ==> {
                &&& r->Err_0.error.kind == ErrorKind::Metadata(MetadataErrorKind::SessionInvalid)
                &&& r->Err_0.error.recovery is ReopenWriteSession
            }
        }),
{
    tidying_drops_only_what_is_expired(
        old(registry)@,
        old(registry).limits(),
        inode.0,
        now_ms,
    );
}

/// The mount whose admission an operation needs is that of the live session of its inode.
pub proof fn admission_is_asked_for_the_mount_of_the_session(
    registry: &mut SessionRegistry,
    inode: InodeId,
    now_ms: u64,
    r: Option<MountId>,
)
    requires
        old(registry).wf(),
        call_ensures(session_admission_mount, (registry, inode, now_ms), r),
    ensures
        r is Some <==> {
            &&& old(registry)@.entries.contains_key(inode.0)
            &&& old(registry)@.entries[inode.0] is Active
            &&& old(registry)@.entries[inode.0].retirement_at_ms() > now_ms
        },
        r is Some ==> r->0 == old(registry)@.entries[inode.0]->Active_0.mount_id,
{
    tidying_drops_only_what_is_expired(
        old(registry)@,
        old(registry).limits(),
        inode.0,
        now_ms,
    );
}

// ---- allocation ----

/// An allocation is proposed for the inode and the epoch of the handle, behind the last block of
/// the session, and holds that step. A handle of another epoch is refused, and so is one whose
/// lease has expired.
pub proof fn an_allocation_reserves_the_next_block(
    registry: &mut SessionRegistry,
    ctx: &RequestContext,
    authority: &Authority,
    session: WriteSessionIdentity,
    inode: InodeId,
    epoch: LeaseEpoch,
    previous: Option<BlockId>,
    now_ms: u64,
    reserved: WriteTargetReservation,
    chunk_size: u32,
)
    requires
        old(registry).wf(),
        call_ensures(
            begin_allocation,
            (registry, ctx, authority, session, inode, epoch, previous, now_ms),
            Ok(AllocationStep::Propose(reserved, chunk_size)),
        ),
    ensures
        epoch == session.lease_epoch,
        chunk_size == DURABLE_PREFIX_STORAGE_CHUNK_SIZE,
        ({
            let s = old(registry)@.entries[inode.0]->Active_0;
            let targets = s.issued_targets;
            &&& old(registry)@.entries.contains_key(inode.0)
            &&& old(registry)@.entries[inode.0] is Active
            &&& now_ms < s.expires_at_ms
            &&& s.lease_epoch == epoch
            &&& reserved.inode_id == inode
            &&& reserved.lease_epoch == epoch
            &&& reserved.pending.previous_block_id == previous
            &&& reserved.layout == s.layout
            &&& reserved.open_client_id == s.open_client_id
            &&& targets.len() == 0 ==> previous is None
            &&& targets.len() > 0 ==> previous == Some(targets[targets.len() - 1].block_id)
            &&& targets.len() == 0 && s.mode == WriteMode::Overwrite ==> reserved.file_offset == 0
            &&& targets.len() == 0 && s.mode == WriteMode::Append ==> reserved.file_offset
                == s.base_size
            &&& targets.len() > 0 ==> reserved.file_offset == targets[targets.len()
                - 1].file_offset + targets[targets.len() - 1].block_size
            &&& final(registry)@.entries.contains_key(inode.0)
            &&& final(registry)@.entries[inode.0] == EntryView::Active(
                WriteSessionView { pending_allocate_block: Some(reserved.pending), ..s },
            )
        }),
{
    let limits = old(registry).limits();
    swept_keeps_what_is_live(
        old(registry)@,
        limits,
        now_ms,
        MAX_EXPIRED_SESSION_RETIREMENTS_PER_CALL as nat,
    );
    lemma_tidied(old(registry)@, limits, inode.0, now_ms);
    let checked = old(registry)@.sweep(now_ms);
    tidying_drops_only_what_is_expired(checked, limits, inode.0, now_ms);
    assert(old(registry)@.entry_wf(inode.0, limits));
}

/// A handle of another epoch than that of the session, or without a valid lease, gets no block:
/// its caller is told to open again.
pub proof fn only_valid_handles_allocate(
    registry: &mut SessionRegistry,
    ctx: &RequestContext,
    authority: &Authority,
    session: WriteSessionIdentity,
    inode: InodeId,
    epoch: LeaseEpoch,
    previous: Option<BlockId>,
    now_ms: u64,
    r: Result<AllocationStep, FsFailure>,
)
    requires
        old(registry).wf(),
        call_ensures(
            begin_allocation,
            (registry, ctx, authority, session, inode, epoch, previous, now_ms),
            r,
        ),
    ensures
        epoch != session.lease_epoch ==> {
            &&& r is Err
            &&& r->Err_0.error.kind == ErrorKind::Metadata(MetadataErrorKind::SessionInvalid)
            &&& r->Err_0.error.recovery is ReopenWriteSession
            &&& final(registry)@ == old(registry)@
        },
        epoch == session.lease_epoch && old(registry)@.entries.contains_key(inode.0) && old(
            registry,
        )@.entries[inode.0].expires_at_ms() <= now_ms ==> {
            &&& r is Err
            &&& r->Err_0.error.kind == ErrorKind::Metadata(MetadataErrorKind::SessionExpired)
            &&& r->Err_0.error.recovery is ReopenWriteSession
        },
{
}

/// The command of a reservation allocates for its inode and its epoch, and the fence of a handle
/// ends the lease of its inode at its epoch.
pub proof fn write_commands_name_their_handle(
    reservation: &WriteTargetReservation,
    handle: WriteHandle,
    allocation: Command,
    fence: Command,
)
    requires
        call_ensures(allocation_command, (reservation,), allocation),
        call_ensures(fence_command, (handle,), fence),
    ensures
        match allocation {
            Command::AllocateBlock { inode_id, lease_epoch } => inode_id == reservation.inode_id
                && lease_epoch == reservation.lease_epoch,
            _ => false,
        },
        match fence {
            Command::EndWriteLease { inode_id, lease_epoch } => inode_id == handle.inode_id
                && lease_epoch == handle.lease_epoch,
            _ => false,
        },
{
}

/// A block that was allocated is placed by a request for one worker of the owner group, with the
/// layout of the reservation. Without a block, without workers or without an owner group the
/// step is given up.
pub proof fn a_placement_is_asked_for_the_allocated_block(
    registry: &mut SessionRegistry,
    ctx: &RequestContext,
    authority: &Authority,
    reservation: WriteTargetReservation,
    block: Result<BlockId, MetadataError>,
    has_workers: bool,
    caller: Option<CallerContextFields>,
    r: Result<PlacementRequest, FsFailure>,
)
    requires
        old(registry).wf(),
        call_ensures(
            request_placement,
            (registry, ctx, authority, reservation, block, has_workers, caller),
            r,
        ),
    ensures
        r is Ok <==> block is Ok && has_workers && authority.group_name is Some,
        r is Ok ==> {
            let request = r->Ok_0;
            &&& final(registry)@ == old(registry)@
            &&& request.group_name@ == (authority.group_name->0)@
            &&& request.op == PlacementOp::Write
            &&& request.block_id == block->Ok_0
            &&& request.layout == reservation.layout
            &&& request.caller == caller
            &&& request.target_replicas == 1
            &&& request.existing@.len() == 0
            &&& request.exclude_workers@.len() == 0
        },
        block is Err ==> r->Err_0.error.message@ == (block->Err_0)@.text,
        block is Ok && !has_workers ==> r->Err_0.error.kind == ErrorKind::Internal(
            InternalErrorKind::NodeUnavailable,
        ),
        r is Err ==> {
            let after = final(registry)@.entries;
            let key = reservation.inode_id.0;
            !(after.contains_key(key) && after[key] is Active && after[key]->Active_0.lease_epoch
                == reservation.lease_epoch && after[key]->Active_0.pending_allocate_block == Some(
                reservation.pending,
            ))
        },
{
    let v = old(registry)@;
    let key = reservation.inode_id.0;
    if v.entries.contains_key(key) {
        assert(v.entry_wf(key, old(registry).limits()));
    }
}

/// A target that is issued is the allocated block at the place that was reserved, to be written
/// from its beginning by the client and under the epoch of the reservation. It names the
/// processes that were chosen, and stands in the session behind the targets before it.
pub proof fn an_issued_target_is_the_allocated_block(
    registry: &mut SessionRegistry,
    ctx: &RequestContext,
    authority: &Authority,
    reservation: WriteTargetReservation,
    block_id: BlockId,
    chunk_size: u32,
    plan: &PlacementPlan,
    now_ms: u64,
    target: LocatedBlock,
)
    requires
        old(registry).wf(),
        call_ensures(
            finish_allocation,
            (
                registry,
                ctx,
                authority,
                reservation,
                block_id,
                chunk_size,
                plan,
                now_ms,
            ),
            Ok(target),
        ),
    ensures
        plan.status == PlacementStatus::Placed,
        target.block_id == block_id,
        target.file_offset == reservation.file_offset,
        target.block_size == reservation.layout.block_size,
        target.block_format_id == reservation.layout.block_format_id,
        target.chunk_size == chunk_size,
        target.write_offset == 0,
        target.fencing_token.block_id == block_id,
        target.fencing_token.owner == reservation.open_client_id,
        target.fencing_token.epoch == reservation.lease_epoch,
        target.worker_endpoints@.len() > 0,
        ({
            let key = reservation.inode_id.0;
            let s = old(registry)@.entries[key]->Active_0;
            let after = final(registry)@.entries[key]->Active_0;
            &&& old(registry)@.entries.contains_key(key)
            &&& s.lease_epoch == reservation.lease_epoch
            &&& s.pending_allocate_block == Some(reservation.pending)
            &&& final(registry)@.entries.contains_key(key)
            &&& final(registry)@.entries[key] is Active
            &&& after.issued_targets == s.issued_targets.push(target@)
            &&& after.pending_allocate_block is None
        }),
{
    let key = reservation.inode_id.0;
    tidying_drops_only_what_is_expired(
        old(registry)@,
        old(registry).limits(),
        key,
        now_ms,
    );
    assert(old(registry)@.entry_wf(key, old(registry).limits()));
    let views = crate::worker_info::endpoint_views(target.worker_endpoints@);
    assert(views.len() == target.worker_endpoints@.len());
}

/// An allocation that is settled well issues the block that its command allocated, for the inode
/// of the reservation.
pub proof fn a_settled_allocation_issues_what_was_allocated(
    registry: &mut SessionRegistry,
    ctx: &RequestContext,
    authority: &Authority,
    reservation: WriteTargetReservation,
    chunk_size: u32,
    reply: RaftReply,
    workers: &Option<Vec<WorkerPlacementView>>,
    caller: Option<CallerContextFields>,
    now_ms: u64,
    target: LocatedBlock,
)
    requires
        call_ensures(
            settle_allocation,
            (
                registry,
                ctx,
                authority,
                reservation,
                chunk_size,
                reply,
                workers,
                caller,
                now_ms,
            ),
            Ok(target),
        ),
    ensures
        *workers is Some,
        authority.group_name is Some,
        reply == Ok::<ApplySuccess, MetadataError>(ApplySuccess::BlockAllocated(target.block_id)),
        target.block_id.inode_id == reservation.inode_id,
        target.file_offset == reservation.file_offset,
        target.block_size == reservation.layout.block_size,
        target.block_format_id == reservation.layout.block_format_id,
        target.chunk_size == chunk_size,
        target.write_offset == 0,
        target.fencing_token.block_id == target.block_id,
        target.fencing_token.owner == reservation.open_client_id,
        target.fencing_token.epoch == reservation.lease_epoch,
{
}

// ---- renewal and abort ----

/// A lease is renewed for its owner, under the epoch of its session: to a full lifetime from
/// now, and never to an earlier deadline. A handle of another epoch is told to open again.
pub proof fn a_renewal_gives_a_full_lifetime(
    registry: &mut SessionRegistry,
    ctx: &RequestContext,
    authority: &Authority,
    session: WriteSessionIdentity,
    inode: InodeId,
    epoch: LeaseEpoch,
    now_ms: u64,
    r: Result<u64, FsFailure>,
)
    requires
        old(registry).wf(),
        call_ensures(
            renew_lease,
            (registry, ctx, authority, session, inode, epoch, now_ms),
            r,
        ),
    ensures
        ({
            let s = old(registry)@.entries[inode.0]->Active_0;
            let full = now_ms + old(registry).limits().session_ttl_ms;
            let valid = {
                &&& epoch == session.lease_epoch
                &&& old(registry)@.entries.contains_key(inode.0)
                &&& old(registry)@.entries[inode.0] is Active
                &&& s.lease_epoch == epoch
                &&& now_ms < s.expires_at_ms
            };
            &&& r is Ok <==> valid && s.open_client_id == ctx.caller.client.client_id
            &&& r is Ok ==> {
                &&& r->Ok_0 >= s.expires_at_ms
                &&& r->Ok_0 == s.expires_at_ms || r->Ok_0 == full || r->Ok_0 == u64::MAX
                &&& full <= u64::MAX ==> r->Ok_0 >= full
                &&& final(registry)@.entries.contains_key(inode.0)
                &&& final(registry)@.entries[inode.0] == EntryView::Active(
                    WriteSessionView { expires_at_ms: r->Ok_0, ..s },
                )
            }
            &&& r is Err ==> r->Err_0.error.recovery is ReopenWriteSession
            &&& epoch == session.lease_epoch && old(registry)@.entries.contains_key(inode.0)
                && old(registry)@.entries[inode.0] is Active && s.expires_at_ms <= now_ms
                ==> r->Err_0.error.kind == ErrorKind::Metadata(MetadataErrorKind::SessionExpired)
            &&& epoch != session.lease_epoch ==> r->Err_0.error.kind == ErrorKind::Metadata(
                MetadataErrorKind::SessionInvalid,
            )
        }),
{
    swept_keeps_what_is_live(
        old(registry)@,
        old(registry).limits(),
        now_ms,
        MAX_EXPIRED_SESSION_RETIREMENTS_PER_CALL as nat,
    );
    if old(registry)@.entries.contains_key(inode.0) {
        assert(old(registry)@.entry_wf(inode.0, old(registry).limits()));
    }
}

/// An abort ends the live session of its handle, for the owner only. Without a session it ends
/// the lease of a file that the caller created under the same epoch, and otherwise there is
/// nothing to end.
pub proof fn an_abort_ends_what_the_caller_owns(
    registry: &mut SessionRegistry,
    ctx: &RequestContext,
    inode: InodeId,
    epoch: LeaseEpoch,
    replay: Result<Option<CreateReplayRecord>, MetadataError>,
    now_ms: u64,
    r: Result<Option<MountId>, FsFailure>,
)
    requires
        old(registry).wf(),
        call_ensures(plan_abort, (registry, ctx, inode, epoch, replay, now_ms), r),
    ensures
        ({
            let s = old(registry)@.entries[inode.0]->Active_0;
            let me = ctx.caller.client.client_id;
            let live = {
                &&& old(registry)@.entries.contains_key(inode.0)
                &&& old(registry)@.entries[inode.0] is Active
                &&& old(registry)@.entries[inode.0].retirement_at_ms() > now_ms
            };
            let mine = replay is Ok && replay->Ok_0 is Some && (replay->Ok_0->0).client_id == me
                && (replay->Ok_0->0).lease_epoch == epoch;
            &&& live ==> (r is Ok <==> s.open_client_id == me && s.lease_epoch == epoch)
            &&& live && r is Ok ==> r->Ok_0 == Some(s.mount_id)
            &&& live && r is Err ==> r->Err_0.error.kind == ErrorKind::Metadata(
                MetadataErrorKind::SessionInvalid,
            )
            &&& !live && replay is Err ==> r is Err
            &&& !live && mine ==> r == Ok::<Option<MountId>, FsFailure>(
                Some((replay->Ok_0->0).mount_id),
            )
            &&& !live && replay is Ok && !mine ==> r == Ok::<Option<MountId>, FsFailure>(None)
        }),
{
    tidying_drops_only_what_is_expired(
        old(registry)@,
        old(registry).limits(),
        inode.0,
        now_ms,
    );
}

/// An abort ends well if and only if the lease was ended at the epoch behind the handle's. The
/// session with the handle's epoch goes then, and only then.
pub proof fn an_abort_ends_with_its_lease(
    registry: &mut SessionRegistry,
    ctx: &RequestContext,
    authority: &Authority,
    inode: InodeId,
    epoch: LeaseEpoch,
    reply: RaftReply,
    r: Result<(), FsFailure>,
)
    requires
        call_ensures(finish_abort, (registry, ctx, authority, inode, epoch, reply), r),
    ensures
        r is Ok <==> {
            &&& reply is Ok
            &&& reply->Ok_0 is WriteLeaseEnded
            &&& reply->Ok_0->WriteLeaseEnded_inode_id == inode
            &&& reply->Ok_0->WriteLeaseEnded_lease_epoch.0 == epoch.0 + 1
        },
        r is Err ==> final(registry)@ == old(registry)@,
        r is Ok ==> {
            let ends = old(registry)@.entries.contains_key(inode.0) && old(
                registry,
            )@.entries[inode.0] is Active && old(registry)@.entries[inode.0]->Active_0.lease_epoch
                == epoch;
            &&& ends ==> final(registry)@.entries == old(registry)@.entries.remove(inode.0)
            &&& !ends ==> final(registry)@ == old(registry)@
        },
{
}

// ---- replies ----

/// An allocated block is accepted only for the inode that it was allocated for.
pub proof fn an_allocated_block_belongs_to_its_inode(
    reply: RaftReply,
    inode_id: InodeId,
    r: Result<BlockId, MetadataError>,
)
    requires
        call_ensures(decode_block_allocation, (reply, inode_id), r),
    ensures
        r is Ok <==> reply is Ok && reply->Ok_0 is BlockAllocated
            && reply->Ok_0->BlockAllocated_0.inode_id == inode_id,
        r is Ok ==> r->Ok_0 == reply->Ok_0->BlockAllocated_0,
        reply is Err ==> (r->Err_0)@ == (reply->Err_0)@,
        reply is Ok && r is Err ==> r->Err_0 is Internal,
{
}

/// A generation is accepted only from the very publication: for the inode, and where it closes
/// the file, with the lease ended at the epoch behind its own.
pub proof fn a_generation_comes_from_its_own_publication(
    reply: RaftReply,
    inode_id: InodeId,
    lease_epoch: LeaseEpoch,
    closes: bool,
    r: Result<ContentGeneration, MetadataError>,
)
    requires
        call_ensures(decode_publication, (reply, inode_id, lease_epoch, closes), r),
    ensures
        r is Ok ==> {
            &&& closes ==> {
                &&& lease_epoch.0 < u64::MAX
                &&& reply == Ok::<ApplySuccess, MetadataError>(
                    ApplySuccess::FileCommitted {
                        inode_id,
                        lease_epoch: LeaseEpoch((lease_epoch.0 + 1) as u64),
                        generation: r->Ok_0,
                    },
                )
            }
            &&& !closes ==> reply == Ok::<ApplySuccess, MetadataError>(
                ApplySuccess::FilePublished { inode_id, generation: r->Ok_0 },
            )
        },
        closes && reply is Ok && reply->Ok_0 is FileCommitted
            && reply->Ok_0->FileCommitted_inode_id == inode_id
            && reply->Ok_0->FileCommitted_lease_epoch.0 == lease_epoch.0 + 1 ==> r is Ok,
        !closes && reply is Ok && reply->Ok_0 is FilePublished
            && reply->Ok_0->FilePublished_inode_id == inode_id ==> r is Ok,
        reply is Err ==> (r->Err_0)@ == (reply->Err_0)@,
{
}

/// A fence rules a publication out if and only if the lease of the inode has ended at a later
/// epoch than the publication's.
pub proof fn a_later_epoch_rules_a_publication_out(
    fence: RaftReply,
    inode_id: InodeId,
    lease_epoch: LeaseEpoch,
    r: bool,
)
    requires
        lease_epoch.0 < u64::MAX,
        call_ensures(is_fenced, (fence, inode_id, lease_epoch), r),
    ensures
        r <==> fence is Ok && fence->Ok_0 is WriteLeaseEnded
            && fence->Ok_0->WriteLeaseEnded_inode_id == inode_id
            && fence->Ok_0->WriteLeaseEnded_lease_epoch.0 > lease_epoch.0,
{
}

/// Only the wanted success is accepted.
pub proof fn only_the_wanted_success_is_accepted(
    operation_name: &str,
    reply: RaftReply,
    wanted: ApplySuccess,
    r: Result<(), MetadataError>,
)
    requires
        call_ensures(require_reply, (operation_name, reply, wanted), r),
    ensures
        r is Ok <==> reply == Ok::<ApplySuccess, MetadataError>(wanted),
        reply is Err ==> (r->Err_0)@ == (reply->Err_0)@,
        reply is Ok && r is Err ==> r->Err_0 is Internal,
{
}

// ---- routing ----

/// A write goes to the one mount that all of its parents are on. Every parent must exist.
pub proof fn a_write_goes_to_the_mount_of_its_parents(
    parents: &Vec<InodeId>,
    reads: &Vec<InodeRead>,
    r: Result<MountId, MetadataError>,
)
    requires
        parents@.len() == reads@.len(),
        call_ensures(route_write_mount, (parents, reads), r),
    ensures
        r is Ok ==> {
            &&& parents@.len() > 0
            &&& forall|i: int|
                0 <= i < reads@.len() ==> {
                    let read = #[trigger] reads@[i];
                    read is Ok && read->Ok_0 is Some && (read->Ok_0->0).mount_id == r->Ok_0
                }
        },
        r is Err ==> {
            ||| parents@.len() == 0
            ||| exists|i: int|
                {
                    let read = #[trigger] reads@[i];
                    &&& 0 <= i < reads@.len()
                    &&& {
                        ||| read is Err
                        ||| read->Ok_0 is None
                        ||| (read->Ok_0->0).mount_id != (reads@[0]->Ok_0->0).mount_id
                    }
                }
        },
{
    if parents@.len() > 0 && reads@[0] is Ok && reads@[0]->Ok_0 is Some {
        crate::filesystem::command::lemma_parents_mount(
            parents@,
            reads@,
            (reads@[0]->Ok_0->0).mount_id,
            1,
        );
    }
}

/// The route of a write is that of its mount: its root, its owner group and its epoch.
pub proof fn a_route_is_that_of_the_mount(
    mount: MountId,
    entry: Result<Option<MountEntry>, MetadataError>,
    r: Result<RoutedFsWriteCtx, MetadataError>,
)
    requires
        call_ensures(route_write_ctx, (mount, entry), r),
    ensures
        r is Ok <==> entry is Ok && entry->Ok_0 is Some,
        r is Ok ==> {
            &&& r->Ok_0.mount_id == mount
            &&& r->Ok_0.mount_root_inode_id == (entry->Ok_0->0).root_inode_id
            &&& r->Ok_0.group_name@ == (entry->Ok_0->0).namespace_owner_group_name@
            &&& r->Ok_0.mount_epoch == (entry->Ok_0->0).mount_epoch
        },
        entry is Ok && entry->Ok_0 is None ==> r->Err_0 is NotFound,
        entry is Err ==> (r->Err_0)@ == (entry->Err_0)@,
{
}

/// A route that was found is kept. One that was not is told under the authority that is known.
pub proof fn a_found_route_is_kept(
    ctx: &RequestContext,
    routed: Result<RoutedFsWriteCtx, MetadataError>,
    known: &Authority,
    r: Result<RoutedFsWriteCtx, FsFailure>,
)
    requires
        call_ensures(route_ctx_for_write_with_error_hints, (ctx, routed, known), r),
    ensures
        r is Ok <==> routed is Ok,
        r is Ok ==> r->Ok_0 == routed->Ok_0,
        r is Err ==> {
            &&& r->Err_0.error.message@ == (routed->Err_0)@.text
            &&& r->Err_0.mount_epoch == known.mount_epoch
            &&& known.group_name is Some ==> r->Err_0.group_name is Some && (
            r->Err_0.group_name->0)@ == (known.group_name->0)@
        },
{
}

// ---- targets and their workers ----

proof fn lemma_first_tier(workers: Seq<PlannedWorkerView>)
    ensures
        match first_tier(workers) {
            Some(t) => exists|i: int|
                {
                    &&& 0 <= i < workers.len()
                    &&& (#[trigger] workers[i]).tier == Some(t)
                    &&& forall|k: int| 0 <= k < i ==> (#[trigger] workers[k]).tier is None
                },
            None => forall|i: int|
                0 <= i < workers.len() ==> (#[trigger] workers[i]).tier is None,
        },
    decreases workers.len(),
{
    if workers.len() > 0 {
        let front = workers.drop_last();
        lemma_first_tier(front);
        if first_tier(front) is Some {
            let i = choose|i: int|
                {
                    &&& 0 <= i < front.len()
                    &&& (#[trigger] front[i]).tier == first_tier(front)
                    &&& forall|k: int| 0 <= k < i ==> (#[trigger] front[k]).tier is None
                };
            assert(workers[i] == front[i]);
            assert forall|k: int| 0 <= k < i implies (#[trigger] workers[k]).tier is None by {
                assert(workers[k] == front[k]);
            }
        } else {
            let last = workers.len() - 1;
            assert forall|k: int| 0 <= k < last implies (#[trigger] workers[k]).tier is None by {
                assert(workers[k] == front[k]);
            }
            assert(workers[last].tier == first_tier(workers));
        }
    }
}

/// The endpoints of chosen workers are their own, in order, and the tier is the first one that a
/// chosen worker names.
pub proof fn endpoints_are_those_of_the_chosen_workers(
    workers: &Vec<PlannedWorker>,
    endpoints: Vec<WorkerEndpointInfo>,
    tier: Option<Tier>,
)
    requires
        call_ensures(endpoints_of_plan, (workers,), Ok((endpoints, tier))),
    ensures
        endpoints@.len() == workers@.len(),
        forall|i: int|
            0 <= i < endpoints@.len() ==> {
                let told = #[trigger] endpoints@[i];
                &&& told.worker_id == workers@[i].worker_id
                &&& told.endpoint@ == workers@[i].endpoint@
                &&& told.worker_run_id == workers@[i].worker_run_id
            },
        tier is None ==> forall|i: int|
            0 <= i < workers@.len() ==> (#[trigger] workers@[i]).tier is None,
        tier is Some ==> exists|i: int|
            0 <= i < workers@.len() && (#[trigger] workers@[i]).tier == tier,
{
    let views = planned_views(workers@);
    let told = endpoint_views(endpoints@);
    lemma_planned_endpoints(views);
    lemma_first_tier(views);
    assert(views.len() == workers@.len());
    assert(told.len() == endpoints@.len());
    assert forall|i: int| 0 <= i < endpoints@.len() implies {
        let e = #[trigger] endpoints@[i];
        &&& e.worker_id == workers@[i].worker_id
        &&& e.endpoint@ == workers@[i].endpoint@
        &&& e.worker_run_id == workers@[i].worker_run_id
    } by {
        assert(told[i] == endpoints@[i]@);
        assert(views[i] == workers@[i]@);
    }
    if tier is None {
        assert forall|i: int| 0 <= i < workers@.len() implies (
        #[trigger] workers@[i]).tier is None by {
            assert(views[i] == workers@[i]@);
            assert(views[i].tier is None);
        }
    } else {
        let i = choose|i: int|
            {
                &&& 0 <= i < views.len()
                &&& (#[trigger] views[i]).tier == tier
                &&& forall|k: int| 0 <= k < i ==> (#[trigger] views[k]).tier is None
            };
        assert(views[i] == workers@[i]@);
        assert(workers@[i].tier == tier);
    }
}

/// A target that is issued names the processes that were chosen for it, in order, and a tier
/// that one of them was chosen with.
pub proof fn an_issued_target_names_the_chosen_workers(
    registry: &mut SessionRegistry,
    ctx: &RequestContext,
    authority: &Authority,
    reservation: WriteTargetReservation,
    block_id: BlockId,
    chunk_size: u32,
    plan: &PlacementPlan,
    now_ms: u64,
    target: LocatedBlock,
)
    requires
        call_ensures(
            finish_allocation,
            (
                registry,
                ctx,
                authority,
                reservation,
                block_id,
                chunk_size,
                plan,
                now_ms,
            ),
            Ok(target),
        ),
    ensures
        target.worker_endpoints@.len() == plan.workers@.len(),
        forall|i: int|
            0 <= i < target.worker_endpoints@.len() ==> {
                let told = #[trigger] target.worker_endpoints@[i];
                &&& told.worker_id == plan.workers@[i].worker_id
                &&& told.endpoint@ == plan.workers@[i].endpoint@
                &&& told.worker_run_id == plan.workers@[i].worker_run_id
            },
        exists|i: int|
            0 <= i < plan.workers@.len() && (#[trigger] plan.workers@[i]).tier == Some(target.tier),
{
    let views = planned_views(plan.workers@);
    let told = endpoint_views(target.worker_endpoints@);
    lemma_planned_endpoints(views);
    lemma_first_tier(views);
    assert(told.len() == target.worker_endpoints@.len());
    assert forall|i: int| 0 <= i < target.worker_endpoints@.len() implies {
        let e = #[trigger] target.worker_endpoints@[i];
        &&& e.worker_id == plan.workers@[i].worker_id
        &&& e.endpoint@ == plan.workers@[i].endpoint@
        &&& e.worker_run_id == plan.workers@[i].worker_run_id
    } by {
        assert(told[i] == target.worker_endpoints@[i]@);
        assert(views[i] == plan.workers@[i]@);
    }
    let i = choose|i: int|
        {
            &&& 0 <= i < views.len()
            &&& (#[trigger] views[i]).tier == Some(target.tier)
            &&& forall|k: int| 0 <= k < i ==> (#[trigger] views[k]).tier is None
        };
    assert(views[i] == plan.workers@[i]@);
    assert(plan.workers@[i].tier == Some(target.tier));
}

/// A settled allocation names one worker: a known one of the owner group that is registered and
/// alive and has room for the block on the tier that is told.
pub proof fn a_settled_allocation_names_a_fit_worker(
    registry: &mut SessionRegistry,
    ctx: &RequestContext,
    authority: &Authority,
    reservation: WriteTargetReservation,
    chunk_size: u32,
    reply: RaftReply,
    workers: &Option<Vec<WorkerPlacementView>>,
    caller: Option<CallerContextFields>,
    now_ms: u64,
    target: LocatedBlock,
)
    requires
        call_ensures(
            settle_allocation,
            (
                registry,
                ctx,
                authority,
                reservation,
                chunk_size,
                reply,
                workers,
                caller,
                now_ms,
            ),
            Ok(target),
        ),
    ensures
        target.worker_endpoints@.len() == 1,
        exists|i: int|
            {
                let w = #[trigger] ((*workers)->0)@[i];
                &&& 0 <= i < ((*workers)->0)@.len()
                &&& w.worker_id == target.worker_endpoints@[0].worker_id
                &&& w.worker_run_id == Some(target.worker_endpoints@[0].worker_run_id)
                &&& w.endpoint@ == target.worker_endpoints@[0].endpoint@
                &&& w.group_name@ == (authority.group_name->0)@
                &&& w.registered
                &&& w.lease_valid
                &&& exists|t: int|
                    0 <= t < w.tier_free@.len() && (#[trigger] w.tier_free@[t]).tier
                        == target.tier && w.tier_free@[t].free_bytes
                        >= reservation.layout.block_size
            },
{
    let known = ((*workers)->0)@;
    let block = block_allocation(reply, reservation.inode_id);
    let outcome = target_outcome(final(registry)@, Ok(target));
    let (req, planned) = choose|req: PlacementRequest, planned: Seq<PlannedWorkerView>|
        {
            &&& asks_for_new_block(
                req,
                authority@.group_name,
                block->Ok_0,
                reservation.layout,
                caller,
            )
            &&& #[trigger] is_plan(req, known, planned)
            &&& outcome == allocation_finished(
                old(registry)@,
                ctx@,
                authority@,
                reservation,
                block->Ok_0,
                chunk_size,
                placement_status(req, known),
                planned,
                now_ms,
            )
        };
    assert(is_plan(req, known, planned));
    lemma_planned_endpoints(planned);
    lemma_first_tier(planned);
    let told = endpoint_views(target.worker_endpoints@);
    assert(told.len() == target.worker_endpoints@.len());
    assert(planned.len() == 1);
    assert(told[0] == target.worker_endpoints@[0]@);
    planned_workers_are_eligible(req, known, planned, 0);
    let i = choose|i: int|
        0 <= i < known.len() && #[trigger] is_eligible(req, known[i]) && planned[0]
            == planned_view(req, known[i]);
    let w = known[i];
    room_is_for_a_full_block(w.tier_free@, req.layout.block_size, 0);
    assert(((*workers)->0)@[i].worker_id == target.worker_endpoints@[0].worker_id);
}

/// A repeated allocation is answered with the target that was issued behind the same block.
pub proof fn a_repeated_allocation_is_answered_with_its_target(
    registry: &mut SessionRegistry,
    ctx: &RequestContext,
    authority: &Authority,
    session: WriteSessionIdentity,
    inode: InodeId,
    epoch: LeaseEpoch,
    previous: Option<BlockId>,
    now_ms: u64,
    target: LocatedBlock,
)
    requires
        old(registry).wf(),
        call_ensures(
            begin_allocation,
            (registry, ctx, authority, session, inode, epoch, previous, now_ms),
            Ok(AllocationStep::Replay(target)),
        ),
    ensures
        epoch == session.lease_epoch,
        ({
            let s = old(registry)@.entries[inode.0]->Active_0;
            let targets = s.issued_targets;
            let behind = s.issued_targets.drop_first();
            &&& old(registry)@.entries.contains_key(inode.0)
            &&& old(registry)@.entries[inode.0] is Active
            &&& now_ms < s.expires_at_ms
            &&& s.lease_epoch == epoch
            &&& targets.len() > 0
            &&& previous is None ==> targets[0] == target@
            &&& previous is Some ==> exists|i: int|
                #![trigger targets[i], behind[i]]
                0 <= i < behind.len() && targets[i].block_id == previous->0 && behind[i] == target@
            &&& final(registry)@.entries.contains_key(inode.0)
            &&& final(registry)@.entries[inode.0] == old(registry)@.entries[inode.0]
        }),
{
    let limits = old(registry).limits();
    swept_keeps_what_is_live(
        old(registry)@,
        limits,
        now_ms,
        MAX_EXPIRED_SESSION_RETIREMENTS_PER_CALL as nat,
    );
    lemma_tidied(old(registry)@, limits, inode.0, now_ms);
    let checked = old(registry)@.sweep(now_ms);
    tidying_drops_only_what_is_expired(checked, limits, inode.0, now_ms);
    assert(old(registry)@.entry_wf(inode.0, limits));
    let s = old(registry)@.entries[inode.0]->Active_0;
    lemma_find_step(s.issued_steps, previous);
    let step = find_step(s.issued_steps, previous)->0;
    let j = choose|j: int| 0 <= j < s.issued_steps.len() && s.issued_steps[j] == step;
    assert(s.issued_steps[j] == step);
    assert(s.issued_targets[step.target_index as int] == target@);
    let i = step.target_index - 1;
    if previous is Some {
        assert(s.issued_targets[i].block_id == previous->0);
        assert(s.issued_targets.drop_first()[i] == target@);
    }
}

/// Each refusal of an allocation step has its kind: a session that is gone asks to open again, a
/// step or a publication on the way asks to try again, a step that does not fit is not valid,
/// and used-up capacity says so.
pub proof fn allocation_refusals_are_told_apart(
    ctx: RequestContextView,
    authority: AuthorityView,
    inode: InodeId,
    previous: Option<BlockId>,
    error: BeginAllocateBlockError,
)
    ensures
        ({
            let told = allocation_refusal(ctx, authority, inode, previous, error).error;
            match error {
                BeginAllocateBlockError::Session(_) => told.kind == ErrorKind::Metadata(
                    MetadataErrorKind::SessionExpired,
                ) && told.recovery is ReopenWriteSession,
                BeginAllocateBlockError::InvalidArgument(_) => told.kind == ErrorKind::Protocol(
                    ProtocolErrorKind::InvalidArgument,
                ) && told.recovery is Fail,
                BeginAllocateBlockError::Pending => told.kind == ErrorKind::Metadata(
                    MetadataErrorKind::Conflict,
                ) && told.recovery is Retry,
                BeginAllocateBlockError::PublicationInProgress => told.kind
                    == ErrorKind::Metadata(MetadataErrorKind::Conflict) && told.recovery is Retry,
                BeginAllocateBlockError::LimitExceeded(e) => told.kind == ErrorKind::Metadata(
                    MetadataErrorKind::ResourceExhausted,
                ) && (told.recovery is Retry <==> e.limit == WriteTargetLimit::Global),
            }
        }),
{
}

proof fn lemma_named_workers(workers: Seq<PlannedWorkerView>)
    requires
        forall|i: int|
            0 <= i < workers.len() ==> {
                let w = #[trigger] workers[i];
                &&& w.worker_net_protocol == 1
                &&& w.worker_id.0 != 0
                &&& w.endpoint.len() > 0
                &&& w.worker_run_id.0 != 0
            },
    ensures
        planned_endpoints(workers) is Ok,
    decreases workers.len(),
{
    if workers.len() > 0 {
        let front = workers.drop_last();
        assert forall|i: int| 0 <= i < front.len() implies {
            let w = #[trigger] front[i];
            &&& w.worker_net_protocol == 1
            &&& w.worker_id.0 != 0
            &&& w.endpoint.len() > 0
            &&& w.worker_run_id.0 != 0
        } by {
            assert(front[i] == workers[i]);
        }
        lemma_named_workers(front);
        assert(workers[workers.len() - 1].worker_net_protocol == 1);
    }
}

/// A block that was placed is issued, while its step is on the way in a live session that still
/// is as it was reserved, and the chosen workers can be named and have a tier.
pub proof fn a_placed_block_is_issued(
    registry: &mut SessionRegistry,
    ctx: &RequestContext,
    authority: &Authority,
    reservation: WriteTargetReservation,
    block_id: BlockId,
    plan: &PlacementPlan,
    now_ms: u64,
    r: Result<LocatedBlock, FsFailure>,
)
    requires
        old(registry).wf(),
        call_ensures(
            finish_allocation,
            (
                registry,
                ctx,
                authority,
                reservation,
                block_id,
                DURABLE_PREFIX_STORAGE_CHUNK_SIZE,
                plan,
                now_ms,
            ),
            r,
        ),
        plan.status == PlacementStatus::Placed,
        plan.workers@.len() > 0,
        forall|i: int|
            0 <= i < plan.workers@.len() ==> {
                let w = #[trigger] plan.workers@[i];
                &&& w.worker_net_protocol == 1
                &&& w.worker_id.0 != 0
                &&& w.endpoint@.len() > 0
                &&& w.worker_run_id.0 != 0
                &&& w.tier is Some
            },
        ({
            let key = reservation.inode_id.0;
            let s = old(registry)@.entries[key]->Active_0;
            let targets = s.issued_targets;
            &&& old(registry)@.entries.contains_key(key)
            &&& old(registry)@.entries[key].retirement_at_ms() > now_ms
            &&& old(registry)@.entries[key] is Active
            &&& s.lease_epoch == reservation.lease_epoch
            &&& s.pending_allocate_block == Some(reservation.pending)
            &&& s.layout == reservation.layout
            &&& s.open_client_id == reservation.open_client_id
            &&& block_id.inode_id == reservation.inode_id
            &&& 0 < s.layout.block_size <= MAX_BLOCK_SIZE
            &&& s.layout.block_format_id.0 == 2
            &&& targets.len() == 0 && s.mode == WriteMode::Overwrite ==> reservation.file_offset
                == 0
            &&& targets.len() == 0 && s.mode == WriteMode::Append ==> reservation.file_offset
                == s.base_size
            &&& targets.len() > 0 ==> reservation.file_offset == targets[targets.len()
                - 1].file_offset + targets[targets.len() - 1].block_size
        }),
    ensures
        r is Ok,
{
    let key = reservation.inode_id.0;
    let limits = old(registry).limits();
    tidying_drops_only_what_is_expired(old(registry)@, limits, key, now_ms);
    assert(old(registry)@.entry_wf(key, limits));
    let t = old(registry)@.tidied(key, now_ms);
    assert(t.entries.contains_key(key));
    let views = planned_views(plan.workers@);
    assert(views.len() == plan.workers@.len());
    assert forall|i: int| 0 <= i < views.len() implies {
        let w = #[trigger] views[i];
        &&& w.worker_net_protocol == 1
        &&& w.worker_id.0 != 0
        &&& w.endpoint.len() > 0
        &&& w.worker_run_id.0 != 0
    } by {
        assert(views[i] == plan.workers@[i]@);
    }
    lemma_named_workers(views);
    lemma_planned_endpoints(views);
    lemma_first_tier(views);
    assert(views[0] == plan.workers@[0]@);
    assert(views[0].tier is Some);
}

} // verus!
