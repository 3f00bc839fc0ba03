//! What opening a file for write, and authorizing the streams of its writer, promise.

use vstd::prelude::*;

use crate::config::MAX_PATH_COMPONENTS;
use crate::error::MetadataError;
use crate::filesystem::command::{ApplySuccess, Command, InodeRead, RaftReply};
use crate::filesystem::context::{
    metadata_failure, Authority, AuthorityView, FsFailure, FsFailureView, RequestContext,
    RequestContextView, ResolvedPath,
};
use crate::filesystem::open::{
    activation_refusal, admit_open, asks_for_tail, authorize_block_write, begin_open,
    check_stored_file, check_stored_inode, confirm_lease, confirm_topology, finish_open,
    locate_append_tail, needs_tail, open_outcome, open_write_output, opened_snapshot,
    opening_finished, opening_refusal, reported_tier, request_tail, settle_open, tail_target,
    take_snapshot, take_tail, takes_tail, AuthorizeBlockWriteArgs, MountRead, OpenWriteOutput,
    OpenWriteOutputView,
};
use crate::filesystem::write::lemma_planned_endpoints;
use crate::fs::WriteMode;
use crate::ids::{ClientId, GroupName, InodeId, WorkerId};
use crate::inode::{block_len_of, file_error, FileData, Inode};
use crate::layout::{layout_error, FileLayout, DURABLE_PREFIX_STORAGE_CHUNK_SIZE};
use crate::lease::LeaseEpoch;
use crate::location::LocatedBlock;
use crate::placement::{
    is_eligible, is_plan, placement_status, planned_view, planned_views,
    planned_workers_are_eligible, PlacementOp, PlacementPlan, PlacementRequest, PlacementStatus,
    PlannedWorkerView, ReportedBlockLocation, WorkerPlacementView,
};
use crate::rpc_error::{ErrorKind, InternalErrorKind, MetadataErrorKind};
use crate::session::effects::tidying_drops_only_what_is_expired;
use crate::session::index::CreateFileOperationId;
use crate::session::laws::a_sweep_takes_no_capacity;
use crate::session::model::{WriteOpening, MAX_EXPIRED_SESSION_RETIREMENTS_PER_CALL};
use crate::session::registry::SessionRegistry;
use crate::session::types::{BeginSessionError, WriteOpeningError, WriteSession};
use crate::worker_info::{endpoint_views, WorkerRunId};

verus! {

/// A file may be opened if and only if its path is a bounded path without a cycle that ends at
/// it, and it is a file that is stored under its own key.
pub proof fn only_files_are_opened(
    ctx: &RequestContext,
    inode: InodeId,
    chain: &Vec<InodeId>,
    read: InodeRead,
    r: Result<Inode, FsFailure>,
)
    requires
        call_ensures(admit_open, (ctx, inode, chain, read), r),
    ensures
        ({
            let path = chain@;
            let leads = path.len() > 0 && path.len() <= MAX_PATH_COMPONENTS + 1 && path[path.len()
                - 1] == inode && path.no_duplicates();
            &&& r is Ok <==> leads && read is Ok && read->Ok_0 is Some && (
            read->Ok_0->0).inode_id == inode && (read->Ok_0->0).kind is File
            &&& r is Ok ==> r->Ok_0 == read->Ok_0->0
            &&& leads && read is Ok && read->Ok_0 is None ==> r->Err_0.error.kind
                == ErrorKind::Metadata(MetadataErrorKind::NotFound)
            &&& leads && read is Ok && read->Ok_0 is Some && (read->Ok_0->0).inode_id == inode && (
            read->Ok_0->0).kind is Dir ==> r->Err_0.error.kind == ErrorKind::Metadata(
                MetadataErrorKind::IsDirectory,
            )
        }),
{
}

/// An opening proposes to take the lease of the stored file from its stored epoch to the one
/// behind it, and holds the file for the caller in the mode that was asked for.
pub proof fn an_opening_takes_the_lease_of_the_stored_file(
    registry: &mut SessionRegistry,
    ctx: &RequestContext,
    authority: &Authority,
    path: String,
    inode: &Inode,
    layout: Result<FileLayout, MetadataError>,
    chain: Vec<InodeId>,
    mode: WriteMode,
    now_ms: u64,
    opening: WriteOpening,
    command: Command,
)
    requires
        call_ensures(
            begin_open,
            (registry, ctx, authority, path, inode, layout, chain, mode, now_ms),
            Ok((opening, command)),
        ),
    ensures
        inode.kind is File,
        layout is Ok && layout_error(layout->Ok_0) is None,
        match command {
            Command::AcquireWriteLease { inode_id, expected_lease_epoch } => {
                &&& inode_id == inode.inode_id
                &&& expected_lease_epoch == inode.kind->File_0.lease_epoch
            },
            _ => false,
        },
        opening.inode_id == inode.inode_id,
        opening.proposed_lease_epoch.0 == inode.kind->File_0.lease_epoch.0 + 1,
        ({
            let key = inode.inode_id.0;
            let held = final(registry)@.entries[key]->Opening_0;
            &&& final(registry)@.entries.contains_key(key)
            &&& final(registry)@.entries[key] is Opening
            &&& held.opening_id == opening.opening_id
            &&& held.mode == mode
            &&& held.open_client_id == ctx.caller.client.client_id
            &&& held.layout == layout->Ok_0
            &&& held.mount_id == inode.mount_id
            &&& held.ancestor_inode_ids == chain@
            &&& held.proposed_lease_epoch == opening.proposed_lease_epoch
        }),
{
}

/// A file that another session or a pending create of its path holds is busy.
pub proof fn a_held_file_is_busy(
    registry: &mut SessionRegistry,
    ctx: &RequestContext,
    authority: &Authority,
    path: String,
    inode: &Inode,
    layout: Result<FileLayout, MetadataError>,
    chain: Vec<InodeId>,
    mode: WriteMode,
    now_ms: u64,
    r: Result<(WriteOpening, Command), FsFailure>,
)
    requires
        old(registry).wf(),
        call_ensures(
            begin_open,
            (registry, ctx, authority, path, inode, layout, chain, mode, now_ms),
            r,
        ),
        old(registry)@.entries.contains_key(inode.inode_id.0),
        old(registry)@.entries[inode.inode_id.0].retirement_at_ms() > now_ms,
        layout is Ok && layout_error(layout->Ok_0) is None,
        inode.kind is File,
        chain@.len() > 0 && chain@.len() <= MAX_PATH_COMPONENTS + 1 && chain@.last()
            == inode.inode_id && chain@.no_duplicates(),
    ensures
        r is Err,
        r->Err_0.error.kind == ErrorKind::Metadata(MetadataErrorKind::Busy),
        final(registry)@.entries.contains_key(inode.inode_id.0),
        final(registry)@.entries[inode.inode_id.0] == old(
            registry,
        )@.entries[inode.inode_id.0],
{
    tidying_drops_only_what_is_expired(
        old(registry)@,
        old(registry).limits(),
        inode.inode_id.0,
        now_ms,
    );
}

/// The lease of an opening is confirmed if and only if its command acquired the epoch that the
/// opening proposes, for its inode. Otherwise the opening is given up.
pub proof fn a_lease_is_confirmed_by_its_epoch(
    registry: &mut SessionRegistry,
    ctx: &RequestContext,
    authority: &Authority,
    opening: WriteOpening,
    reply: RaftReply,
    r: Result<(), FsFailure>,
)
    requires
        call_ensures(confirm_lease, (registry, ctx, authority, opening, reply), r),
    ensures
        r is Ok <==> reply == Ok::<ApplySuccess, MetadataError>(
            ApplySuccess::WriteLeaseAcquired {
                inode_id: opening.inode_id,
                lease_epoch: opening.proposed_lease_epoch,
            },
        ),
        r is Ok ==> final(registry)@ == old(registry)@,
        r is Err ==> {
            let after = final(registry)@.entries;
            let key = opening.inode_id.0;
            !(after.contains_key(key) && after[key] is Opening && after[key]->Opening_0.opening_id
                == opening.opening_id)
        },
        reply is Err ==> r->Err_0.error.message@ == (reply->Err_0)@.text,
{
}

/// An opening takes an existing tail block if and only if it appends to a file whose last block
/// is not full.
pub proof fn appends_take_a_tail_that_is_not_full(mode: WriteMode, file: &FileData, r: bool)
    requires
        file.layout.block_size > 0,
        call_ensures(needs_tail, (mode, file), r),
    ensures
        r <==> mode == WriteMode::Append && file.len as int % file.layout.block_size as int != 0,
{
}

/// The tail of a file is its last block, where that begins, to be written from its visible end
/// on, by the owner and under the epoch that are given.
pub proof fn a_tail_is_the_last_block(
    file: &FileData,
    inode: InodeId,
    owner: ClientId,
    epoch: LeaseEpoch,
    existing: &Vec<ReportedBlockLocation>,
    plan: &PlacementPlan,
    r: Result<LocatedBlock, MetadataError>,
)
    requires
        file_error(*file, inode) is None,
        file.blocks@.len() > 0,
        call_ensures(locate_append_tail, (file, inode, owner, epoch, existing, plan), r),
    ensures
        r is Ok ==> {
            let tail = r->Ok_0;
            let last = file.blocks@.len() - 1;
            let size = file.layout.block_size as int;
            &&& plan.status == PlacementStatus::Placed
            &&& tail.block_id == file.blocks@[last]
            &&& tail.file_offset == last * size
            &&& tail.file_offset + tail.write_offset == file.len
            &&& 0 < tail.write_offset <= size
            &&& tail.block_size == size
            &&& tail.block_format_id == file.layout.block_format_id
            &&& tail.chunk_size == DURABLE_PREFIX_STORAGE_CHUNK_SIZE
            &&& tail.fencing_token.block_id == tail.block_id
            &&& tail.fencing_token.owner == owner
            &&& tail.fencing_token.epoch == epoch
        },
        plan.status != PlacementStatus::Placed ==> r is Err && r->Err_0 is ServiceUnavailable,
{
    crate::inode::blocks_cover_the_file(
        file.len as nat,
        file.layout.block_size as nat,
        (file.blocks@.len() - 1) as nat,
    );
}

/// An opening that ends well tells the file as it is stored, and its session stands for it: the
/// stored length, generation and layout, under the epoch that was acquired. A tail is told if
/// and only if the opening appends to a file whose last block is not full; it is then that
/// block, to be written from the visible end of the file on.
pub proof fn an_opened_file_is_told_as_it_is_stored(
    registry: &mut SessionRegistry,
    ctx: &RequestContext,
    authority: &Authority,
    opening: WriteOpening,
    mode: WriteMode,
    reply: RaftReply,
    read: InodeRead,
    existing: Vec<ReportedBlockLocation>,
    workers: &Option<Vec<WorkerPlacementView>>,
    now_ms: u64,
    output: OpenWriteOutput,
)
    requires
        old(registry).wf(),
        call_ensures(
            settle_open,
            (
                registry,
                ctx,
                authority,
                opening,
                mode,
                reply,
                read,
                existing,
                workers,
                now_ms,
            ),
            Ok(output),
        ),
    ensures
        reply == Ok::<ApplySuccess, MetadataError>(
            ApplySuccess::WriteLeaseAcquired {
                inode_id: opening.inode_id,
                lease_epoch: opening.proposed_lease_epoch,
            },
        ),
        read is Ok && read->Ok_0 is Some && (read->Ok_0->0).kind is File,
        ({
            let file = (read->Ok_0->0).kind->File_0;
            let size = file.layout.block_size as int;
            let held = old(registry)@.entries[opening.inode_id.0]->Opening_0;
            &&& file.lease_epoch == opening.proposed_lease_epoch
            &&& output.inode_id == opening.inode_id
            &&& output.lease_epoch == opening.proposed_lease_epoch
            &&& output.layout == file.layout
            &&& output.base_size == file.len
            &&& output.generation == file.generation
            &&& output.expires_at_ms == held.expires_at_ms
            &&& now_ms < output.expires_at_ms
            &&& output.tail_block is Some <==> mode == WriteMode::Append && file.len as int % size
                != 0
            &&& output.tail_block is Some ==> {
                let tail = output.tail_block->0;
                &&& tail.block_id == file.blocks@[file.blocks@.len() - 1]
                &&& tail.file_offset + tail.write_offset == file.len
                &&& tail.file_offset == (file.blocks@.len() - 1) * size
                &&& tail.block_size == size
                &&& tail.fencing_token.block_id == tail.block_id
                &&& tail.fencing_token.owner == ctx.caller.client.client_id
                &&& tail.fencing_token.epoch == opening.proposed_lease_epoch
            }
            &&& final(registry)@.entries.contains_key(opening.inode_id.0)
            &&& final(registry)@.entries[opening.inode_id.0] is Active
        }),
        ({
            let file = (read->Ok_0->0).kind->File_0;
            let held = old(registry)@.entries[opening.inode_id.0]->Opening_0;
            let session = final(registry)@.entries[opening.inode_id.0]->Active_0;
            &&& old(registry)@.entries.contains_key(opening.inode_id.0)
            &&& old(registry)@.entries[opening.inode_id.0] is Opening
            &&& held.opening_id == opening.opening_id
            &&& session.lease_epoch == opening.proposed_lease_epoch
            &&& session.base_size == file.len
            &&& session.generation == file.generation
            &&& session.layout == file.layout
            &&& session.mode == held.mode
            &&& session.open_client_id == held.open_client_id
            &&& session.mount_id == held.mount_id
            &&& session.expires_at_ms == held.expires_at_ms
            &&& session.issued_targets.len() == (if output.tail_block is Some {
                1nat
            } else {
                0nat
            })
        }),
{
    let file = (read->Ok_0->0).kind->File_0;
    assert(old(registry)@.entries.contains_key(opening.inode_id.0));
    assert(old(registry)@.entry_wf(opening.inode_id.0, old(registry).limits()));
    if mode == WriteMode::Append && file.len as int % file.layout.block_size as int != 0 {
        crate::filesystem::open::partial_files_have_a_tail(file, opening.inode_id);
        crate::inode::blocks_cover_the_file(
            file.len as nat,
            file.layout.block_size as nat,
            (file.blocks@.len() - 1) as nat,
        );
    }
}

/// The client of a session is told the session. Its first target is told only where it holds
/// visible bytes already.
pub proof fn a_session_is_told_as_it_is(session: &WriteSession, r: OpenWriteOutput)
    requires
        call_ensures(open_write_output, (session,), r),
    ensures
        r.inode_id == session.inode_id,
        r.lease_epoch == session.lease_epoch,
        r.layout == session.layout,
        r.base_size == session.base_size,
        r.expires_at_ms == session.expires_at_ms,
        r.generation == session.generation,
        r.tail_block is Some <==> session@.issued_targets.len() > 0
            && session@.issued_targets[0].write_offset > 0,
        r.tail_block is Some ==> (r.tail_block->0)@ == session@.issued_targets[0],
{
}

/// An opened session is kept if and only if its path still leads to its inode, over the same
/// inodes and on the same mount. Otherwise the session with its epoch goes, and the caller is
/// to try again.
pub proof fn a_moved_path_ends_the_opened_session(
    registry: &mut SessionRegistry,
    ctx: &RequestContext,
    authority: &Authority,
    before: &ResolvedPath,
    current: &Option<ResolvedPath>,
    opened: &OpenWriteOutput,
    r: Result<(), FsFailure>,
)
    requires
        call_ensures(
            confirm_topology,
            (registry, ctx, authority, before, current, opened),
            r,
        ),
    ensures
        r is Ok <==> {
            &&& *current is Some
            &&& (*current)->0.inode_id == Some(opened.inode_id)
            &&& (*current)->0.ancestor_inode_ids@ == before.ancestor_inode_ids@
            &&& (*current)->0.mount_ctx.mount_id == before.mount_ctx.mount_id
            &&& (*current)->0.mount_ctx.mount_epoch == before.mount_ctx.mount_epoch
            &&& (*current)->0.mount_ctx.root_inode_id == before.mount_ctx.root_inode_id
            &&& (*current)->0.mount_ctx.owner_group_name@ == before.mount_ctx.owner_group_name@
        },
        r is Ok ==> final(registry)@ == old(registry)@,
        r is Err ==> {
            let key = opened.inode_id.0;
            let ends = old(registry)@.entries.contains_key(key) && old(registry)@.entries[key]
                is Active && old(registry)@.entries[key]->Active_0.lease_epoch
                == opened.lease_epoch;
            &&& r->Err_0.error.kind == ErrorKind::Metadata(MetadataErrorKind::Conflict)
            &&& r->Err_0.error.recovery is Retry
            &&& ends ==> final(registry)@.entries == old(registry)@.entries.remove(key)
            &&& !ends ==> final(registry)@ == old(registry)@
        },
{
}

// ---- stream authorization ----

/// A stream is authorized only for the live session of its token, whose epoch is the stored one,
/// in the group that owns its mount; for a block that was issued to its owner, with the shape
/// and the tier that were issued, from a live process that the target names. It writes behind
/// what is visible of its block, and is told how much that is.
pub proof fn an_authorized_stream_follows_its_target(
    registry: &mut SessionRegistry,
    caller_group: &Option<GroupName>,
    args: &AuthorizeBlockWriteArgs,
    inode_read: InodeRead,
    mount_read: MountRead,
    workers: &Option<Vec<WorkerPlacementView>>,
    now_ms: u64,
    visible: u64,
)
    requires
        old(registry).wf(),
        call_ensures(
            authorize_block_write,
            (registry, caller_group, args, inode_read, mount_read, workers, now_ms),
            Ok(visible),
        ),
    ensures
        ({
            let block = args.fencing_token.block_id;
            let s = old(registry)@.entries[block.inode_id.0]->Active_0;
            let file = (inode_read->Ok_0->0).kind->File_0;
            &&& old(registry)@.entries.contains_key(block.inode_id.0)
            &&& old(registry)@.entries[block.inode_id.0] is Active
            &&& now_ms < s.expires_at_ms
            &&& s.open_client_id == args.fencing_token.owner
            &&& s.lease_epoch == args.fencing_token.epoch
            &&& inode_read is Ok && inode_read->Ok_0 is Some && (inode_read->Ok_0->0).kind is File
            &&& file.lease_epoch == args.fencing_token.epoch
            &&& mount_read is Ok && mount_read->Ok_0 is Some
            &&& (mount_read->Ok_0->0).namespace_owner_group_name@ == args.group_name@
            &&& *caller_group is Some && ((*caller_group)->0)@ == args.group_name@
            &&& visible <= args.write_offset
            &&& exists|i: int|
                {
                    let target = #[trigger] s.issued_targets[i];
                    &&& 0 <= i < s.issued_targets.len()
                    &&& target.block_id == block
                    &&& target.fencing_token == args.fencing_token
                    &&& target.block_size == args.shape.block_size
                    &&& target.block_format_id == args.shape.block_format_id
                    &&& target.chunk_size == args.shape.chunk_size
                    &&& target.tier == args.tier
                    &&& target.write_offset <= args.write_offset < target.block_size
                    &&& exists|j: int|
                        0 <= j < target.worker_endpoints.len() && (
                        #[trigger] target.worker_endpoints[j]).worker_id == args.worker_id
                            && target.worker_endpoints[j].worker_run_id == args.worker_run_id
                }
            &&& *workers is Some
            &&& exists|w: int|
                0 <= w < ((*workers)->0)@.len() && (#[trigger] ((*workers)->0)@[w]).worker_id
                    == args.worker_id && ((*workers)->0)@[w].worker_run_id == Some(
                    args.worker_run_id,
                ) && ((*workers)->0)@[w].lease_valid
            &&& !file.blocks@.contains(block) ==> visible == 0
            &&& file.blocks@.contains(block) ==> exists|o: int|
                {
                    &&& 0 <= o < file.blocks@.len()
                    &&& #[trigger] file.blocks@[o] == block
                    &&& visible == block_len_of(
                        file.len as nat,
                        file.layout.block_size as nat,
                        o as nat,
                    )
                }
        }),
{
    let block = args.fencing_token.block_id;
    let key = block.inode_id.0;
    let limits = old(registry).limits();
    let t = old(registry)@.tidied(key, now_ms);
    tidying_drops_only_what_is_expired(old(registry)@, limits, key, now_ms);
    crate::session::model::lemma_tidied(old(registry)@, limits, key, now_ms);
    let s = old(registry)@.entries[key]->Active_0;
    let file = (inode_read->Ok_0->0).kind->File_0;
    crate::filesystem::open::the_first_target_is_found(s.issued_targets, block, 0);
    crate::inode::the_first_position_is_found(file.blocks@, block, 0);
    let at = crate::filesystem::open::target_of_block(s.issued_targets, block, 0)->0;
    assert(crate::filesystem::open::matches_target(*args, s.issued_targets[at]));
}

/// A stream that fits is authorized: its token names the owner and the epoch of a live session,
/// the stored file has that epoch, the group owns the mount, the first target that was issued
/// for its block matches what the stream asks for, one of the named processes is alive, and
/// what is visible of the block is left alone.
pub proof fn a_fitting_stream_is_authorized(
    registry: &mut SessionRegistry,
    caller_group: &Option<GroupName>,
    args: &AuthorizeBlockWriteArgs,
    inode_read: InodeRead,
    mount_read: MountRead,
    workers: &Option<Vec<WorkerPlacementView>>,
    now_ms: u64,
    r: Result<u64, MetadataError>,
    i: int,
    j: int,
    w: int,
)
    requires
        old(registry).wf(),
        call_ensures(
            authorize_block_write,
            (registry, caller_group, args, inode_read, mount_read, workers, now_ms),
            r,
        ),
        ({
            let block = args.fencing_token.block_id;
            let s = old(registry)@.entries[block.inode_id.0]->Active_0;
            let file = (inode_read->Ok_0->0).kind->File_0;
            let target = s.issued_targets[i];
            &&& old(registry)@.entries.contains_key(block.inode_id.0)
            &&& old(registry)@.entries[block.inode_id.0] is Active
            &&& now_ms < s.expires_at_ms
            &&& s.open_client_id == args.fencing_token.owner
            &&& s.lease_epoch == args.fencing_token.epoch
            &&& inode_read is Ok && inode_read->Ok_0 is Some && (inode_read->Ok_0->0).kind is File
            &&& file_error(file, block.inode_id) is None
            &&& file.lease_epoch == args.fencing_token.epoch
            &&& mount_read is Ok && mount_read->Ok_0 is Some
            &&& (mount_read->Ok_0->0).namespace_owner_group_name@ == args.group_name@
            &&& *caller_group is Some && ((*caller_group)->0)@ == args.group_name@
            &&& 0 <= i < s.issued_targets.len()
            &&& forall|k: int| 0 <= k < i ==> (#[trigger] s.issued_targets[k]).block_id != block
            &&& target.block_id == block
            &&& target.fencing_token == args.fencing_token
            &&& target.block_size == args.shape.block_size
            &&& target.block_format_id == args.shape.block_format_id
            &&& target.chunk_size == args.shape.chunk_size
            &&& target.tier == args.tier
            &&& target.write_offset <= args.write_offset < target.block_size
            &&& 0 <= j < target.worker_endpoints.len()
            &&& target.worker_endpoints[j].worker_id == args.worker_id
            &&& target.worker_endpoints[j].worker_run_id == args.worker_run_id
            &&& *workers is Some
            &&& 0 <= w < ((*workers)->0)@.len()
            &&& ((*workers)->0)@[w].worker_id == args.worker_id
            &&& ((*workers)->0)@[w].worker_run_id == Some(args.worker_run_id)
            &&& ((*workers)->0)@[w].lease_valid
            &&& forall|o: int|
                0 <= o < file.blocks@.len() && #[trigger] file.blocks@[o] == block ==> block_len_of(
                    file.len as nat,
                    file.layout.block_size as nat,
                    o as nat,
                ) <= args.write_offset
        }),
    ensures
        r is Ok,
{
    let block = args.fencing_token.block_id;
    let key = block.inode_id.0;
    let limits = old(registry).limits();
    let t = old(registry)@.tidied(key, now_ms);
    tidying_drops_only_what_is_expired(old(registry)@, limits, key, now_ms);
    crate::session::model::lemma_tidied(old(registry)@, limits, key, now_ms);
    assert(t.entries.contains_key(key));
    crate::session::laws::swept_keeps_what_is_live(
        t,
        limits,
        now_ms,
        crate::session::model::MAX_EXPIRED_SESSION_RETIREMENTS_PER_CALL as nat,
    );
    let s = old(registry)@.entries[key]->Active_0;
    let file = (inode_read->Ok_0->0).kind->File_0;
    crate::filesystem::open::the_first_target_is_found(s.issued_targets, block, 0);
    crate::inode::the_first_position_is_found(file.blocks@, block, 0);
    let at = crate::filesystem::open::target_of_block(s.issued_targets, block, 0)->0;
    assert(s.issued_targets[at].block_id == block);
    assert(at == i);
    assert(s.issued_targets[i].worker_endpoints[j].worker_id == args.worker_id);
    assert(crate::filesystem::open::matches_target(*args, s.issued_targets[i]));
    let known = ((*workers)->0)@;
    assert(known[w].worker_id == args.worker_id);
    assert(crate::filesystem::open::is_live_process(*args, known));
}

// ---- stages of an opening ----

/// A stored inode is taken only from under its own key, and a file only where it is one.
pub proof fn stored_inodes_have_their_own_key(
    operation: &str,
    missing: &str,
    key: InodeId,
    read: InodeRead,
    inode: Result<Inode, MetadataError>,
    file: Result<Inode, MetadataError>,
)
    requires
        call_ensures(check_stored_inode, (operation, missing, key, read), inode),
        call_ensures(check_stored_file, (operation, key, read), file),
    ensures
        inode is Ok <==> read is Ok && read->Ok_0 is Some && (read->Ok_0->0).inode_id == key,
        inode is Ok ==> inode->Ok_0 == read->Ok_0->0,
        file is Ok <==> inode is Ok && (read->Ok_0->0).kind is File,
        file is Ok ==> file->Ok_0 == read->Ok_0->0,
        read is Ok && read->Ok_0 is None ==> inode->Err_0 is NotFound && file->Err_0 is NotFound,
        read is Ok && read->Ok_0 is Some && inode is Err ==> inode->Err_0 is Internal,
        inode is Ok && file is Err ==> file->Err_0 is IsDir,
        read is Err ==> (inode->Err_0)@ == (read->Err_0)@ && (file->Err_0)@ == (read->Err_0)@,
{
}

/// The snapshot of an opening is the stored file under the epoch that the opening acquired. A
/// file under another epoch has been taken over, and the opening is given up.
pub proof fn a_snapshot_is_the_stored_file(
    registry: &mut SessionRegistry,
    ctx: &RequestContext,
    authority: &Authority,
    opening: WriteOpening,
    read: InodeRead,
    r: Result<FileData, FsFailure>,
)
    requires
        call_ensures(take_snapshot, (registry, ctx, authority, opening, read), r),
    ensures
        ({
            let file = (read->Ok_0->0).kind->File_0;
            let found = read is Ok && read->Ok_0 is Some && (read->Ok_0->0).kind is File
                && file_error(file, opening.inode_id) is None;
            let after = final(registry)@.entries;
            let key = opening.inode_id.0;
            &&& r is Ok <==> found && file.lease_epoch == opening.proposed_lease_epoch
            &&& r is Ok ==> r->Ok_0 == file && final(registry)@ == old(registry)@
            &&& found && r is Err ==> r->Err_0.error.kind == ErrorKind::Metadata(
                MetadataErrorKind::SessionInvalid,
            )
            &&& r is Err ==> !(after.contains_key(key) && after[key] is Opening
                && after[key]->Opening_0.opening_id == opening.opening_id)
        }),
{
}

/// The worker of a tail is asked for by the last block of the file and its visible bytes, in the
/// owner group. Without a group or without workers the opening is given up.
pub proof fn a_tail_is_asked_for_by_its_visible_bytes(
    registry: &mut SessionRegistry,
    ctx: &RequestContext,
    authority: &Authority,
    opening: WriteOpening,
    file: &FileData,
    has_workers: bool,
    existing: Vec<ReportedBlockLocation>,
    r: Result<PlacementRequest, FsFailure>,
)
    requires
        file_error(*file, opening.inode_id) is None,
        file.blocks@.len() > 0,
        call_ensures(
            request_tail,
            (registry, ctx, authority, opening, file, has_workers, existing),
            r,
        ),
    ensures
        r is Ok <==> authority.group_name is Some && has_workers,
        r is Ok ==> {
            let request = r->Ok_0;
            let last = file.blocks@.len() - 1;
            &&& final(registry)@ == old(registry)@
            &&& request.group_name@ == (authority.group_name->0)@
            &&& request.op == PlacementOp::Read
            &&& request.block_id == file.blocks@[last]
            &&& last * file.layout.block_size + request.visible_len == file.len
            &&& request.layout == file.layout
            &&& request.existing@ == existing@
            &&& request.exclude_workers@.len() == 0
            &&& request.target_replicas == 1
        },
{
    crate::inode::blocks_cover_the_file(
        file.len as nat,
        file.layout.block_size as nat,
        (file.blocks@.len() - 1) as nat,
    );
}

/// A tail that is taken is the last block of the file, for the caller and under the epoch of the
/// opening. Where none can be taken the opening is given up.
pub proof fn a_taken_tail_is_the_last_block(
    registry: &mut SessionRegistry,
    ctx: &RequestContext,
    authority: &Authority,
    opening: WriteOpening,
    file: &FileData,
    existing: &Vec<ReportedBlockLocation>,
    plan: &PlacementPlan,
    r: Result<LocatedBlock, FsFailure>,
)
    requires
        file_error(*file, opening.inode_id) is None,
        file.blocks@.len() > 0,
        call_ensures(take_tail, (registry, ctx, authority, opening, file, existing, plan), r),
    ensures
        r is Ok ==> {
            let tail = r->Ok_0;
            let last = file.blocks@.len() - 1;
            &&& final(registry)@ == old(registry)@
            &&& tail.block_id == file.blocks@[last]
            &&& tail.file_offset == last * file.layout.block_size
            &&& tail.file_offset + tail.write_offset == file.len
            &&& tail.block_size == file.layout.block_size
            &&& tail.fencing_token.block_id == tail.block_id
            &&& tail.fencing_token.owner == ctx.caller.client.client_id
            &&& tail.fencing_token.epoch == opening.proposed_lease_epoch
        },
        r is Err ==> {
            let after = final(registry)@.entries;
            let key = opening.inode_id.0;
            !(after.contains_key(key) && after[key] is Opening && after[key]->Opening_0.opening_id
                == opening.opening_id)
        },
{
    crate::inode::blocks_cover_the_file(
        file.len as nat,
        file.layout.block_size as nat,
        (file.blocks@.len() - 1) as nat,
    );
}

/// An opening that is finished tells the file and its tail, and its session stands in the
/// registry. One that is not is given up.
pub proof fn a_finished_opening_has_a_session(
    registry: &mut SessionRegistry,
    ctx: &RequestContext,
    authority: &Authority,
    opening: WriteOpening,
    file: &FileData,
    tail: Option<LocatedBlock>,
    now_ms: u64,
    r: Result<OpenWriteOutput, FsFailure>,
)
    requires
        call_ensures(finish_open, (registry, ctx, authority, opening, file, tail, now_ms), r),
    ensures
        ({
            let key = opening.inode_id.0;
            let after = final(registry)@.entries;
            &&& r is Ok ==> {
                &&& r->Ok_0.lease_epoch == opening.proposed_lease_epoch
                &&& r->Ok_0.base_size == file.len
                &&& r->Ok_0.generation == file.generation
                &&& r->Ok_0.layout == file.layout
                &&& r->Ok_0.tail_block is Some <==> tail is Some && (tail->0).write_offset > 0
                &&& r->Ok_0.tail_block is Some ==> (r->Ok_0.tail_block->0)@ == (tail->0)@
                &&& after.contains_key(key)
                &&& after[key] is Active
                &&& after[key]->Active_0.lease_epoch == opening.proposed_lease_epoch
                &&& after[key]->Active_0.base_size == file.len
            }
            &&& r is Err ==> !(after.contains_key(key) && after[key] is Opening
                && after[key]->Opening_0.opening_id == opening.opening_id)
        }),
{
}

// ---- what is owed ----

/// A free file can be opened: it is a file with a valid layout, its path leads to it, neither a
/// session nor a pending create stands in the way, capacity is left, and its epoch can move on.
pub proof fn a_free_file_can_be_opened(
    registry: &mut SessionRegistry,
    ctx: &RequestContext,
    authority: &Authority,
    path: String,
    inode: &Inode,
    layout: FileLayout,
    chain: Vec<InodeId>,
    mode: WriteMode,
    now_ms: u64,
    r: Result<(WriteOpening, Command), FsFailure>,
)
    requires
        old(registry).wf(),
        call_ensures(
            begin_open,
            (registry, ctx, authority, path, inode, Ok(layout), chain, mode, now_ms),
            r,
        ),
        layout_error(layout) is None,
        inode.kind is File,
        inode.kind->File_0.lease_epoch.0 < u64::MAX,
        0 < chain@.len() <= MAX_PATH_COMPONENTS + 1,
        chain@.last() == inode.inode_id,
        chain@.no_duplicates(),
        ({
            let v = old(registry)@;
            &&& !v.entries.contains_key(inode.inode_id.0)
            &&& forall|op: CreateFileOperationId| #[trigger]
                v.creates.contains_key(op) ==> !(v.creates[op].mount_id == inode.mount_id
                    && v.creates[op].normalized_path == path@)
            &&& v.entries.dom().len() + v.creates.dom().len() < old(
                registry,
            ).limits().max_sessions
            &&& v.client_occupied(ctx.caller.client.client_id) < old(
                registry,
            ).limits().max_sessions_per_client
            &&& v.next_opening_id < u64::MAX
        }),
    ensures
        r is Ok,
{
    let v = old(registry)@;
    let limits = old(registry).limits();
    let key = inode.inode_id.0;
    let budget = MAX_EXPIRED_SESSION_RETIREMENTS_PER_CALL as nat;
    assert(v.retire_inode(key, now_ms) == v);
    tidying_drops_only_what_is_expired(v, limits, key, now_ms);
    a_sweep_takes_no_capacity(v, limits, ctx.caller.client.client_id, now_ms, budget);
    let t = v.tidied(key, now_ms);
    if t.path_held(inode.mount_id, path@) {
        let op = choose|op: CreateFileOperationId| #[trigger]
            t.creates.contains_key(op) && t.creates[op].mount_id == inode.mount_id
                && t.creates[op].normalized_path == path@;
        assert(v.creates.contains_key(op));
    }
}

/// An opening whose epoch was acquired ends well, where the stored file has that epoch and the
/// layout that was opened, no tail is taken, and the opening is held and not expired.
pub proof fn an_acquired_opening_ends_well(
    registry: &mut SessionRegistry,
    ctx: &RequestContext,
    authority: &Authority,
    opening: WriteOpening,
    mode: WriteMode,
    stored: Inode,
    existing: Vec<ReportedBlockLocation>,
    workers: &Option<Vec<WorkerPlacementView>>,
    now_ms: u64,
    r: Result<OpenWriteOutput, FsFailure>,
)
    requires
        call_ensures(
            settle_open,
            (
                registry,
                ctx,
                authority,
                opening,
                mode,
                Ok(
                    ApplySuccess::WriteLeaseAcquired {
                        inode_id: opening.inode_id,
                        lease_epoch: opening.proposed_lease_epoch,
                    },
                ),
                Ok(Some(stored)),
                existing,
                workers,
                now_ms,
            ),
            r,
        ),
        stored.kind is File,
        ({
            let file = stored.kind->File_0;
            let key = opening.inode_id.0;
            let held = old(registry)@.entries[key]->Opening_0;
            &&& file_error(file, opening.inode_id) is None
            &&& file.lease_epoch == opening.proposed_lease_epoch
            &&& mode == WriteMode::Overwrite || file.len as int % file.layout.block_size as int
                == 0
            &&& old(registry)@.entries.contains_key(key)
            &&& old(registry)@.entries[key] is Opening
            &&& held.opening_id == opening.opening_id
            &&& held.proposed_lease_epoch == opening.proposed_lease_epoch
            &&& held.layout == file.layout
            &&& now_ms < held.expires_at_ms
        }),
    ensures
        r is Ok,
{
}

/// The tail that is told names one worker: a known one of the owner group that is registered and
/// alive, whose running process reported all visible bytes of the block.
pub proof fn a_told_tail_is_held_by_its_worker(
    registry: &mut SessionRegistry,
    ctx: &RequestContext,
    authority: &Authority,
    opening: WriteOpening,
    mode: WriteMode,
    reply: RaftReply,
    read: InodeRead,
    existing: Vec<ReportedBlockLocation>,
    workers: &Option<Vec<WorkerPlacementView>>,
    now_ms: u64,
    output: OpenWriteOutput,
)
    requires
        call_ensures(
            settle_open,
            (
                registry,
                ctx,
                authority,
                opening,
                mode,
                reply,
                read,
                existing,
                workers,
                now_ms,
            ),
            Ok(output),
        ),
        output.tail_block is Some,
    ensures
        (output.tail_block->0).worker_endpoints@.len() == 1,
        exists|i: int, e: int|
            {
                let tail = output.tail_block->0;
                let w = #[trigger] ((*workers)->0)@[i];
                let reported = #[trigger] existing@[e];
                &&& 0 <= i < ((*workers)->0)@.len()
                &&& 0 <= e < existing@.len()
                &&& w.worker_id == tail.worker_endpoints@[0].worker_id
                &&& w.worker_run_id == Some(tail.worker_endpoints@[0].worker_run_id)
                &&& w.endpoint@ == tail.worker_endpoints@[0].endpoint@
                &&& w.group_name@ == (authority.group_name->0)@
                &&& w.registered
                &&& w.lease_valid
                &&& reported.worker_id == w.worker_id
                &&& w.worker_run_id == Some(reported.worker_run_id)
                &&& reported.effective_len >= tail.write_offset
            },
{
    let known = ((*workers)->0)@;
    let tail = output.tail_block->0;
    let outcome = open_outcome(final(registry)@, Ok(output));
    let snapshot = opened_snapshot(ctx@, authority@, opening, read);
    let file = snapshot->Ok_0;
    assert(output@.tail_block == Some(tail@));
    assert(takes_tail(mode, file));
    let (req, planned) = choose|req: PlacementRequest, planned: Seq<PlannedWorkerView>|
        {
            &&& Some(req.group_name@) == authority@.group_name
            &&& asks_for_tail(req, file, existing@)
            &&& #[trigger] is_plan(req, known, planned)
            &&& match tail_target(
                file,
                ctx@.caller.client.client_id,
                opening.proposed_lease_epoch,
                existing@,
                placement_status(req, known),
                planned,
            ) {
                Err(e) => outcome == (
                    old(registry)@.cancel_opening(opening.inode_id, opening.opening_id),
                    Err::<OpenWriteOutputView, FsFailureView>(
                        metadata_failure(ctx@, e, authority@.without_route()),
                    ),
                ),
                Ok(tail) => outcome == opening_finished(
                    old(registry)@,
                    old(registry).limits(),
                    ctx@,
                    authority@,
                    opening,
                    file,
                    Some(tail),
                    now_ms,
                ),
            }
        };
    assert(is_plan(req, known, planned));
    lemma_planned_endpoints(planned);
    let told = endpoint_views(tail.worker_endpoints@);
    assert(told.len() == tail.worker_endpoints@.len());
    assert(planned.len() == 1);
    assert(told[0] == tail.worker_endpoints@[0]@);
    planned_workers_are_eligible(req, known, planned, 0);
    let i = choose|i: int|
        0 <= i < known.len() && #[trigger] is_eligible(req, known[i]) && planned[0]
            == planned_view(req, known[i]);
    let w = known[i];
    assert(crate::placement::holds_prefix(req, w));
    let e = choose|e: int|
        0 <= e < req.existing@.len() && (#[trigger] req.existing@[e]).worker_id == w.worker_id
            && Some(req.existing@[e].worker_run_id) == w.worker_run_id
            && req.existing@[e].effective_len >= req.visible_len;
    assert(existing@[e] == req.existing@[e]);
    assert(((*workers)->0)@[i].worker_id == w.worker_id);
}

/// Each refusal of an opening has its kind: a file that is held is busy, used-up capacity says
/// so, and what cannot be is internal.
pub proof fn opening_refusals_are_told_apart(
    ctx: RequestContextView,
    authority: AuthorityView,
    error: BeginSessionError,
    inode: InodeId,
)
    ensures
        ({
            let told = metadata_failure(ctx, opening_refusal(error, inode), authority).error;
            match error {
                BeginSessionError::Busy => told.kind == ErrorKind::Metadata(
                    MetadataErrorKind::Busy,
                ),
                BeginSessionError::LimitExceeded(_) => told.kind == ErrorKind::Metadata(
                    MetadataErrorKind::ResourceExhausted,
                ) && told.recovery is Retry,
                BeginSessionError::LeaseEpochExhausted => told.kind == ErrorKind::Metadata(
                    MetadataErrorKind::ResourceExhausted,
                ) && told.recovery is Fail,
                BeginSessionError::OpeningIdExhausted => told.kind == ErrorKind::Metadata(
                    MetadataErrorKind::ResourceExhausted,
                ) && told.recovery is Fail,
                BeginSessionError::InvalidAncestorChain => told.kind == ErrorKind::Internal(
                    InternalErrorKind::Internal,
                ),
            }
        }),
{
}

/// Each opening that could not be activated has its kind: one that is gone or expired asks to
/// open again, used-up capacity asks to try again, and another epoch is internal.
pub proof fn activation_refusals_are_told_apart(
    ctx: RequestContextView,
    authority: AuthorityView,
    inode: InodeId,
    error: WriteOpeningError,
)
    ensures
        ({
            let told = activation_refusal(ctx, authority, inode, error).error;
            match error {
                WriteOpeningError::TargetLimit => told.kind == ErrorKind::Metadata(
                    MetadataErrorKind::ResourceExhausted,
                ) && told.recovery is Retry,
                WriteOpeningError::Expired | WriteOpeningError::NotCurrent => told.kind
                    == ErrorKind::Metadata(MetadataErrorKind::SessionExpired)
                    && told.recovery is ReopenWriteSession,
                WriteOpeningError::LeaseEpochMismatch { .. } => told.kind == ErrorKind::Internal(
                    InternalErrorKind::Internal,
                ),
            }
        }),
{
}

proof fn lemma_reported_tier(
    existing: Seq<ReportedBlockLocation>,
    worker: WorkerId,
    run: WorkerRunId,
    from: int,
)
    requires
        0 <= from <= existing.len(),
    ensures
        reported_tier(existing, worker, run, from) is Some ==> exists|e: int|
            {
                let found = #[trigger] existing[e];
                &&& from <= e < existing.len()
                &&& found.worker_id == worker
                &&& found.worker_run_id == run
                &&& found.tier == reported_tier(existing, worker, run, from)->0
            },
    decreases existing.len() - from,
{
    if from < existing.len() {
        if existing[from].worker_id == worker && existing[from].worker_run_id == run {
            assert(existing[from].tier == reported_tier(existing, worker, run, from)->0);
        } else {
            lemma_reported_tier(existing, worker, run, from + 1);
        }
    }
}

/// A tail names the workers that were chosen for it, in order, and the tier on which the first
/// of them reported the block.
pub proof fn a_tail_names_the_chosen_workers(
    file: &FileData,
    inode: InodeId,
    owner: ClientId,
    epoch: LeaseEpoch,
    existing: &Vec<ReportedBlockLocation>,
    plan: &PlacementPlan,
    tail: LocatedBlock,
)
    requires
        call_ensures(
            locate_append_tail,
            (file, inode, owner, epoch, existing, plan),
            Ok(tail),
        ),
    ensures
        tail.worker_endpoints@.len() == plan.workers@.len(),
        plan.workers@.len() > 0,
        forall|i: int|
            0 <= i < tail.worker_endpoints@.len() ==> {
                let told = #[trigger] tail.worker_endpoints@[i];
                &&& told.worker_id == plan.workers@[i].worker_id
                &&& told.endpoint@ == plan.workers@[i].endpoint@
                &&& told.worker_run_id == plan.workers@[i].worker_run_id
            },
        exists|e: int|
            {
                let found = #[trigger] existing@[e];
                &&& 0 <= e < existing@.len()
                &&& found.worker_id == plan.workers@[0].worker_id
                &&& found.worker_run_id == plan.workers@[0].worker_run_id
                &&& found.tier == tail.tier
            },
{
    let views = planned_views(plan.workers@);
    let told = endpoint_views(tail.worker_endpoints@);
    lemma_planned_endpoints(views);
    assert(views.len() == plan.workers@.len());
    assert(told.len() == tail.worker_endpoints@.len());
    assert(views[0] == plan.workers@[0]@);
    lemma_reported_tier(existing@, views[0].worker_id, views[0].worker_run_id, 0);
    assert forall|i: int| 0 <= i < tail.worker_endpoints@.len() implies {
        let e = #[trigger] tail.worker_endpoints@[i];
        &&& e.worker_id == plan.workers@[i].worker_id
        &&& e.endpoint@ == plan.workers@[i].endpoint@
        &&& e.worker_run_id == plan.workers@[i].worker_run_id
    } by {
        assert(told[i] == tail.worker_endpoints@[i]@);
        assert(views[i] == plan.workers@[i]@);
    }
}

} // verus!
