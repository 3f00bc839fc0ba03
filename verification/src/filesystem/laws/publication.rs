//! What sync and commit promise.

use vstd::prelude::*;

use crate::error::MetadataError;
use crate::filesystem::command::{
    ApplySuccess, Command, FilePublication, InodeRead, PublishMode, RaftReply, RoutedFsWriteCtx,
};
use crate::filesystem::committed::{
    check_committed_inodes, committed_bytes, committed_error, publication_ready_targets,
    publish_mode_for_session, total_len, validate_committed_blocks, CloseWriteIntent,
};
use crate::filesystem::context::{
    Authority, FsFailure, FsSuccess, RequestContext, RequestContextView,
};
use crate::filesystem::publish::{
    active_publish_session, answer_commit, answer_sync, begin_commit, begin_sync,
    begin_write_publication, check_mount_authority, finish_committed, finish_publication,
    finish_visible_sync, prepare_proposal, publication_refusal, resolve_commit_receipt,
    resolve_synced_state, revalidate_publish_session, settle_publication, submit_publication,
    validate_publication, CloseWriteOutput, Proposal, PublicationEnd, PublishOperation,
    PublishStep, ReceiptRead, SyncWriteOutput, SyncedState, ValidPublication, VisibleMatch,
};
use crate::filesystem::readiness::{PublishReadyStatus, PublishReadyTarget};
use crate::fs::{ContentGeneration, WriteMode};
use crate::group_watermark::RaftLogId;
use crate::ids::{InodeId, MountId};
use crate::inode::Inode;
use crate::lease::WriteHandle;
use crate::location::CommittedBlock;
use crate::rpc_error::{ErrorKind, InternalErrorKind, MetadataErrorKind, ProtocolErrorKind};
use crate::session::effects::tidying_drops_only_what_is_expired;
use crate::session::registry::{SessionRegistry, WritePublication};
use crate::session::types::{BeginWritePublicationError, EntryView, WriteSession, WriteSessionView};

verus! {

// ---- modes ----

/// A session that was opened to append publishes by appending, and one that was opened to
/// overwrite by replacing. No session does both, and none does neither.
pub proof fn sessions_publish_in_their_mode(session: &WriteSession, r: PublishMode)
    requires
        call_ensures(publish_mode_for_session, (session,), r),
    ensures
        r == PublishMode::AppendIfUnchanged <==> session.mode == WriteMode::Append,
        r == PublishMode::ReplaceIfUnchanged <==> session.mode == WriteMode::Overwrite,
{
}

/// A publication begins for the client of the session only, and only in the mode that the
/// session was opened in: appending in a session that appends, replacing in one that
/// overwrites. Any other request is refused as invalid, and the session goes on.
pub proof fn publications_begin_in_the_mode_of_the_session(
    registry: &mut SessionRegistry,
    ctx: &RequestContext,
    handle: WriteHandle,
    mode: PublishMode,
    operation: PublishOperation,
    now_ms: u64,
    r: Result<WritePublication, FsFailure>,
)
    requires
        old(registry).wf(),
        call_ensures(
            begin_write_publication,
            (registry, ctx, handle, mode, operation, now_ms),
            r,
        ),
    ensures
        ({
            let key = handle.inode_id.0;
            let s = old(registry)@.entries[key]->Active_0;
            let free = {
                &&& old(registry)@.entries.contains_key(key)
                &&& old(registry)@.entries[key].retirement_at_ms() > now_ms
                &&& old(registry)@.entries[key] is Active
                &&& s.lease_epoch == handle.lease_epoch
                &&& s.pending_allocate_block is None
                &&& s.active_publication is None
                &&& old(registry)@.next_publication_id < u64::MAX
            };
            let fits = {
                &&& s.open_client_id == ctx.caller.client.client_id
                &&& mode == PublishMode::AppendIfUnchanged <==> s.mode == WriteMode::Append
                &&& mode == PublishMode::ReplaceIfUnchanged <==> s.mode == WriteMode::Overwrite
            };
            &&& r is Ok <==> free && fits
            &&& r is Ok ==> {
                &&& r->Ok_0.session.mode == s.mode
                &&& r->Ok_0.session.open_client_id == ctx.caller.client.client_id
                &&& r->Ok_0.session.lease_epoch == handle.lease_epoch
                &&& r->Ok_0.session.inode_id == handle.inode_id
                &&& r->Ok_0.session.generation == s.generation
                &&& r->Ok_0.session.base_size == s.base_size
                &&& r->Ok_0.session@.issued_targets == s.issued_targets
                &&& !r->Ok_0.submitted
            }
            &&& free && !fits ==> {
                &&& r->Err_0.error.kind == ErrorKind::Metadata(MetadataErrorKind::SessionInvalid)
                &&& r->Err_0.error.recovery is ReopenWriteSession
                &&& final(registry)@.entries.contains_key(key)
                &&& final(registry)@.entries[key] == old(registry)@.entries[key]
            }
        }),
{
    tidying_drops_only_what_is_expired(
        old(registry)@,
        old(registry).limits(),
        handle.inode_id.0,
        now_ms,
    );
    if old(registry)@.entries.contains_key(handle.inode_id.0) {
        assert(old(registry)@.entry_wf(handle.inode_id.0, old(registry).limits()));
    }
}

/// A sync or commit that is to be published froze the caller's own session: the one of its
/// handle, with the generation that the caller saw, in the mode that it was opened in.
pub proof fn a_new_publication_froze_what_the_caller_saw(
    synced: &mut SessionRegistry,
    committed: &mut SessionRegistry,
    ctx: &RequestContext,
    handle: WriteHandle,
    intent: &CloseWriteIntent,
    expected_generation: ContentGeneration,
    mode: PublishMode,
    read: InodeRead,
    matches: VisibleMatch,
    receipt: ReceiptRead,
    now_ms: u64,
    s: WritePublication,
    c: WritePublication,
)
    requires
        old(synced).wf(),
        old(committed).wf(),
        call_ensures(
            begin_sync,
            (synced, ctx, handle, intent, expected_generation, mode, read, matches, now_ms),
            Ok(PublishStep::Publish(s)),
        ),
        call_ensures(
            begin_commit,
            (committed, ctx, handle, expected_generation, mode, read, receipt, now_ms),
            Ok(PublishStep::Publish(c)),
        ),
    ensures
        s.session.generation == expected_generation,
        c.session.generation == expected_generation,
        s.session.open_client_id == ctx.caller.client.client_id,
        c.session.open_client_id == ctx.caller.client.client_id,
        s.session.lease_epoch == handle.lease_epoch,
        c.session.lease_epoch == handle.lease_epoch,
        s.session.inode_id == handle.inode_id,
        c.session.inode_id == handle.inode_id,
        mode == PublishMode::AppendIfUnchanged <==> s.session.mode == WriteMode::Append,
        mode == PublishMode::AppendIfUnchanged <==> c.session.mode == WriteMode::Append,
        mode == PublishMode::ReplaceIfUnchanged <==> s.session.mode == WriteMode::Overwrite,
        mode == PublishMode::ReplaceIfUnchanged <==> c.session.mode == WriteMode::Overwrite,
        receipt == Ok::<Option<ContentGeneration>, MetadataError>(None),
{
    let key = handle.inode_id.0;
    let s0 = old(synced)@.tidied(key, now_ms);
    let c0 = old(committed)@.tidied(key, now_ms);
    crate::session::model::lemma_tidied(old(synced)@, old(synced).limits(), key, now_ms);
    crate::session::model::lemma_tidied(old(committed)@, old(committed).limits(), key, now_ms);
    tidying_drops_only_what_is_expired(s0, old(synced).limits(), key, now_ms);
    tidying_drops_only_what_is_expired(c0, old(committed).limits(), key, now_ms);
    let s1 = s0.tidied(key, now_ms);
    let c1 = c0.tidied(key, now_ms);
    assert(s1.entries.contains_key(key) ==> s0.entry_wf(key, old(synced).limits()));
    assert(c1.entries.contains_key(key) ==> c0.entry_wf(key, old(committed).limits()));
}

// ---- replays ----

/// A sync counts as visible only where the stored file is the one of the handle, under its
/// epoch or the one behind it, has contents that match, and the next generation; or the same
/// generation where the sync names no block. It is then told with the stored generation.
pub proof fn a_visible_sync_is_what_is_stored(
    handle: WriteHandle,
    names_no_block: bool,
    expected_generation: ContentGeneration,
    read: InodeRead,
    matches: VisibleMatch,
    r: Result<Option<SyncedState>, MetadataError>,
)
    requires
        call_ensures(
            resolve_synced_state,
            (handle, names_no_block, expected_generation, read, matches),
            r,
        ),
    ensures
        ({
            let stored = read->Ok_0->0;
            let file = stored.kind->File_0;
            let next = file.generation.0 == expected_generation.0 + 1;
            let same = file.generation == expected_generation;
            &&& r is Ok ==> {
                &&& read is Ok && read->Ok_0 is Some
                &&& stored.inode_id == handle.inode_id
                &&& stored.kind is File
                &&& file.lease_epoch == handle.lease_epoch || file.lease_epoch.0
                    == handle.lease_epoch.0 + 1
                &&& matches is Ok
            }
            &&& r is Ok && r->Ok_0 is Some ==> {
                &&& matches->Ok_0
                &&& next || (same && names_no_block)
                &&& (r->Ok_0->0).generation == file.generation
                &&& (r->Ok_0->0).mount_id == stored.mount_id
            }
            &&& r is Ok && r->Ok_0 is None ==> same && !(matches->Ok_0 && names_no_block)
            &&& r is Err ==> {
                ||| read is Err
                ||| read->Ok_0 is None
                ||| stored.inode_id != handle.inode_id
                ||| stored.kind is Dir
                ||| crate::inode::file_error(file, handle.inode_id) is Some
                ||| file.lease_epoch != handle.lease_epoch && file.lease_epoch.0
                    != handle.lease_epoch.0 + 1
                ||| matches is Err
                ||| !same && !(next && matches->Ok_0)
            }
        }),
{
}

/// A commit counts as made if and only if the stored inode of the request holds its receipt.
pub proof fn a_made_commit_has_a_receipt(
    inode: InodeId,
    read: InodeRead,
    receipt: ReceiptRead,
    r: Result<Option<MountId>, MetadataError>,
)
    requires
        call_ensures(resolve_commit_receipt, (inode, read, receipt), r),
    ensures
        r is Ok <==> read is Ok && read->Ok_0 is Some && (read->Ok_0->0).inode_id == inode
            && receipt is Ok,
        r is Ok ==> (r->Ok_0 is Some <==> receipt->Ok_0 is Some),
        r is Ok && r->Ok_0 is Some ==> r->Ok_0->0 == (read->Ok_0->0).mount_id,
{
}

/// A sync whose effect was visible already is answered with its size and the stored generation.
pub proof fn a_visible_sync_tells_its_size(
    registry: &mut SessionRegistry,
    ctx: &RequestContext,
    authority: &Authority,
    state: SyncedState,
    publication: Option<WritePublication>,
    final_size: u64,
    now_ms: u64,
    r: Result<SyncWriteOutput, FsFailure>,
)
    requires
        call_ensures(
            finish_visible_sync,
            (registry, ctx, authority, state, publication, final_size, now_ms),
            r,
        ),
    ensures
        r is Ok ==> r->Ok_0.synced_size == final_size && r->Ok_0.generation == Some(
            state.generation,
        ),
        publication is None ==> r is Ok && final(registry)@ == old(registry)@,
{
}

/// A commit that was made already is answered with its size. The session with the epoch of the
/// handle goes, and no other.
pub proof fn a_made_commit_tells_its_size(
    registry: &mut SessionRegistry,
    handle: WriteHandle,
    final_size: u64,
    r: CloseWriteOutput,
)
    requires
        call_ensures(finish_committed, (registry, handle, final_size), r),
    ensures
        r.committed_size == final_size,
        ({
            let key = handle.inode_id.0;
            let ends = old(registry)@.entries.contains_key(key) && old(registry)@.entries[key]
                is Active && old(registry)@.entries[key]->Active_0.lease_epoch
                == handle.lease_epoch;
            &&& ends ==> final(registry)@.entries == old(registry)@.entries.remove(key)
            &&& !ends ==> final(registry)@ == old(registry)@
        }),
{
}

// ---- contents ----

/// An intent asks for what it holds: its blocks and its size, on top of the size and the
/// generation that the caller saw, under the epoch of its handle.
pub proof fn an_intent_publishes_what_it_holds(
    intent: &CloseWriteIntent,
    handle: WriteHandle,
    generation: ContentGeneration,
    mode: PublishMode,
    r: FilePublication,
)
    requires
        call_ensures(CloseWriteIntent::publication, (intent, handle, generation, mode), r),
    ensures
        r.blocks@ == intent.committed_blocks@,
        r.target_size == intent.final_size,
        r.expected_file_size == intent.expected_file_size,
        r.expected_generation == generation,
        r.lease_epoch == handle.lease_epoch,
        r.mode == mode,
{
}

/// Committed blocks belong to the inode of the request, or the request is refused.
pub proof fn committed_blocks_belong_to_the_request(
    blocks: &Vec<CommittedBlock>,
    inode: InodeId,
    r: Result<(), MetadataError>,
)
    requires
        call_ensures(check_committed_inodes, (blocks, inode), r),
    ensures
        r is Ok ==> forall|i: int|
            0 <= i < blocks@.len() ==> (#[trigger] blocks@[i]).block_id.inode_id == inode,
        r is Err ==> exists|i: int|
            0 <= i < blocks@.len() && (#[trigger] blocks@[i]).block_id.inode_id != inode,
        r is Err ==> r->Err_0 is InvalidArgument,
{
}

/// The bytes of committed blocks add up: none count nothing, and one more block counts its
/// length on top.
pub proof fn committed_bytes_add_up(
    blocks: &Vec<CommittedBlock>,
    more: &Vec<CommittedBlock>,
    extra: CommittedBlock,
    bytes: u64,
    more_bytes: u64,
)
    requires
        more@ == blocks@.push(extra),
        call_ensures(committed_bytes, (blocks,), bytes),
        call_ensures(committed_bytes, (more,), more_bytes),
    ensures
        blocks@.len() == 0 ==> bytes == 0,
        bytes < u64::MAX ==> more_bytes == if bytes + extra.len > u64::MAX {
            u64::MAX as int
        } else {
            bytes + extra.len
        },
        more_bytes >= bytes,
{
    assert(more@.drop_last() =~= blocks@);
    assert(total_len(more@) == total_len(blocks@) + extra.len);
}

/// A replacement names every block of the file, from its beginning: the block at each position
/// is full, but for the last one, which ends where the file ends. Together they hold the whole
/// file.
pub proof fn replacements_name_the_whole_file(
    intent: &CloseWriteIntent,
    session: &WriteSession,
    blocks: Vec<CommittedBlock>,
)
    requires
        session.mode == WriteMode::Overwrite,
        call_ensures(validate_committed_blocks, (intent, session), Ok(blocks)),
    ensures
        blocks@ == intent.committed_blocks@,
        total_len(blocks@) == intent.final_size,
        forall|i: int|
            0 <= i < blocks@.len() ==> {
                &&& (#[trigger] blocks@[i]).block_id.inode_id == session.inode_id
                &&& blocks@[i].len <= session.layout.block_size
                &&& i + 1 < blocks@.len() ==> blocks@[i].len == session.layout.block_size
            },
{
    assert(committed_error(*intent, session@) is None);
    if blocks@.len() > 0 {
        crate::filesystem::committed::publications_cover_the_changed_part(*intent, session@);
    } else {
        let size = session.layout.block_size as nat;
        let len = intent.final_size as nat;
        assert(len == 0) by (nonlinear_arith)
            requires
                size > 0,
                len % size == 0,
                len / size == 0,
        ;
    }
    assert forall|i: int| 0 <= i < blocks@.len() implies {
        &&& (#[trigger] blocks@[i]).block_id.inode_id == session.inode_id
        &&& blocks@[i].len <= session.layout.block_size
        &&& i + 1 < blocks@.len() ==> blocks@[i].len == session.layout.block_size
    } by {
        crate::filesystem::committed::published_blocks_fit_their_position(*intent, session@, i);
    }
}

/// An append names the tail and what follows, and never gives up visible bytes: its first block
/// is the one that holds the visible end, the blocks reach to the new end without a gap, and an
/// append that names no block leaves the file as long as it was.
pub proof fn appends_name_the_tail_and_what_follows(
    intent: &CloseWriteIntent,
    session: &WriteSession,
    blocks: Vec<CommittedBlock>,
)
    requires
        session.mode == WriteMode::Append,
        call_ensures(validate_committed_blocks, (intent, session), Ok(blocks)),
    ensures
        blocks@ == intent.committed_blocks@,
        intent.final_size >= session.base_size,
        blocks@.len() == 0 ==> intent.final_size == session.base_size,
        blocks@.len() > 0 ==> (session.base_size as int / session.layout.block_size as int)
            * session.layout.block_size + total_len(blocks@) == intent.final_size,
{
    assert(committed_error(*intent, session@) is None);
    crate::filesystem::committed::appends_keep_the_visible_prefix(*intent, session@);
    if blocks@.len() > 0 {
        crate::filesystem::committed::publications_cover_the_changed_part(*intent, session@);
    }
}

/// Every published block was issued to this writer for exactly the place that it takes in the
/// file.
pub proof fn published_blocks_were_issued_for_their_place(
    intent: &CloseWriteIntent,
    session: &WriteSession,
    blocks: Vec<CommittedBlock>,
    i: int,
)
    requires
        call_ensures(validate_committed_blocks, (intent, session), Ok(blocks)),
        0 <= i < blocks@.len(),
    ensures
        intent.expected_file_size == session.base_size,
        ({
            let first = if session.mode == WriteMode::Append {
                session.base_size as int / session.layout.block_size as int
            } else {
                0
            };
            exists|k: int|
                {
                    &&& 0 <= k < session@.issued_targets.len()
                    &&& (#[trigger] session@.issued_targets[k]).block_id == blocks@[i].block_id
                    &&& session@.issued_targets[k].file_offset == (first + i)
                        * session.layout.block_size
                }
        }),
{
    let id = blocks@[i].block_id;
    assert(committed_error(*intent, session@) is None);
    crate::filesystem::committed::published_blocks_fit_their_position(*intent, session@, i);
    crate::filesystem::committed::the_last_target_of_a_block_counts(session@.issued_targets, id);
    if session.mode == WriteMode::Append {
        crate::filesystem::committed::appends_keep_the_visible_prefix(*intent, session@);
    }
}

// ---- stages ----

/// A publication that is valid carries what the caller asked for, and asks workers for every
/// block that it names, with the length that is published.
pub proof fn a_valid_publication_carries_the_request(
    registry: &mut SessionRegistry,
    ctx: &RequestContext,
    authority: &Authority,
    operation: PublishOperation,
    handle: WriteHandle,
    intent: &CloseWriteIntent,
    expected_generation: ContentGeneration,
    mode: PublishMode,
    publication: WritePublication,
    read: InodeRead,
    now_ms: u64,
    valid: ValidPublication,
)
    requires
        call_ensures(
            validate_publication,
            (
                registry,
                ctx,
                authority,
                operation,
                handle,
                intent,
                expected_generation,
                mode,
                publication,
                read,
                now_ms,
            ),
            Ok(valid),
        ),
    ensures
        valid.publication == publication,
        handle.lease_epoch == publication.session.lease_epoch,
        valid.payload.blocks@ == intent.committed_blocks@,
        valid.payload.target_size == intent.final_size,
        valid.payload.expected_file_size == intent.expected_file_size,
        valid.payload.expected_generation == expected_generation,
        valid.payload.lease_epoch == handle.lease_epoch,
        valid.payload.mode == mode,
        authority.group_name is Some,
        read is Ok && read->Ok_0 is Some && (read->Ok_0->0).kind is File,
        (read->Ok_0->0).kind->File_0.generation == expected_generation,
        valid.targets@.len() == intent.committed_blocks@.len(),
        forall|i: int|
            0 <= i < valid.targets@.len() ==> {
                &&& (#[trigger] valid.targets@[i]).target.block_id
                    == intent.committed_blocks@[i].block_id
                &&& valid.targets@[i].effective_len == intent.committed_blocks@[i].len
                &&& valid.targets@[i].target.fencing_token.epoch
                    == publication.session.lease_epoch
            },
{
    crate::filesystem::committed::readiness_is_asked_for_every_block(
        publication.session@,
        intent.committed_blocks@,
    );
    let views = crate::filesystem::readiness::ready_target_views(valid.targets@);
    assert(views.len() == valid.targets@.len());
    assert forall|i: int| 0 <= i < valid.targets@.len() implies {
        &&& (#[trigger] valid.targets@[i]).target.block_id
            == intent.committed_blocks@[i].block_id
        &&& valid.targets@[i].effective_len == intent.committed_blocks@[i].len
        &&& valid.targets@[i].target.fencing_token.epoch == publication.session.lease_epoch
    } by {
        assert(views[i] == valid.targets@[i]@);
    }
}

/// What is proposed is the publication that was validated, for the inode of the handle: a sync
/// publishes the file, and a commit also names its caller. It is proposed only while the caller
/// owns a live session in the mode of the publication, with every target ready, on the route
/// that was found, and before the deadline.
pub proof fn a_proposal_is_what_was_validated(
    registry: &mut SessionRegistry,
    ctx: &RequestContext,
    authority: &Authority,
    operation: PublishOperation,
    handle: WriteHandle,
    valid: ValidPublication,
    has_workers: bool,
    status: PublishReadyStatus,
    routed: Result<RoutedFsWriteCtx, FsFailure>,
    now_ms: u64,
    proposal: Proposal,
)
    requires
        old(registry).wf(),
        call_ensures(
            prepare_proposal,
            (
                registry,
                ctx,
                authority,
                operation,
                handle,
                valid,
                has_workers,
                status,
                routed,
                now_ms,
            ),
            Ok(proposal),
        ),
    ensures
        proposal.publication == valid.publication,
        routed == Ok::<RoutedFsWriteCtx, FsFailure>(proposal.routed),
        ({
            let carries = |p: FilePublication|
                {
                    &&& p.blocks@ == valid.payload.blocks@
                    &&& p.target_size == valid.payload.target_size
                    &&& p.expected_generation == valid.payload.expected_generation
                    &&& p.expected_file_size == valid.payload.expected_file_size
                    &&& p.lease_epoch == valid.payload.lease_epoch
                    &&& p.mode == valid.payload.mode
                };
            match proposal.command {
                Command::PublishFile { inode_id, publication } => {
                    &&& operation == PublishOperation::SyncWrite
                    &&& inode_id == handle.inode_id
                    &&& carries(publication)
                },
                Command::CommitFile { inode_id, client_id, call_id, publication } => {
                    &&& operation == PublishOperation::CommitFile
                    &&& inode_id == handle.inode_id
                    &&& client_id == ctx.caller.client.client_id
                    &&& call_id == ctx.caller.client.call_id
                    &&& carries(publication)
                },
                _ => false,
            }
        }),
        ({
            let frozen = valid.publication.session;
            let s = old(registry)@.entries[frozen.inode_id.0]->Active_0;
            &&& old(registry)@.entries.contains_key(frozen.inode_id.0)
            &&& old(registry)@.entries[frozen.inode_id.0] is Active
            &&& s.lease_epoch == frozen.lease_epoch
            &&& s.active_publication == Some(valid.publication.publication_id)
            &&& now_ms < s.expires_at_ms
            &&& s.open_client_id == ctx.caller.client.client_id
            &&& valid.payload.mode == PublishMode::AppendIfUnchanged <==> s.mode
                == WriteMode::Append
            &&& valid.payload.mode == PublishMode::ReplaceIfUnchanged <==> s.mode
                == WriteMode::Overwrite
            &&& s.mount_id == frozen.mount_id
            &&& s.base_size == frozen.base_size
            &&& s.generation == frozen.generation
        }),
        valid.targets@.len() > 0 ==> has_workers && status == PublishReadyStatus::Ready,
        (now_ms as int) < ctx.caller.deadline.0,
{
    let key = valid.publication.session.inode_id.0;
    let limits = old(registry).limits();
    let t = old(registry)@.tidied(key, now_ms);
    tidying_drops_only_what_is_expired(old(registry)@, limits, key, now_ms);
    crate::session::model::lemma_tidied(old(registry)@, limits, key, now_ms);
    crate::session::laws::swept_keeps_what_is_live(
        t,
        limits,
        now_ms,
        crate::session::model::MAX_EXPIRED_SESSION_RETIREMENTS_PER_CALL as nat,
    );
    assert(old(registry)@.entry_wf(key, limits));
    match proposal.command {
        Command::PublishFile { publication, .. } => {
            assert(publication@ == valid.payload@);
        },
        Command::CommitFile { publication, .. } => {
            assert(publication@ == valid.payload@);
        },
        _ => {},
    }
}

/// A publication that was submitted is the same publication, and pins its session. One that is
/// not submitted asks its caller to try again.
pub proof fn a_submitted_publication_is_the_same(
    registry: &mut SessionRegistry,
    publication: WritePublication,
    now_ms: u64,
    r: Result<WritePublication, MetadataError>,
)
    requires
        old(registry).wf(),
        !publication.submitted,
        call_ensures(submit_publication, (registry, publication, now_ms), r),
    ensures
        ({
            let key = publication.session.inode_id.0;
            let s = old(registry)@.entries[key]->Active_0;
            &&& r is Ok ==> {
                &&& r->Ok_0.submitted
                &&& r->Ok_0.publication_id == publication.publication_id
                &&& r->Ok_0.session@ == publication.session@
                &&& old(registry)@.entries.contains_key(key)
                &&& now_ms < s.expires_at_ms
                &&& final(registry)@.entries == old(registry)@.entries.insert(
                    key,
                    EntryView::Active(WriteSessionView { publication_submitted: true, ..s }),
                )
            }
            &&& r is Err ==> r->Err_0 is Again
        }),
{
    let key = publication.session.inode_id.0;
    if old(registry)@.entries.contains_key(key) {
        assert(old(registry)@.entry_wf(key, old(registry).limits()));
    }
}

/// A commit ends well if and only if applying it ended the lease of its handle: the epoch behind
/// it is in force. Its session is gone then. Anything else leaves the session as it is, to be
/// fenced.
pub proof fn a_commit_ends_with_its_lease(
    registry: &mut SessionRegistry,
    publication: WritePublication,
    handle: WriteHandle,
    file_size: u64,
    reply: RaftReply,
    now_ms: u64,
    end: PublicationEnd,
)
    requires
        call_ensures(
            finish_publication,
            (
                registry,
                publication,
                PublishOperation::CommitFile,
                handle,
                file_size,
                reply,
                now_ms,
            ),
            end,
        ),
    ensures
        ({
            let key = publication.session.inode_id.0;
            let s = old(registry)@.entries[key]->Active_0;
            let owns = old(registry)@.entries.contains_key(key) && old(registry)@.entries[key]
                is Active && s.lease_epoch == publication.session.lease_epoch
                && s.active_publication == Some(publication.publication_id);
            match end {
                PublicationEnd::Applied(generation) => {
                    &&& handle.lease_epoch.0 < u64::MAX
                    &&& reply == Ok::<ApplySuccess, MetadataError>(
                        ApplySuccess::FileCommitted {
                            inode_id: handle.inode_id,
                            lease_epoch: crate::lease::LeaseEpoch(
                                (handle.lease_epoch.0 + 1) as u64,
                            ),
                            generation,
                        },
                    )
                    &&& owns ==> final(registry)@.entries == old(registry)@.entries.remove(key)
                    &&& !owns ==> final(registry)@ == old(registry)@
                },
                PublicationEnd::Broken(_) => false,
                PublicationEnd::Fence(p, e) => {
                    &&& final(registry)@ == old(registry)@
                    &&& p@ == publication@
                    &&& reply is Err ==> e@ == (reply->Err_0)@
                    &&& reply is Ok ==> e is Internal
                    &&& reply is Ok && reply->Ok_0 is FileCommitted ==> {
                        ||| reply->Ok_0->FileCommitted_inode_id != handle.inode_id
                        ||| reply->Ok_0->FileCommitted_lease_epoch.0 != handle.lease_epoch.0 + 1
                    }
                },
            }
        }),
{
}

/// A sync ends well if and only if applying it published the file of its handle and the session
/// could be brought up to the new generation and size.
pub proof fn a_sync_ends_with_its_generation(
    registry: &mut SessionRegistry,
    publication: WritePublication,
    handle: WriteHandle,
    file_size: u64,
    reply: RaftReply,
    now_ms: u64,
    end: PublicationEnd,
)
    requires
        old(registry).wf(),
        call_ensures(
            finish_publication,
            (
                registry,
                publication,
                PublishOperation::SyncWrite,
                handle,
                file_size,
                reply,
                now_ms,
            ),
            end,
        ),
    ensures
        ({
            let key = publication.session.inode_id.0;
            let after = final(registry)@.entries[key]->Active_0;
            match end {
                PublicationEnd::Applied(generation) => {
                    &&& reply == Ok::<ApplySuccess, MetadataError>(
                        ApplySuccess::FilePublished { inode_id: handle.inode_id, generation },
                    )
                    &&& final(registry)@.entries.contains_key(key)
                    &&& final(registry)@.entries[key] is Active
                    &&& after.generation == generation
                    &&& after.base_size == file_size
                    &&& after.mode == WriteMode::Append
                    &&& after.active_publication is None
                    &&& !after.publication_submitted
                },
                PublicationEnd::Broken(e) => {
                    &&& e is Internal
                    &&& reply is Ok && reply->Ok_0 is FilePublished
                },
                PublicationEnd::Fence(p, e) => {
                    &&& final(registry)@ == old(registry)@
                    &&& p@ == publication@
                    &&& reply is Err ==> e@ == (reply->Err_0)@
                    &&& reply is Ok ==> e is Internal
                    &&& reply is Ok && reply->Ok_0 is FilePublished
                        ==> reply->Ok_0->FilePublished_inode_id != handle.inode_id
                },
            }
        }),
{
    let key = publication.session.inode_id.0;
    tidying_drops_only_what_is_expired(
        old(registry)@,
        old(registry).limits(),
        key,
        now_ms,
    );
    if old(registry)@.entries.contains_key(key) {
        assert(old(registry)@.entry_wf(key, old(registry).limits()));
    }
}

/// The session of a failed publication goes only where the fence behind it ended the lease of
/// the inode at a later epoch. A submitted publication keeps its session otherwise.
pub proof fn a_fence_ends_the_session_it_rules_out(
    registry: &mut SessionRegistry,
    publication: WritePublication,
    handle: WriteHandle,
    fence: RaftReply,
)
    requires
        publication.submitted,
        handle.lease_epoch.0 < u64::MAX,
        call_ensures(settle_publication, (registry, publication, handle, fence), ()),
    ensures
        ({
            let key = publication.session.inode_id.0;
            let s = old(registry)@.entries[key]->Active_0;
            let fenced = fence is Ok && fence->Ok_0 is WriteLeaseEnded
                && fence->Ok_0->WriteLeaseEnded_inode_id == handle.inode_id
                && fence->Ok_0->WriteLeaseEnded_lease_epoch.0 > handle.lease_epoch.0;
            let owns = old(registry)@.entries.contains_key(key) && old(registry)@.entries[key]
                is Active && s.lease_epoch == publication.session.lease_epoch
                && s.active_publication == Some(publication.publication_id);
            &&& fenced && owns ==> final(registry)@.entries == old(registry)@.entries.remove(key)
            &&& !fenced || !owns ==> final(registry)@ == old(registry)@
        }),
{
}

/// A mount keeps its authority over a wait if and only if its owner group and its epoch stayed
/// the same. Otherwise the caller is to refresh what it knows.
pub proof fn a_moved_mount_stops_a_publication(
    ctx: &RequestContext,
    operation: PublishOperation,
    before: &Authority,
    current: &Authority,
    r: Result<(), FsFailure>,
)
    requires
        call_ensures(check_mount_authority, (ctx, operation, before, current), r),
    ensures
        r is Ok <==> {
            &&& before.group_name is Some
            &&& current.group_name is Some
            &&& (before.group_name->0)@ == (current.group_name->0)@
            &&& before.mount_epoch == current.mount_epoch
        },
        r is Err ==> {
            &&& r->Err_0.error.kind == ErrorKind::Metadata(MetadataErrorKind::StaleState)
            &&& r->Err_0.error.recovery is RefreshMetadata
            &&& r->Err_0.mount_epoch == current.mount_epoch
            &&& r->Err_0.route_epoch == before.route_epoch
        },
{
}

// ---- answers ----

/// A sync that was published is answered with the size that was asked for and the generation
/// that it got. A failed one is told its error. Both name the owner group and the mount epoch
/// of the route.
pub proof fn a_published_sync_is_answered(
    ctx: &RequestContext,
    routed: &RoutedFsWriteCtx,
    route_epoch: Option<u64>,
    final_size: u64,
    published: Result<ContentGeneration, MetadataError>,
    leader_state: Option<RaftLogId>,
    r: Result<FsSuccess<SyncWriteOutput>, FsFailure>,
)
    requires
        call_ensures(
            answer_sync,
            (ctx, routed, route_epoch, final_size, published, leader_state),
            r,
        ),
    ensures
        r is Ok <==> published is Ok,
        r is Ok ==> {
            &&& r->Ok_0.payload.synced_size == final_size
            &&& r->Ok_0.payload.generation == Some(published->Ok_0)
            &&& r->Ok_0.group_name is Some && (r->Ok_0.group_name->0)@ == routed.group_name@
            &&& r->Ok_0.mount_epoch == Some(routed.mount_epoch)
            &&& r->Ok_0.route_epoch == route_epoch
        },
        r is Err ==> {
            &&& r->Err_0.error.message@ == (published->Err_0)@.text
            &&& r->Err_0.group_name is Some && (r->Err_0.group_name->0)@ == routed.group_name@
            &&& r->Err_0.mount_epoch == Some(routed.mount_epoch)
        },
{
}

/// A commit that was applied is answered with the size that was asked for. A failed one is told
/// its error. Both name the owner group and the mount epoch of the route.
pub proof fn an_applied_commit_is_answered(
    ctx: &RequestContext,
    routed: &RoutedFsWriteCtx,
    route_epoch: Option<u64>,
    final_size: u64,
    published: Result<ContentGeneration, MetadataError>,
    leader_state: Option<RaftLogId>,
    r: Result<FsSuccess<CloseWriteOutput>, FsFailure>,
)
    requires
        call_ensures(
            answer_commit,
            (ctx, routed, route_epoch, final_size, published, leader_state),
            r,
        ),
    ensures
        r is Ok <==> published is Ok,
        r is Ok ==> {
            &&& r->Ok_0.payload.committed_size == final_size
            &&& r->Ok_0.group_name is Some && (r->Ok_0.group_name->0)@ == routed.group_name@
            &&& r->Ok_0.mount_epoch == Some(routed.mount_epoch)
            &&& r->Ok_0.route_epoch == route_epoch
        },
        r is Err ==> {
            &&& r->Err_0.error.message@ == (published->Err_0)@.text
            &&& r->Err_0.group_name is Some && (r->Err_0.group_name->0)@ == routed.group_name@
            &&& r->Err_0.mount_epoch == Some(routed.mount_epoch)
        },
{
}

/// The session of a publication is the live one of its handle, for its own client only. Where
/// the inode has none there is none to be found, which is no failure.
pub proof fn publications_find_the_session_of_their_handle(
    registry: &mut SessionRegistry,
    ctx: &RequestContext,
    handle: WriteHandle,
    operation: PublishOperation,
    now_ms: u64,
    r: Result<Option<WriteSession>, FsFailure>,
)
    requires
        old(registry).wf(),
        call_ensures(active_publish_session, (registry, ctx, handle, operation, now_ms), r),
    ensures
        ({
            let key = handle.inode_id.0;
            let s = old(registry)@.entries[key]->Active_0;
            let live = old(registry)@.entries.contains_key(key) && old(registry)@.entries[key]
                is Active && old(registry)@.entries[key].retirement_at_ms() > now_ms;
            &&& !live ==> r == Ok::<Option<WriteSession>, FsFailure>(None)
            &&& live ==> (r is Ok <==> s.open_client_id == ctx.caller.client.client_id
                && s.lease_epoch == handle.lease_epoch)
            &&& live && r is Ok ==> r->Ok_0 is Some && (r->Ok_0->0)@ == s
            &&& r is Err ==> r->Err_0.error.kind == ErrorKind::Metadata(
                MetadataErrorKind::SessionInvalid,
            )
        }),
{
    tidying_drops_only_what_is_expired(
        old(registry)@,
        old(registry).limits(),
        handle.inode_id.0,
        now_ms,
    );
}

/// Looked at once more, a session is the caller's own, in the mode of the publication, still
/// owned by it, and as it was frozen.
pub proof fn a_session_is_as_it_was_frozen(
    registry: &mut SessionRegistry,
    ctx: &RequestContext,
    publication: &WritePublication,
    mode: PublishMode,
    operation: PublishOperation,
    now_ms: u64,
    session: WriteSession,
)
    requires
        old(registry).wf(),
        call_ensures(
            revalidate_publish_session,
            (registry, ctx, publication, mode, operation, now_ms),
            Ok(session),
        ),
    ensures
        ({
            let key = publication.session.inode_id.0;
            &&& old(registry)@.entries.contains_key(key)
            &&& old(registry)@.entries[key] == EntryView::Active(session@)
            &&& session.active_publication == Some(publication.publication_id)
            &&& session.lease_epoch == publication.session.lease_epoch
            &&& session.open_client_id == ctx.caller.client.client_id
            &&& mode == PublishMode::AppendIfUnchanged <==> session.mode == WriteMode::Append
            &&& mode == PublishMode::ReplaceIfUnchanged <==> session.mode == WriteMode::Overwrite
            &&& session.mount_id == publication.session.mount_id
            &&& session.base_size == publication.session.base_size
            &&& session.generation == publication.session.generation
            &&& now_ms < session.expires_at_ms
        }),
{
    let key = publication.session.inode_id.0;
    let limits = old(registry).limits();
    let t = old(registry)@.tidied(key, now_ms);
    tidying_drops_only_what_is_expired(old(registry)@, limits, key, now_ms);
    crate::session::model::lemma_tidied(old(registry)@, limits, key, now_ms);
    crate::session::laws::swept_keeps_what_is_live(
        t,
        limits,
        now_ms,
        crate::session::model::MAX_EXPIRED_SESSION_RETIREMENTS_PER_CALL as nat,
    );
    assert(old(registry)@.entry_wf(key, limits));
}

/// Readiness is asked for the blocks of a publication, one by one and in order, each with its
/// published length and under the epoch of the session. The stored file must have the
/// generation that the publication was made for.
pub proof fn readiness_is_asked_block_by_block(
    session: &WriteSession,
    blocks: &Vec<CommittedBlock>,
    expected_generation: ContentGeneration,
    read: InodeRead,
    targets: Vec<PublishReadyTarget>,
)
    requires
        call_ensures(
            publication_ready_targets,
            (session, blocks, expected_generation, read),
            Ok(targets),
        ),
    ensures
        read is Ok && read->Ok_0 is Some && (read->Ok_0->0).kind is File,
        (read->Ok_0->0).kind->File_0.generation == expected_generation,
        targets@.len() == blocks@.len(),
        forall|i: int|
            0 <= i < targets@.len() ==> {
                &&& (#[trigger] targets@[i]).target.block_id == blocks@[i].block_id
                &&& targets@[i].effective_len == blocks@[i].len
                &&& targets@[i].target.fencing_token.epoch == session.lease_epoch
            },
{
    crate::filesystem::committed::readiness_is_asked_for_every_block(session@, blocks@);
    let views = crate::filesystem::readiness::ready_target_views(targets@);
    assert(views.len() == targets@.len());
    assert forall|i: int| 0 <= i < targets@.len() implies {
        &&& (#[trigger] targets@[i]).target.block_id == blocks@[i].block_id
        &&& targets@[i].effective_len == blocks@[i].len
        &&& targets@[i].target.fencing_token.epoch == session.lease_epoch
    } by {
        assert(views[i] == targets@[i]@);
    }
}

// ---- what is owed ----

/// A commit of a free session begins: the caller owns the live session of its handle, nothing is
/// on the way, it saw the generation of the session, it asks in the mode of the session, and no
/// receipt says that it was made already.
pub proof fn a_fitting_commit_begins(
    registry: &mut SessionRegistry,
    ctx: &RequestContext,
    handle: WriteHandle,
    expected_generation: ContentGeneration,
    mode: PublishMode,
    read: InodeRead,
    receipt: ReceiptRead,
    now_ms: u64,
    r: Result<PublishStep, FsFailure>,
)
    requires
        old(registry).wf(),
        call_ensures(
            begin_commit,
            (registry, ctx, handle, expected_generation, mode, read, receipt, now_ms),
            r,
        ),
        ({
            let key = handle.inode_id.0;
            let s = old(registry)@.entries[key]->Active_0;
            &&& old(registry)@.entries.contains_key(key)
            &&& old(registry)@.entries[key].retirement_at_ms() > now_ms
            &&& old(registry)@.entries[key] is Active
            &&& s.lease_epoch == handle.lease_epoch
            &&& s.open_client_id == ctx.caller.client.client_id
            &&& s.pending_allocate_block is None
            &&& s.active_publication is None
            &&& s.generation == expected_generation
            &&& mode == PublishMode::AppendIfUnchanged <==> s.mode == WriteMode::Append
            &&& old(registry)@.next_publication_id < u64::MAX
            &&& read is Ok && read->Ok_0 is Some && (read->Ok_0->0).inode_id == handle.inode_id
            &&& receipt == Ok::<Option<ContentGeneration>, MetadataError>(None)
        }),
    ensures
        r is Ok,
        r->Ok_0 is Publish,
{
    let key = handle.inode_id.0;
    let limits = old(registry).limits();
    let t = old(registry)@.tidied(key, now_ms);
    crate::session::model::lemma_tidied(old(registry)@, limits, key, now_ms);
    tidying_drops_only_what_is_expired(old(registry)@, limits, key, now_ms);
    assert(t.entries.contains_key(key));
    tidying_drops_only_what_is_expired(t, limits, key, now_ms);
    assert(t.tidied(key, now_ms).entries.contains_key(key));
}

/// A sync of a free session begins, where the stored file does not show it yet.
pub proof fn a_fitting_sync_begins(
    registry: &mut SessionRegistry,
    ctx: &RequestContext,
    handle: WriteHandle,
    intent: &CloseWriteIntent,
    expected_generation: ContentGeneration,
    mode: PublishMode,
    read: InodeRead,
    now_ms: u64,
    r: Result<PublishStep, FsFailure>,
)
    requires
        old(registry).wf(),
        call_ensures(
            begin_sync,
            (registry, ctx, handle, intent, expected_generation, mode, read, Ok(false), now_ms),
            r,
        ),
        ({
            let key = handle.inode_id.0;
            let s = old(registry)@.entries[key]->Active_0;
            let file = (read->Ok_0->0).kind->File_0;
            &&& old(registry)@.entries.contains_key(key)
            &&& old(registry)@.entries[key].retirement_at_ms() > now_ms
            &&& old(registry)@.entries[key] is Active
            &&& s.lease_epoch == handle.lease_epoch
            &&& s.open_client_id == ctx.caller.client.client_id
            &&& s.pending_allocate_block is None
            &&& s.active_publication is None
            &&& s.generation == expected_generation
            &&& mode == PublishMode::AppendIfUnchanged <==> s.mode == WriteMode::Append
            &&& old(registry)@.next_publication_id < u64::MAX
            &&& read is Ok && read->Ok_0 is Some && (read->Ok_0->0).inode_id == handle.inode_id
            &&& (read->Ok_0->0).kind is File
            &&& crate::inode::file_error(file, handle.inode_id) is None
            &&& file.lease_epoch == handle.lease_epoch
            &&& file.generation == expected_generation
        }),
    ensures
        r is Ok,
        r->Ok_0 is Publish,
{
    let key = handle.inode_id.0;
    let limits = old(registry).limits();
    let t = old(registry)@.tidied(key, now_ms);
    crate::session::model::lemma_tidied(old(registry)@, limits, key, now_ms);
    tidying_drops_only_what_is_expired(old(registry)@, limits, key, now_ms);
    assert(t.entries.contains_key(key));
    tidying_drops_only_what_is_expired(t, limits, key, now_ms);
    assert(t.tidied(key, now_ms).entries.contains_key(key));
}

/// A publication that was validated is proposed, while it owns its session as it was frozen, its
/// lease is valid, every target is ready, a route was found, and time is left.
pub proof fn a_ready_publication_is_proposed(
    registry: &mut SessionRegistry,
    ctx: &RequestContext,
    authority: &Authority,
    operation: PublishOperation,
    handle: WriteHandle,
    valid: ValidPublication,
    has_workers: bool,
    status: PublishReadyStatus,
    routed: Result<RoutedFsWriteCtx, FsFailure>,
    now_ms: u64,
    r: Result<Proposal, FsFailure>,
)
    requires
        old(registry).wf(),
        call_ensures(
            prepare_proposal,
            (
                registry,
                ctx,
                authority,
                operation,
                handle,
                valid,
                has_workers,
                status,
                routed,
                now_ms,
            ),
            r,
        ),
        ({
            let frozen = valid.publication.session;
            let key = frozen.inode_id.0;
            let s = old(registry)@.entries[key]->Active_0;
            &&& old(registry)@.entries.contains_key(key)
            &&& old(registry)@.entries[key] is Active
            &&& now_ms < s.expires_at_ms
            &&& s.lease_epoch == frozen.lease_epoch
            &&& s.active_publication == Some(valid.publication.publication_id)
            &&& s.open_client_id == ctx.caller.client.client_id
            &&& valid.payload.mode == PublishMode::AppendIfUnchanged <==> s.mode
                == WriteMode::Append
            &&& s.mount_id == frozen.mount_id
            &&& s.base_size == frozen.base_size
            &&& s.generation == frozen.generation
        }),
        valid.targets@.len() == 0 || (has_workers && status == PublishReadyStatus::Ready),
        routed is Ok,
        (now_ms as int) < ctx.caller.deadline.0,
    ensures
        r is Ok,
{
    let key = valid.publication.session.inode_id.0;
    let limits = old(registry).limits();
    let t = old(registry)@.tidied(key, now_ms);
    assert(old(registry)@.entry_wf(key, limits));
    tidying_drops_only_what_is_expired(old(registry)@, limits, key, now_ms);
    crate::session::model::lemma_tidied(old(registry)@, limits, key, now_ms);
    assert(t.entries.contains_key(key));
    crate::session::laws::swept_keeps_what_is_live(
        t,
        limits,
        now_ms,
        crate::session::model::MAX_EXPIRED_SESSION_RETIREMENTS_PER_CALL as nat,
    );
}

/// A publication that is not proposed says why: a session that is not its own any more, a lease
/// that has expired, workers that are not ready, no route, or no time.
pub proof fn an_unproposed_publication_says_why(
    registry: &mut SessionRegistry,
    ctx: &RequestContext,
    authority: &Authority,
    operation: PublishOperation,
    handle: WriteHandle,
    valid: ValidPublication,
    has_workers: bool,
    status: PublishReadyStatus,
    routed: Result<RoutedFsWriteCtx, FsFailure>,
    now_ms: u64,
    r: Result<Proposal, FsFailure>,
)
    requires
        old(registry).wf(),
        call_ensures(
            prepare_proposal,
            (
                registry,
                ctx,
                authority,
                operation,
                handle,
                valid,
                has_workers,
                status,
                routed,
                now_ms,
            ),
            r,
        ),
    ensures
        ({
            let frozen = valid.publication.session;
            let key = frozen.inode_id.0;
            let s = old(registry)@.entries[key]->Active_0;
            let owned = old(registry)@.entries.contains_key(key) && old(registry)@.entries[key]
                is Active && old(registry)@.entries[key].retirement_at_ms() > now_ms
                && s.lease_epoch == frozen.lease_epoch && s.active_publication == Some(
                valid.publication.publication_id,
            );
            &&& !owned ==> {
                &&& r is Err
                &&& r->Err_0.error.kind == ErrorKind::Metadata(MetadataErrorKind::SessionInvalid)
                &&& r->Err_0.error.recovery is ReopenWriteSession
            }
            &&& owned && s.open_client_id != ctx.caller.client.client_id ==> {
                &&& r is Err
                &&& r->Err_0.error.kind == ErrorKind::Metadata(MetadataErrorKind::SessionInvalid)
            }
            &&& owned && s.generation != frozen.generation ==> {
                &&& r is Err
                &&& r->Err_0.error.kind == ErrorKind::Metadata(MetadataErrorKind::SessionInvalid)
            }
            &&& valid.targets@.len() > 0 && !(has_workers && status == PublishReadyStatus::Ready)
                ==> r is Err
            &&& routed is Err ==> r is Err
            &&& now_ms >= ctx.caller.deadline.0 ==> r is Err
        }),
{
    let key = valid.publication.session.inode_id.0;
    let limits = old(registry).limits();
    let t = old(registry)@.tidied(key, now_ms);
    tidying_drops_only_what_is_expired(old(registry)@, limits, key, now_ms);
    crate::session::model::lemma_tidied(old(registry)@, limits, key, now_ms);
    crate::session::laws::swept_keeps_what_is_live(
        t,
        limits,
        now_ms,
        crate::session::model::MAX_EXPIRED_SESSION_RETIREMENTS_PER_CALL as nat,
    );
    if old(registry)@.entries.contains_key(key) {
        assert(old(registry)@.entry_wf(key, limits));
    }
}

/// A frozen publication is valid, where its handle has the epoch of its session, the lease is
/// valid, its blocks fit, the owner group is known, the stored file has the generation that it
/// was made for, and its targets were issued under its epoch.
pub proof fn a_fitting_publication_is_valid(
    registry: &mut SessionRegistry,
    ctx: &RequestContext,
    authority: &Authority,
    operation: PublishOperation,
    handle: WriteHandle,
    intent: &CloseWriteIntent,
    expected_generation: ContentGeneration,
    mode: PublishMode,
    publication: WritePublication,
    read: InodeRead,
    now_ms: u64,
    r: Result<ValidPublication, FsFailure>,
)
    requires
        old(registry).wf(),
        call_ensures(
            validate_publication,
            (
                registry,
                ctx,
                authority,
                operation,
                handle,
                intent,
                expected_generation,
                mode,
                publication,
                read,
                now_ms,
            ),
            r,
        ),
        handle.lease_epoch == publication.session.lease_epoch,
        ({
            let key = publication.session.inode_id.0;
            let s = old(registry)@.entries[key]->Active_0;
            &&& old(registry)@.entries.contains_key(key)
            &&& old(registry)@.entries[key] is Active
            &&& now_ms < s.expires_at_ms
            &&& s.lease_epoch == handle.lease_epoch
        }),
        committed_error(*intent, publication.session@) is None,
        authority.group_name is Some,
        read is Ok && read->Ok_0 is Some && (read->Ok_0->0).kind is File,
        (read->Ok_0->0).kind->File_0.generation == expected_generation,
        forall|k: int|
            0 <= k < publication.session@.issued_targets.len() ==> (
            #[trigger] publication.session@.issued_targets[k]).fencing_token.epoch
                == publication.session.lease_epoch,
    ensures
        r is Ok,
{
    let key = publication.session.inode_id.0;
    let limits = old(registry).limits();
    let session = publication.session@;
    let blocks = intent.committed_blocks@;
    crate::session::laws::swept_keeps_what_is_live(
        old(registry)@,
        limits,
        now_ms,
        crate::session::model::MAX_EXPIRED_SESSION_RETIREMENTS_PER_CALL as nat,
    );
    assert(old(registry)@.entry_wf(key, limits));
    crate::filesystem::committed::valid_blocks_can_be_asked_for(*intent, session);
    crate::filesystem::publish::lemma_own_blocks(*intent, session);
}

/// A publication that is not valid says why: a handle of another epoch is not its session's, a
/// lease may have expired, and contents that do not fit are not valid.
pub proof fn an_invalid_publication_says_why(
    registry: &mut SessionRegistry,
    ctx: &RequestContext,
    authority: &Authority,
    handle: WriteHandle,
    intent: &CloseWriteIntent,
    expected_generation: ContentGeneration,
    mode: PublishMode,
    publication: WritePublication,
    read: InodeRead,
    now_ms: u64,
    r: Result<ValidPublication, FsFailure>,
)
    requires
        old(registry).wf(),
        call_ensures(
            validate_publication,
            (
                registry,
                ctx,
                authority,
                PublishOperation::CommitFile,
                handle,
                intent,
                expected_generation,
                mode,
                publication,
                read,
                now_ms,
            ),
            r,
        ),
    ensures
        ({
            let key = publication.session.inode_id.0;
            let s = old(registry)@.entries[key]->Active_0;
            let leased = old(registry)@.entries.contains_key(key) && old(registry)@.entries[key]
                is Active && now_ms < s.expires_at_ms && s.lease_epoch == handle.lease_epoch;
            &&& handle.lease_epoch != publication.session.lease_epoch ==> {
                &&& r is Err
                &&& r->Err_0.error.kind == ErrorKind::Metadata(MetadataErrorKind::SessionInvalid)
            }
            &&& handle.lease_epoch == publication.session.lease_epoch && !leased ==> {
                &&& r is Err
                &&& r->Err_0.error.kind == ErrorKind::Metadata(MetadataErrorKind::SessionExpired)
            }
            &&& handle.lease_epoch == publication.session.lease_epoch && leased
                && committed_error(*intent, publication.session@) is Some ==> {
                &&& r is Err
                &&& r->Err_0.error.kind == ErrorKind::Protocol(
                    ProtocolErrorKind::InvalidArgument,
                )
            }
        }),
{
    let key = publication.session.inode_id.0;
    crate::session::laws::swept_keeps_what_is_live(
        old(registry)@,
        old(registry).limits(),
        now_ms,
        crate::session::model::MAX_EXPIRED_SESSION_RETIREMENTS_PER_CALL as nat,
    );
}

/// Each refusal to begin a publication has its kind: a session that is gone asks to open again,
/// a step or a publication on the way asks to try again.
pub proof fn publication_refusals_are_told_apart(
    ctx: RequestContextView,
    inode: InodeId,
    operation: PublishOperation,
    error: BeginWritePublicationError,
)
    ensures
        ({
            let told = publication_refusal(ctx, inode, operation, error).error;
            match error {
                BeginWritePublicationError::Session(_) => told.kind == ErrorKind::Metadata(
                    MetadataErrorKind::SessionInvalid,
                ) && told.recovery is ReopenWriteSession,
                BeginWritePublicationError::AllocateBlockPending => told.kind
                    == ErrorKind::Metadata(MetadataErrorKind::Conflict) && told.recovery is Retry,
                BeginWritePublicationError::PublicationInProgress => told.kind
                    == ErrorKind::Metadata(MetadataErrorKind::Conflict) && told.recovery is Retry,
                BeginWritePublicationError::PublicationIdExhausted => told.kind
                    == ErrorKind::Internal(InternalErrorKind::Internal) && told.recovery is Fail,
            }
        }),
{
}

/// A sync that conflicts with the stored file says how: a later writer has fenced it, or the
/// contents have changed.
pub proof fn a_conflicting_sync_says_how(
    handle: WriteHandle,
    names_no_block: bool,
    expected_generation: ContentGeneration,
    stored: Inode,
    matches: bool,
    r: Result<Option<SyncedState>, MetadataError>,
)
    requires
        call_ensures(
            resolve_synced_state,
            (handle, names_no_block, expected_generation, Ok(Some(stored)), Ok(matches)),
            r,
        ),
        stored.inode_id == handle.inode_id,
        stored.kind is File,
        crate::inode::file_error(stored.kind->File_0, handle.inode_id) is None,
    ensures
        ({
            let file = stored.kind->File_0;
            let fenced = file.lease_epoch != handle.lease_epoch && file.lease_epoch.0
                != handle.lease_epoch.0 + 1;
            let next = file.generation.0 == expected_generation.0 + 1;
            &&& fenced ==> r is Err && r->Err_0 is LeaseFenced
            &&& !fenced && file.generation != expected_generation && !(next && matches) ==> r is Err
                && r->Err_0 is Again
            &&& !fenced && next && matches ==> r is Ok && r->Ok_0 is Some
            &&& !fenced && file.generation == expected_generation ==> r is Ok
        }),
{
}

/// A sync that is visible already is answered from the stored file of its handle. Where the
/// caller still has its session, that is frozen until the answer: it is the caller's own, and
/// stands at the generation that the caller saw or at the stored one.
pub proof fn a_visible_sync_freezes_its_own_session(
    registry: &mut SessionRegistry,
    ctx: &RequestContext,
    handle: WriteHandle,
    intent: &CloseWriteIntent,
    expected_generation: ContentGeneration,
    mode: PublishMode,
    read: InodeRead,
    matches: VisibleMatch,
    now_ms: u64,
    state: SyncedState,
    publication: Option<WritePublication>,
)
    requires
        old(registry).wf(),
        call_ensures(
            begin_sync,
            (registry, ctx, handle, intent, expected_generation, mode, read, matches, now_ms),
            Ok(PublishStep::Visible(state, publication)),
        ),
    ensures
        read is Ok && read->Ok_0 is Some && (read->Ok_0->0).kind is File,
        (read->Ok_0->0).inode_id == handle.inode_id,
        matches == Ok::<bool, MetadataError>(true),
        state.generation == (read->Ok_0->0).kind->File_0.generation,
        state.mount_id == (read->Ok_0->0).mount_id,
        state.generation.0 == expected_generation.0 + 1 || (state.generation
            == expected_generation && intent.committed_blocks@.len() == 0),
        publication is Some ==> {
            let frozen = (publication->0).session;
            &&& frozen.inode_id == handle.inode_id
            &&& frozen.lease_epoch == handle.lease_epoch
            &&& frozen.open_client_id == ctx.caller.client.client_id
            &&& frozen.generation == expected_generation || frozen.generation == state.generation
            &&& !(publication->0).submitted
        },
        publication is None ==> !(final(registry)@.entries.contains_key(handle.inode_id.0)
            && final(registry)@.entries[handle.inode_id.0] is Active),
{
    let key = handle.inode_id.0;
    let limits = old(registry).limits();
    let t = old(registry)@.tidied(key, now_ms);
    crate::session::model::lemma_tidied(old(registry)@, limits, key, now_ms);
    tidying_drops_only_what_is_expired(t, limits, key, now_ms);
    let again = t.tidied(key, now_ms);
    assert(again.entries.contains_key(key) ==> t.entry_wf(key, limits));
}

/// A visible sync that is answered brings its session up to what is stored: the session appends
/// behind the size that is told, at the stored generation, and is free again.
pub proof fn a_visible_sync_moves_its_session_on(
    registry: &mut SessionRegistry,
    ctx: &RequestContext,
    authority: &Authority,
    state: SyncedState,
    publication: WritePublication,
    final_size: u64,
    now_ms: u64,
    output: SyncWriteOutput,
)
    requires
        old(registry).wf(),
        call_ensures(
            finish_visible_sync,
            (registry, ctx, authority, state, Some(publication), final_size, now_ms),
            Ok(output),
        ),
    ensures
        ({
            let key = publication.session.inode_id.0;
            let after = final(registry)@.entries[key]->Active_0;
            &&& final(registry)@.entries.contains_key(key)
            &&& final(registry)@.entries[key] is Active
            &&& after.generation == state.generation
            &&& after.base_size == final_size
            &&& after.mode == WriteMode::Append
            &&& after.active_publication is None
            &&& !after.publication_submitted
        }),
{
    let key = publication.session.inode_id.0;
    tidying_drops_only_what_is_expired(
        old(registry)@,
        old(registry).limits(),
        key,
        now_ms,
    );
    if old(registry)@.entries.contains_key(key) {
        assert(old(registry)@.entry_wf(key, old(registry).limits()));
    }
}

} // verus!
