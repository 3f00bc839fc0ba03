//! What each operation of the session registry does to the sessions, entry by entry.

use vstd::prelude::*;

use crate::config::MAX_PATH_COMPONENTS;
use crate::fs::{ContentGeneration, WriteMode};
use crate::ids::{BlockId, ClientId, InodeId};
use crate::inode::FileData;
use crate::layout::{FileLayout, DURABLE_PREFIX_STORAGE_CHUNK_SIZE, MAX_BLOCK_SIZE};
use crate::lease::LeaseEpoch;
use crate::location::{located_views, LocatedBlock};
use crate::session::index::CreateFileOperationId;
use crate::session::laws::{
    a_sweep_uses_its_budget, lemma_offsets_increase, swept_keeps_what_is_live,
};
use crate::session::model::{
    client_weight, create_client_weight, find_step, lemma_find_step, lemma_retained_targets,
    lemma_without_entry, opening_weight, owned_weight, pending_weight, retained_targets,
    RegistryView, WriteOpening, MAX_EXPIRED_SESSION_RETIREMENTS_PER_CALL,
};
use crate::session::registry::{BeginAllocateBlock, SessionRegistry, WritePublication};
use crate::session::total::total_insert;
use crate::session::types::{
    validate_ancestor_chain, validate_parent_ancestor_chain, AncestorChainError,
    BeginAllocateBlockError, BeginCreateSessionError, BeginCreateSessionInput, BeginSessionError,
    BeginSessionInput, BeginWritePublicationError, CompleteWriteTargetError, CreateOpeningView,
    EntryView, InvalidTarget, ParentChainError, PendingAllocateBlock, PublicationError,
    RegistryLimits, WriteOpeningError, WriteOpeningId, WritePublicationId, WriteSession,
    WriteSessionError, WriteSessionIdentity, WriteSessionLimit, WriteSessionView, WriteTargetLimit,
};

verus! {

// ---- time ----

/// An opening and a session without a submitted publication may be retired from their expiry
/// on. A submitted publication keeps its session until the end of time.
pub proof fn entries_retire_at_their_expiry(entry: EntryView, now_ms: u64)
    requires
        now_ms < u64::MAX,
    ensures
        match entry {
            EntryView::Opening(o) => entry.retirement_at_ms() <= now_ms <==> o.expires_at_ms
                <= now_ms,
            EntryView::Active(s) => entry.retirement_at_ms() <= now_ms <==> s.expires_at_ms
                <= now_ms && !s.publication_submitted,
        },
{
}

/// What looking at one inode and sweeping leaves was there before and is as it was, and what
/// is not expired stays. Of the inode itself nothing expired is left.
pub proof fn tidying_drops_only_what_is_expired(
    v: RegistryView,
    limits: RegistryLimits,
    key: u64,
    now_ms: u64,
)
    requires
        v.wf(limits),
    ensures
        ({
            let t = v.tidied(key, now_ms);
            &&& forall|k: u64| #[trigger]
                t.entries.contains_key(k) ==> v.entries.contains_key(k) && t.entries[k]
                    == v.entries[k]
            &&& forall|k: u64| #[trigger]
                v.entries.contains_key(k) && v.entries[k].retirement_at_ms() > now_ms
                    ==> t.entries.contains_key(k)
            &&& forall|op: CreateFileOperationId| #[trigger]
                t.creates.contains_key(op) ==> v.creates.contains_key(op) && t.creates[op]
                    == v.creates[op]
            &&& forall|op: CreateFileOperationId| #[trigger]
                v.creates.contains_key(op) && v.creates[op].expires_at_ms > now_ms
                    ==> t.creates.contains_key(op)
            &&& t.entries.contains_key(key) ==> t.entries[key].retirement_at_ms() > now_ms
            &&& t.next_opening_id == v.next_opening_id
            &&& t.next_publication_id == v.next_publication_id
        }),
{
    lemma_without_entry(v, limits, key);
    swept_keeps_what_is_live(
        v.retire_inode(key, now_ms),
        limits,
        now_ms,
        MAX_EXPIRED_SESSION_RETIREMENTS_PER_CALL as nat,
    );
    let t = v.tidied(key, now_ms);
    let retired = v.retire_inode(key, now_ms);
    assert forall|k: u64| #[trigger]
        v.entries.contains_key(k) && v.entries[k].retirement_at_ms()
            > now_ms implies t.entries.contains_key(k) by {
        assert(retired.entries.contains_key(k));
    }
    if t.entries.contains_key(key) {
        assert(retired.entries.contains_key(key));
    }
}

/// An inode has a writer if and only if it stands on the captured path of an opening or of a
/// session that has not expired, of a session with a submitted publication, or of a pending
/// create that has not expired.
pub proof fn a_writer_is_a_live_session_below(v: RegistryView, inode: InodeId, now_ms: u64)
    requires
        now_ms < u64::MAX,
    ensures
        v.writes_under(inode, now_ms) <==> {
            ||| exists|k: u64|
                {
                    let o = v.entries[k]->Opening_0;
                    &&& #[trigger] v.entries.contains_key(k)
                    &&& v.entries[k] is Opening
                    &&& o.ancestor_inode_ids.contains(inode)
                    &&& now_ms < o.expires_at_ms
                }
            ||| exists|k: u64|
                {
                    let s = v.entries[k]->Active_0;
                    &&& #[trigger] v.entries.contains_key(k)
                    &&& v.entries[k] is Active
                    &&& s.ancestor_inode_ids.contains(inode)
                    &&& now_ms < s.expires_at_ms || s.publication_submitted
                }
            ||| exists|op: CreateFileOperationId|
                {
                    &&& #[trigger] v.creates.contains_key(op)
                    &&& v.creates[op].parent_ancestor_inode_ids.contains(inode)
                    &&& now_ms < v.creates[op].expires_at_ms
                }
        },
{
    if v.writes_under(inode, now_ms) {
        if exists|k: u64| #[trigger]
            v.entries.contains_key(k) && v.entries[k].ancestors().contains(inode)
                && v.entries[k].retirement_at_ms() > now_ms {
            let k = choose|k: u64| #[trigger]
                v.entries.contains_key(k) && v.entries[k].ancestors().contains(inode)
                    && v.entries[k].retirement_at_ms() > now_ms;
            assert(v.entries.contains_key(k));
        }
    }
}

/// The registry answers that an inode has a writer if and only if one lives at or below it.
pub proof fn live_writers_are_found(
    registry: &mut SessionRegistry,
    again: &mut SessionRegistry,
    inode_id: InodeId,
    now_ms: u64,
    below: bool,
    own: bool,
)
    requires
        call_ensures(SessionRegistry::has_active_write_under, (registry, inode_id, now_ms), below),
        call_ensures(SessionRegistry::has_active_write, (again, inode_id, now_ms), own),
    ensures
        below == old(registry)@.writes_under(inode_id, now_ms),
        own == old(again)@.writes_under(inode_id, now_ms),
{
}

// ---- opening ----

/// An opening that is admitted holds its inode and its path alone: it takes the epoch behind
/// the stored one, expires after the lifetime of a session, and stands for what was asked for.
/// No live session of the inode and no pending create of the path was there before.
pub proof fn an_admitted_opening_is_what_was_asked_for(
    registry: &mut SessionRegistry,
    input: BeginSessionInput,
    now_ms: u64,
    opening: WriteOpening,
)
    requires
        old(registry).wf(),
        call_ensures(SessionRegistry::begin_session_at, (registry, input, now_ms), Ok(opening)),
    ensures
        opening.inode_id == input.inode_id,
        opening.proposed_lease_epoch.0 == input.current_lease_epoch.0 + 1,
        opening.opening_id.0 == old(registry)@.next_opening_id,
        final(registry)@.next_opening_id == old(registry)@.next_opening_id + 1,
        old(registry)@.entries.contains_key(input.inode_id.0) ==> old(
            registry,
        )@.entries[input.inode_id.0].retirement_at_ms() <= now_ms,
        forall|op: CreateFileOperationId| #[trigger]
            old(registry)@.creates.contains_key(op) && old(registry)@.creates[op].expires_at_ms
                > now_ms ==> !(old(registry)@.creates[op].mount_id == input.mount_id && old(
                registry,
            )@.creates[op].normalized_path == input.normalized_path@),
        ({
            let held = final(registry)@.entries[input.inode_id.0]->Opening_0;
            &&& final(registry)@.entries.contains_key(input.inode_id.0)
            &&& final(registry)@.entries[input.inode_id.0] is Opening
            &&& held.opening_id == opening.opening_id
            &&& held.inode_id == input.inode_id
            &&& held.mount_id == input.mount_id
            &&& held.proposed_lease_epoch == opening.proposed_lease_epoch
            &&& held.mode == input.mode
            &&& held.open_client_id == input.open_client_id
            &&& held.layout == input.layout
            &&& held.ancestor_inode_ids == input.ancestor_inode_ids@
            &&& held.expires_at_ms == if now_ms + old(registry).limits().session_ttl_ms
                > u64::MAX {
                u64::MAX as int
            } else {
                now_ms + old(registry).limits().session_ttl_ms
            }
        }),
        forall|k: u64| #[trigger]
            final(registry)@.entries.contains_key(k) && k != input.inode_id.0 ==> old(
                registry,
            )@.entries.contains_key(k) && final(registry)@.entries[k] == old(
                registry,
            )@.entries[k],
{
    tidying_drops_only_what_is_expired(
        old(registry)@,
        old(registry).limits(),
        input.inode_id.0,
        now_ms,
    );
}

/// An opening is refused as busy exactly where its inode has a live entry, or a pending create
/// holds its path, after what is expired was retired. The path must lead to the inode.
pub proof fn openings_are_refused_for_a_reason(
    registry: &mut SessionRegistry,
    input: BeginSessionInput,
    now_ms: u64,
    r: Result<WriteOpening, BeginSessionError>,
)
    requires
        old(registry).wf(),
        call_ensures(SessionRegistry::begin_session_at, (registry, input, now_ms), r),
    ensures
        old(registry)@.entries.contains_key(input.inode_id.0) && old(
            registry,
        )@.entries[input.inode_id.0].retirement_at_ms() > now_ms ==> r is Err,
        r matches Err(BeginSessionError::Busy) ==> {
            ||| final(registry)@.entries.contains_key(input.inode_id.0)
            ||| exists|op: CreateFileOperationId|
                {
                    &&& #[trigger] final(registry)@.creates.contains_key(op)
                    &&& final(registry)@.creates[op].mount_id == input.mount_id
                    &&& final(registry)@.creates[op].normalized_path == input.normalized_path@
                }
        },
        r matches Err(BeginSessionError::LimitExceeded(e)) ==> match e.limit {
            WriteSessionLimit::Global => {
                &&& e.maximum == old(registry).limits().max_sessions
                &&& final(registry)@.entries.dom().len() + final(registry)@.creates.dom().len()
                    >= e.maximum
            },
            WriteSessionLimit::PerClient => {
                &&& e.maximum == old(registry).limits().max_sessions_per_client
                &&& final(registry)@.client_occupied(input.open_client_id) >= e.maximum
            },
        },
        r matches Err(BeginSessionError::LeaseEpochExhausted) ==> input.current_lease_epoch.0
            == u64::MAX,
        r matches Err(BeginSessionError::OpeningIdExhausted) ==> old(
            registry,
        )@.next_opening_id == u64::MAX,
        r matches Err(BeginSessionError::InvalidAncestorChain) ==> {
            ||| input.ancestor_inode_ids@.len() == 0
            ||| input.ancestor_inode_ids@.len() > MAX_PATH_COMPONENTS + 1
            ||| input.ancestor_inode_ids@.last() != input.inode_id
            ||| !input.ancestor_inode_ids@.no_duplicates()
        },
        r is Ok ==> {
            &&& input.ancestor_inode_ids@.len() > 0
            &&& input.ancestor_inode_ids@.len() <= MAX_PATH_COMPONENTS + 1
            &&& input.ancestor_inode_ids@.last() == input.inode_id
            &&& input.ancestor_inode_ids@.no_duplicates()
        },
{
    tidying_drops_only_what_is_expired(
        old(registry)@,
        old(registry).limits(),
        input.inode_id.0,
        now_ms,
    );
}

/// An opening becomes a session only while it is held and not expired, under the epoch that it
/// proposed, for a file with its layout. The session begins at the visible end of the file,
/// with its generation, and with the tail as its only target.
pub proof fn an_activated_opening_is_the_session_of_its_file(
    registry: &mut SessionRegistry,
    inode_id: InodeId,
    opening_id: WriteOpeningId,
    returned: LeaseEpoch,
    now_ms: u64,
    file: &FileData,
    tail: Option<LocatedBlock>,
    session: WriteSession,
)
    requires
        call_ensures(
            SessionRegistry::activate_opening,
            (registry, inode_id, opening_id, returned, now_ms, file, tail),
            Ok(session),
        ),
    ensures
        ({
            let held = old(registry)@.entries[inode_id.0]->Opening_0;
            &&& old(registry)@.entries.contains_key(inode_id.0)
            &&& old(registry)@.entries[inode_id.0] is Opening
            &&& held.opening_id == opening_id
            &&& now_ms < held.expires_at_ms
            &&& held.proposed_lease_epoch == returned
            &&& file.lease_epoch == returned
            &&& file.layout == held.layout
            &&& session.inode_id == held.inode_id
            &&& session.mount_id == held.mount_id
            &&& session.lease_epoch == returned
            &&& session.base_size == file.len
            &&& session.generation == file.generation
            &&& session.mode == held.mode
            &&& session.open_client_id == held.open_client_id
            &&& session.layout == held.layout
            &&& session.expires_at_ms == held.expires_at_ms
            &&& session.ancestor_inode_ids@ == held.ancestor_inode_ids
            &&& session.issued_targets@.len() == (if tail is Some {
                1nat
            } else {
                0nat
            })
            &&& tail is Some ==> session.issued_targets@[0]@ == (tail->0)@
            &&& session.issued_steps@.len() == 0
            &&& session.pending_allocate_block is None
            &&& session.active_publication is None
            &&& !session.publication_submitted
            &&& session.create_replay is None
        }),
        final(registry)@.entries == old(registry)@.entries.insert(
            inode_id.0,
            EntryView::Active(session@),
        ),
        final(registry)@.creates == old(registry)@.creates,
{
    let views = located_views(session.issued_targets@);
    assert(views.len() == session.issued_targets@.len());
    if tail is Some {
        assert(views[0] == session.issued_targets@[0]@);
    }
}

/// A create is refused only for a reason: the same operation is still pending, its identity
/// stands for another request, another operation holds its path, or capacity is used up.
pub proof fn creates_are_refused_for_a_reason(
    registry: &mut SessionRegistry,
    input: BeginCreateSessionInput,
    now_ms: u64,
    error: BeginCreateSessionError,
)
    requires
        call_ensures(
            SessionRegistry::begin_create_session_at,
            (registry, input, now_ms),
            Err(error),
        ),
    ensures
        ({
            let op = input.operation_id;
            let after = final(registry)@;
            let pending = after.creates[op];
            match error {
                BeginCreateSessionError::Pending => {
                    &&& after.creates.contains_key(op)
                    &&& pending.normalized_path == input.normalized_path@
                    &&& pending.mount_id == input.mount_id
                    &&& pending.request_deadline_ms == input.request_deadline_ms
                    &&& pending.expected_mount_epoch == input.expected_mount_epoch
                    &&& pending.mount_root_inode_id == input.mount_root_inode_id
                },
                BeginCreateSessionError::IdentityMismatch => {
                    ||| op.client_id != input.open_client_id
                    ||| after.creates.contains_key(op) && !(pending.normalized_path
                        == input.normalized_path@ && pending.mount_id == input.mount_id
                        && pending.request_deadline_ms == input.request_deadline_ms
                        && pending.expected_mount_epoch == input.expected_mount_epoch
                        && pending.mount_root_inode_id == input.mount_root_inode_id)
                    ||| exists|k: u64|
                        {
                            let replay = after.entries[k]->Active_0.create_replay->0;
                            &&& #[trigger] after.entries.contains_key(k)
                            &&& after.entries[k] is Active
                            &&& after.entries[k]->Active_0.create_replay is Some
                            &&& replay.operation_id == op
                            &&& !(replay.normalized_path == input.normalized_path@
                                && replay.mount_id == input.mount_id && replay.request_deadline_ms
                                == input.request_deadline_ms && replay.expected_mount_epoch
                                == input.expected_mount_epoch && replay.mount_root_inode_id
                                == input.mount_root_inode_id)
                        }
                },
                BeginCreateSessionError::PathBusy => exists|other: CreateFileOperationId|
                    {
                        &&& #[trigger] after.creates.contains_key(other)
                        &&& other != op
                        &&& after.creates[other].mount_id == input.mount_id
                        &&& after.creates[other].normalized_path == input.normalized_path@
                    },
                BeginCreateSessionError::LimitExceeded(e) => match e.limit {
                    WriteSessionLimit::Global => {
                        &&& e.maximum == old(registry).limits().max_sessions
                        &&& after.entries.dom().len() + after.creates.dom().len() >= e.maximum
                    },
                    WriteSessionLimit::PerClient => {
                        &&& e.maximum == old(registry).limits().max_sessions_per_client
                        &&& after.client_occupied(input.open_client_id) >= e.maximum
                    },
                },
                BeginCreateSessionError::OpeningIdExhausted => after.next_opening_id == u64::MAX,
                BeginCreateSessionError::InvalidAncestorChain => {
                    let chain = input.parent_ancestor_inode_ids@;
                    ||| chain.len() == 0
                    ||| chain.len() > MAX_PATH_COMPONENTS
                    ||| !chain.no_duplicates()
                },
            }
        }),
{
    let op = input.operation_id;
    let after = final(registry)@;
    if error == BeginCreateSessionError::IdentityMismatch && op.client_id == input.open_client_id
        && after.is_replayable(op) {
        let k = choose|k: u64| after.replays(op, k);
        assert(after.entries.contains_key(k));
    }
}

/// Giving an opening or a create up removes that very one, and no other.
pub proof fn what_is_given_up_is_removed(
    opened: &mut SessionRegistry,
    created: &mut SessionRegistry,
    inode_id: InodeId,
    operation_id: CreateFileOperationId,
    opening_id: WriteOpeningId,
)
    requires
        call_ensures(SessionRegistry::cancel_opening, (opened, inode_id, opening_id), ()),
        call_ensures(
            SessionRegistry::cancel_create_opening,
            (created, operation_id, opening_id),
            (),
        ),
    ensures
        ({
            let held = old(opened)@.entries.contains_key(inode_id.0) && old(
                opened,
            )@.entries[inode_id.0] is Opening && old(
                opened,
            )@.entries[inode_id.0]->Opening_0.opening_id == opening_id;
            let pending = old(created)@.creates.contains_key(operation_id) && old(
                created,
            )@.creates[operation_id].opening_id == opening_id;
            &&& held ==> final(opened)@.entries == old(opened)@.entries.remove(inode_id.0)
            &&& held ==> final(opened)@.creates == old(opened)@.creates
            &&& !held ==> final(opened)@ == old(opened)@
            &&& pending ==> final(created)@.creates == old(created)@.creates.remove(operation_id)
            &&& pending ==> final(created)@.entries == old(created)@.entries
            &&& !pending ==> final(created)@ == old(created)@
        }),
{
}

// ---- allocation ----

/// Capacity for a block is reserved only in the live session of the presented epoch, behind the
/// last block that was issued, with no other step and no publication on the way. The block
/// goes behind the last target; the first one goes to the beginning of the file where the
/// session overwrites it, and to its visible end where it appends.
pub proof fn a_reserved_block_goes_behind_the_last_one(
    registry: &mut SessionRegistry,
    inode_id: InodeId,
    lease_epoch: LeaseEpoch,
    previous: Option<BlockId>,
    now_ms: u64,
    begun: BeginAllocateBlock,
)
    requires
        old(registry).wf(),
        call_ensures(
            SessionRegistry::begin_allocate_block,
            (registry, inode_id, lease_epoch, previous, now_ms),
            Ok(begun),
        ),
        begun is Reserved,
    ensures
        ({
            let s = old(registry)@.entries[inode_id.0]->Active_0;
            let targets = s.issued_targets;
            let reserved = begun->Reserved_0;
            &&& old(registry)@.entries.contains_key(inode_id.0)
            &&& old(registry)@.entries[inode_id.0] is Active
            &&& old(registry)@.entries[inode_id.0].retirement_at_ms() > now_ms
            &&& s.lease_epoch == lease_epoch
            &&& s.pending_allocate_block is None
            &&& s.active_publication is None
            &&& targets.len() < old(registry).limits().max_write_targets_per_session
            &&& targets.len() == 0 ==> previous is None
            &&& targets.len() > 0 ==> previous == Some(targets[targets.len() - 1].block_id)
            &&& reserved.inode_id == inode_id
            &&& reserved.lease_epoch == lease_epoch
            &&& reserved.pending.previous_block_id == previous
            &&& reserved.layout == s.layout
            &&& reserved.open_client_id == s.open_client_id
            &&& targets.len() == 0 && s.mode == WriteMode::Overwrite ==> reserved.file_offset == 0
            &&& targets.len() == 0 && s.mode == WriteMode::Append ==> reserved.file_offset
                == s.base_size
            &&& targets.len() > 0 ==> reserved.file_offset == targets[targets.len()
                - 1].file_offset + targets[targets.len() - 1].block_size
            &&& final(registry)@.entries.contains_key(inode_id.0)
            &&& final(registry)@.entries[inode_id.0] == EntryView::Active(
                WriteSessionView { pending_allocate_block: Some(reserved.pending), ..s },
            )
        }),
        forall|k: u64| #[trigger]
            final(registry)@.entries.contains_key(k) && k != inode_id.0 ==> old(
                registry,
            )@.entries.contains_key(k) && final(registry)@.entries[k] == old(
                registry,
            )@.entries[k],
{
    tidying_drops_only_what_is_expired(
        old(registry)@,
        old(registry).limits(),
        inode_id.0,
        now_ms,
    );
    assert(old(registry)@.entry_wf(inode_id.0, old(registry).limits()));
}

/// A repeated step is answered with the target that it was issued: the one right behind the
/// block that it names as its predecessor. Nothing is reserved for it.
pub proof fn a_repeated_step_gets_the_same_target(
    registry: &mut SessionRegistry,
    inode_id: InodeId,
    lease_epoch: LeaseEpoch,
    previous: Option<BlockId>,
    now_ms: u64,
    begun: BeginAllocateBlock,
)
    requires
        old(registry).wf(),
        call_ensures(
            SessionRegistry::begin_allocate_block,
            (registry, inode_id, lease_epoch, previous, now_ms),
            Ok(begun),
        ),
        begun is Replay,
    ensures
        ({
            let s = old(registry)@.entries[inode_id.0]->Active_0;
            let targets = s.issued_targets;
            let behind = s.issued_targets.drop_first();
            &&& old(registry)@.entries.contains_key(inode_id.0)
            &&& old(registry)@.entries[inode_id.0] is Active
            &&& s.lease_epoch == lease_epoch
            &&& targets.len() > 0
            &&& previous is None ==> targets[0] == (begun->Replay_0)@
            &&& previous is Some ==> exists|i: int|
                #![trigger targets[i], behind[i]]
                0 <= i < behind.len() && targets[i].block_id == previous->0 && behind[i] == (
                begun->Replay_0)@
            &&& final(registry)@.entries.contains_key(inode_id.0)
            &&& final(registry)@.entries[inode_id.0] == old(registry)@.entries[inode_id.0]
        }),
{
    tidying_drops_only_what_is_expired(
        old(registry)@,
        old(registry).limits(),
        inode_id.0,
        now_ms,
    );
    assert(old(registry)@.entry_wf(inode_id.0, old(registry).limits()));
    let s = old(registry)@.entries[inode_id.0]->Active_0;
    lemma_find_step(s.issued_steps, previous);
    let step = find_step(s.issued_steps, previous)->0;
    let j = choose|j: int| 0 <= j < s.issued_steps.len() && s.issued_steps[j] == step;
    assert(s.issued_steps[j] == step);
    assert(s.issued_targets[step.target_index as int] == (begun->Replay_0)@);
    let i = step.target_index - 1;
    if previous is Some {
        assert(s.issued_targets[i].block_id == previous->0);
        assert(s.issued_targets.drop_first()[i] == (begun->Replay_0)@);
    }
}

/// Why a step does not begin: its session is gone or has another epoch, a publication has
/// frozen the targets, it does not follow the last block, another one is on the way, or
/// capacity is used up.
pub proof fn steps_are_refused_for_a_reason(
    registry: &mut SessionRegistry,
    inode_id: InodeId,
    lease_epoch: LeaseEpoch,
    previous: Option<BlockId>,
    now_ms: u64,
    error: BeginAllocateBlockError,
)
    requires
        old(registry).wf(),
        call_ensures(
            SessionRegistry::begin_allocate_block,
            (registry, inode_id, lease_epoch, previous, now_ms),
            Err(error),
        ),
    ensures
        ({
            let live = {
                &&& old(registry)@.entries.contains_key(inode_id.0)
                &&& old(registry)@.entries[inode_id.0].retirement_at_ms() > now_ms
                &&& old(registry)@.entries[inode_id.0] is Active
                &&& old(registry)@.entries[inode_id.0]->Active_0.lease_epoch == lease_epoch
            };
            let s = old(registry)@.entries[inode_id.0]->Active_0;
            let targets = s.issued_targets;
            match error {
                BeginAllocateBlockError::Session(_) => !live,
                BeginAllocateBlockError::PublicationInProgress => live
                    && s.active_publication is Some,
                BeginAllocateBlockError::Pending => live && s.pending_allocate_block is Some,
                BeginAllocateBlockError::InvalidArgument(_) => {
                    &&& live
                    &&& {
                        ||| targets.len() == 0 && previous is Some
                        ||| targets.len() > 0 && previous != Some(
                            targets[targets.len() - 1].block_id,
                        )
                        ||| targets.len() > 0 && targets[targets.len() - 1].file_offset
                            + targets[targets.len() - 1].block_size > u64::MAX
                    }
                },
                BeginAllocateBlockError::LimitExceeded(e) => live && match e.limit {
                    WriteTargetLimit::PerSession => {
                        &&& e.maximum == old(registry).limits().max_write_targets_per_session
                        &&& targets.len() >= e.maximum
                    },
                    WriteTargetLimit::Global => {
                        &&& e.maximum == old(registry).limits().max_write_targets
                        &&& final(registry)@.outstanding() >= e.maximum
                    },
                },
            }
        }),
{
    tidying_drops_only_what_is_expired(
        old(registry)@,
        old(registry).limits(),
        inode_id.0,
        now_ms,
    );
}

/// A target is issued only for the step that is on the way: for the inode, the client and the
/// epoch of the session, at the offset that is next. It is put behind the targets before it.
pub proof fn an_issued_target_extends_its_session(
    registry: &mut SessionRegistry,
    inode_id: InodeId,
    lease_epoch: LeaseEpoch,
    pending: PendingAllocateBlock,
    target: LocatedBlock,
    now_ms: u64,
    issued: LocatedBlock,
)
    requires
        old(registry).wf(),
        call_ensures(
            SessionRegistry::complete_write_target,
            (registry, inode_id, lease_epoch, pending, target, now_ms),
            Ok(issued),
        ),
    ensures
        issued@ == target@,
        ({
            let s = old(registry)@.entries[inode_id.0]->Active_0;
            let after = final(registry)@.entries[inode_id.0]->Active_0;
            let targets = s.issued_targets;
            &&& old(registry)@.entries.contains_key(inode_id.0)
            &&& old(registry)@.entries[inode_id.0] is Active
            &&& s.lease_epoch == lease_epoch
            &&& s.pending_allocate_block == Some(pending)
            &&& target.block_id.inode_id == inode_id
            &&& target.fencing_token.block_id == target.block_id
            &&& target.fencing_token.owner == s.open_client_id
            &&& target.fencing_token.epoch == lease_epoch
            &&& targets.len() == 0 && s.mode == WriteMode::Overwrite ==> target.file_offset == 0
            &&& targets.len() == 0 && s.mode == WriteMode::Append ==> target.file_offset
                == s.base_size
            &&& targets.len() > 0 ==> target.file_offset == targets[targets.len() - 1].file_offset
                + targets[targets.len() - 1].block_size
            &&& target.block_format_id == s.layout.block_format_id
            &&& target.block_size == s.layout.block_size
            &&& target.write_offset == 0
            &&& final(registry)@.entries.contains_key(inode_id.0)
            &&& final(registry)@.entries[inode_id.0] is Active
            &&& after.issued_targets == targets.push(target@)
            &&& after.issued_steps.len() == s.issued_steps.len() + 1
            &&& after.issued_steps.last().previous_block_id == pending.previous_block_id
            &&& after.issued_steps.last().target_index == targets.len()
            &&& after.pending_allocate_block is None
            &&& after.lease_epoch == s.lease_epoch
            &&& after.expires_at_ms == s.expires_at_ms
            &&& after.generation == s.generation
            &&& after.base_size == s.base_size
            &&& after.mode == s.mode
            &&& after.open_client_id == s.open_client_id
        }),
{
    tidying_drops_only_what_is_expired(
        old(registry)@,
        old(registry).limits(),
        inode_id.0,
        now_ms,
    );
    assert(old(registry)@.entry_wf(inode_id.0, old(registry).limits()));
}

/// Giving a step up releases exactly that step, and tells whether it was there.
pub proof fn a_given_up_step_is_released(
    registry: &mut SessionRegistry,
    inode_id: InodeId,
    lease_epoch: LeaseEpoch,
    pending: PendingAllocateBlock,
    r: bool,
)
    requires
        old(registry).wf(),
        call_ensures(
            SessionRegistry::cancel_write_target,
            (registry, inode_id, lease_epoch, pending),
            r,
        ),
    ensures
        ({
            let s = old(registry)@.entries[inode_id.0]->Active_0;
            &&& r <==> {
                &&& old(registry)@.entries.contains_key(inode_id.0)
                &&& old(registry)@.entries[inode_id.0] is Active
                &&& s.lease_epoch == lease_epoch
                &&& s.pending_allocate_block == Some(pending)
            }
            &&& !r ==> final(registry)@ == old(registry)@
            &&& r ==> final(registry)@.entries == old(registry)@.entries.insert(
                inode_id.0,
                EntryView::Active(WriteSessionView { pending_allocate_block: None, ..s }),
            )
        }),
{
    if old(registry)@.entries.contains_key(inode_id.0) {
        assert(old(registry)@.entry_wf(inode_id.0, old(registry).limits()));
    }
}

// ---- publication ----

/// A publication freezes the live session of the presented epoch as it is, under an identity
/// of its own, and only where no step and no other publication is on the way.
pub proof fn a_publication_freezes_the_session_as_it_is(
    registry: &mut SessionRegistry,
    inode_id: InodeId,
    lease_epoch: LeaseEpoch,
    now_ms: u64,
    r: Result<WritePublication, BeginWritePublicationError>,
)
    requires
        old(registry).wf(),
        call_ensures(
            SessionRegistry::begin_publication,
            (registry, inode_id, lease_epoch, now_ms),
            r,
        ),
    ensures
        ({
            let s = old(registry)@.entries[inode_id.0]->Active_0;
            let live = {
                &&& old(registry)@.entries.contains_key(inode_id.0)
                &&& old(registry)@.entries[inode_id.0].retirement_at_ms() > now_ms
                &&& old(registry)@.entries[inode_id.0] is Active
                &&& s.lease_epoch == lease_epoch
            };
            match r {
                Ok(p) => {
                    &&& live
                    &&& s.pending_allocate_block is None
                    &&& s.active_publication is None
                    &&& p.publication_id.0 == old(registry)@.next_publication_id
                    &&& !p.submitted
                    &&& p.session@ == (WriteSessionView {
                        active_publication: Some(p.publication_id),
                        ..s
                    })
                    &&& final(registry)@.entries.contains_key(inode_id.0)
                    &&& final(registry)@.entries[inode_id.0] == EntryView::Active(p.session@)
                    &&& final(registry)@.next_publication_id == old(
                        registry,
                    )@.next_publication_id + 1
                },
                Err(BeginWritePublicationError::Session(_)) => !live,
                Err(BeginWritePublicationError::AllocateBlockPending) => live
                    && s.pending_allocate_block is Some,
                Err(BeginWritePublicationError::PublicationInProgress) => live
                    && s.active_publication is Some,
                Err(BeginWritePublicationError::PublicationIdExhausted) => live && old(
                    registry,
                )@.next_publication_id == u64::MAX,
            }
        }),
{
    tidying_drops_only_what_is_expired(
        old(registry)@,
        old(registry).limits(),
        inode_id.0,
        now_ms,
    );
    if old(registry)@.entries.contains_key(inode_id.0) {
        assert(old(registry)@.entry_wf(inode_id.0, old(registry).limits()));
    }
}

/// A publication is submitted only while it owns a session whose lease has not expired. It then
/// pins the session, and changes nothing else of it.
pub proof fn a_submitted_publication_pins_its_session(
    registry: &mut SessionRegistry,
    publication: &mut WritePublication,
    now_ms: u64,
    r: Result<(), PublicationError>,
)
    requires
        old(registry).wf(),
        !old(publication).submitted,
        call_ensures(SessionRegistry::mark_submitted, (registry, publication, now_ms), r),
    ensures
        ({
            let key = old(publication).session.inode_id.0;
            let s = old(registry)@.entries[key]->Active_0;
            &&& r is Ok <==> {
                &&& old(publication).session.lease_epoch.0 < u64::MAX
                &&& old(registry)@.entries.contains_key(key)
                &&& old(registry)@.entries[key] is Active
                &&& s.lease_epoch == old(publication).session.lease_epoch
                &&& s.active_publication == Some(old(publication).publication_id)
                &&& now_ms < s.expires_at_ms
            }
            &&& r is Ok ==> {
                &&& final(publication).submitted
                &&& final(publication).publication_id == old(publication).publication_id
                &&& final(publication).session@ == old(publication).session@
                &&& final(registry)@.entries == old(registry)@.entries.insert(
                    key,
                    EntryView::Active(WriteSessionView { publication_submitted: true, ..s }),
                )
            }
            &&& r is Err ==> final(registry)@ == old(registry)@ && *final(publication) == *old(
                publication,
            )
        }),
{
    let key = old(publication).session.inode_id.0;
    if old(registry)@.entries.contains_key(key) {
        assert(old(registry)@.entry_wf(key, old(registry).limits()));
    }
}

/// A sync that is installed leaves the session open behind the new visible end: it appends from
/// there, has the generation that was published, and is not frozen or pinned any more. The
/// generation moves on by one, or stays with the same size where the sync was a replay.
pub proof fn an_installed_sync_moves_the_session_on(
    registry: &mut SessionRegistry,
    inode_id: InodeId,
    lease_epoch: LeaseEpoch,
    publication_id: WritePublicationId,
    generation: ContentGeneration,
    file_size: u64,
    now_ms: u64,
)
    requires
        old(registry).wf(),
        call_ensures(
            SessionRegistry::complete_sync_publication,
            (registry, inode_id, lease_epoch, publication_id, generation, file_size, now_ms),
            Ok(()),
        ),
    ensures
        ({
            let s = old(registry)@.entries[inode_id.0]->Active_0;
            let after = final(registry)@.entries[inode_id.0]->Active_0;
            &&& old(registry)@.entries.contains_key(inode_id.0)
            &&& old(registry)@.entries[inode_id.0] is Active
            &&& s.lease_epoch == lease_epoch
            &&& s.active_publication == Some(publication_id)
            &&& {
                ||| generation.0 == s.generation.0 + 1
                ||| generation == s.generation && file_size == s.base_size
            }
            &&& final(registry)@.entries.contains_key(inode_id.0)
            &&& final(registry)@.entries[inode_id.0] is Active
            &&& after.generation == generation
            &&& after.base_size == file_size
            &&& after.mode == WriteMode::Append
            &&& after.active_publication is None
            &&& !after.publication_submitted
            &&& after.lease_epoch == s.lease_epoch
            &&& after.expires_at_ms == s.expires_at_ms
            &&& after.open_client_id == s.open_client_id
            &&& after.layout == s.layout
            &&& after.mount_id == s.mount_id
            &&& after.ancestor_inode_ids == s.ancestor_inode_ids
            &&& after.create_replay == s.create_replay
        }),
        forall|k: u64| #[trigger]
            final(registry)@.entries.contains_key(k) && k != inode_id.0 ==> old(
                registry,
            )@.entries.contains_key(k) && final(registry)@.entries[k] == old(
                registry,
            )@.entries[k],
{
    tidying_drops_only_what_is_expired(
        old(registry)@,
        old(registry).limits(),
        inode_id.0,
        now_ms,
    );
    assert(old(registry)@.entry_wf(inode_id.0, old(registry).limits()));
}

/// A commit that is installed ends the session that its publication owns. Given up instead, a
/// publication only lets that session go on. Neither touches a session of another epoch or
/// publication.
pub proof fn only_the_owner_ends_or_releases_a_session(
    committed: &mut SessionRegistry,
    given_up: &mut SessionRegistry,
    inode_id: InodeId,
    lease_epoch: LeaseEpoch,
    publication_id: WritePublicationId,
)
    requires
        old(committed).wf(),
        old(given_up).wf(),
        call_ensures(
            SessionRegistry::complete_commit_publication,
            (committed, inode_id, lease_epoch, publication_id),
            (),
        ),
        call_ensures(
            SessionRegistry::cancel_publication,
            (given_up, inode_id, lease_epoch, publication_id),
            (),
        ),
    ensures
        ({
            let owns = |v: RegistryView|
                v.entries.contains_key(inode_id.0) && v.entries[inode_id.0] is Active
                    && v.entries[inode_id.0]->Active_0.lease_epoch == lease_epoch
                    && v.entries[inode_id.0]->Active_0.active_publication == Some(publication_id);
            &&& owns(old(committed)@) ==> final(committed)@.entries == old(
                committed,
            )@.entries.remove(inode_id.0)
            &&& !owns(old(committed)@) ==> final(committed)@ == old(committed)@
            &&& owns(old(given_up)@) ==> final(given_up)@.entries == old(
                given_up,
            )@.entries.insert(
                inode_id.0,
                EntryView::Active(
                    WriteSessionView {
                        active_publication: None,
                        ..old(given_up)@.entries[inode_id.0]->Active_0
                    },
                ),
            )
            &&& !owns(old(given_up)@) ==> final(given_up)@ == old(given_up)@
        }),
{
    if old(given_up)@.entries.contains_key(inode_id.0) {
        assert(old(given_up)@.entry_wf(inode_id.0, old(given_up).limits()));
    }
}

// ---- sessions ----

/// A session is found if and only if its inode has an active one that is not to be retired, and
/// it is found as it is.
pub proof fn a_session_is_found_while_it_lives(
    registry: &mut SessionRegistry,
    inode_id: InodeId,
    now_ms: u64,
    r: Option<WriteSession>,
)
    requires
        old(registry).wf(),
        call_ensures(SessionRegistry::get_session, (registry, inode_id, now_ms), r),
    ensures
        r is Some <==> {
            &&& old(registry)@.entries.contains_key(inode_id.0)
            &&& old(registry)@.entries[inode_id.0] is Active
            &&& old(registry)@.entries[inode_id.0].retirement_at_ms() > now_ms
        },
        r is Some ==> old(registry)@.entries[inode_id.0] == EntryView::Active((r->0)@),
{
    tidying_drops_only_what_is_expired(
        old(registry)@,
        old(registry).limits(),
        inode_id.0,
        now_ms,
    );
}

/// The small snapshot of a session names its mount, its epoch and its client.
pub proof fn a_session_identity_is_that_of_the_session(
    registry: &mut SessionRegistry,
    inode_id: InodeId,
    now_ms: u64,
    r: Option<WriteSessionIdentity>,
)
    requires
        old(registry).wf(),
        call_ensures(SessionRegistry::get_session_identity, (registry, inode_id, now_ms), r),
    ensures
        r is Some <==> {
            &&& old(registry)@.entries.contains_key(inode_id.0)
            &&& old(registry)@.entries[inode_id.0] is Active
            &&& old(registry)@.entries[inode_id.0].retirement_at_ms() > now_ms
        },
        r is Some ==> {
            let s = old(registry)@.entries[inode_id.0]->Active_0;
            &&& (r->0).mount_id == s.mount_id
            &&& (r->0).lease_epoch == s.lease_epoch
            &&& (r->0).open_client_id == s.open_client_id
        },
{
    tidying_drops_only_what_is_expired(
        old(registry)@,
        old(registry).limits(),
        inode_id.0,
        now_ms,
    );
}

/// A session is removed by its epoch only: the one with the presented epoch goes and is
/// returned, and any other stays.
pub proof fn a_session_is_removed_by_its_epoch(
    registry: &mut SessionRegistry,
    inode_id: InodeId,
    lease_epoch: LeaseEpoch,
    r: Option<WriteSession>,
)
    requires
        call_ensures(
            SessionRegistry::remove_session_if_epoch,
            (registry, inode_id, lease_epoch),
            r,
        ),
    ensures
        r is Some <==> {
            &&& old(registry)@.entries.contains_key(inode_id.0)
            &&& old(registry)@.entries[inode_id.0] is Active
            &&& old(registry)@.entries[inode_id.0]->Active_0.lease_epoch == lease_epoch
        },
        r is Some ==> {
            &&& (r->0)@ == old(registry)@.entries[inode_id.0]->Active_0
            &&& final(registry)@.entries == old(registry)@.entries.remove(inode_id.0)
            &&& final(registry)@.creates == old(registry)@.creates
        },
        r is None ==> final(registry)@ == old(registry)@,
{
}

/// A lease is valid if and only if its inode has an active session of its epoch whose deadline
/// has not passed.
pub proof fn a_lease_is_valid_before_its_deadline(
    registry: &mut SessionRegistry,
    inode_id: InodeId,
    lease_epoch: LeaseEpoch,
    now_ms: u64,
    r: Result<(), WriteSessionError>,
)
    requires
        old(registry).wf(),
        call_ensures(
            SessionRegistry::validate_session,
            (registry, inode_id, lease_epoch, now_ms),
            r,
        ),
    ensures
        ({
            let s = old(registry)@.entries[inode_id.0]->Active_0;
            let found = old(registry)@.entries.contains_key(inode_id.0) && old(
                registry,
            )@.entries[inode_id.0] is Active;
            &&& r is Ok <==> found && s.lease_epoch == lease_epoch && now_ms < s.expires_at_ms
            &&& found && s.expires_at_ms <= now_ms ==> r == Err::<(), WriteSessionError>(
                WriteSessionError::Expired,
            )
            &&& found && now_ms < s.expires_at_ms && s.lease_epoch != lease_epoch ==> r == Err::<
                (),
                WriteSessionError,
            >(WriteSessionError::LeaseEpochMismatch { expected: s.lease_epoch, got: lease_epoch })
            &&& !old(registry)@.entries.contains_key(inode_id.0) ==> r == Err::<
                (),
                WriteSessionError,
            >(WriteSessionError::NotFound)
        }),
        forall|k: u64| #[trigger]
            final(registry)@.entries.contains_key(k) ==> old(registry)@.entries.contains_key(k)
                && final(registry)@.entries[k] == old(registry)@.entries[k],
        r is Ok ==> final(registry)@.entries.contains_key(inode_id.0),
{
    swept_keeps_what_is_live(
        old(registry)@,
        old(registry).limits(),
        now_ms,
        MAX_EXPIRED_SESSION_RETIREMENTS_PER_CALL as nat,
    );
}

/// A lease is renewed by its owner only, while it is valid: its deadline becomes a full lifetime
/// from now, unless it is later already. Nothing else of the session changes.
pub proof fn a_renewed_lease_has_a_full_lifetime(
    registry: &mut SessionRegistry,
    inode_id: InodeId,
    lease_epoch: LeaseEpoch,
    client_id: ClientId,
    now_ms: u64,
    r: Result<u64, WriteSessionError>,
)
    requires
        old(registry).wf(),
        call_ensures(
            SessionRegistry::renew_session_at,
            (registry, inode_id, lease_epoch, client_id, now_ms),
            r,
        ),
    ensures
        ({
            let s = old(registry)@.entries[inode_id.0]->Active_0;
            let valid = {
                &&& old(registry)@.entries.contains_key(inode_id.0)
                &&& old(registry)@.entries[inode_id.0] is Active
                &&& s.lease_epoch == lease_epoch
                &&& now_ms < s.expires_at_ms
            };
            let full = now_ms + old(registry).limits().session_ttl_ms;
            &&& r is Ok <==> valid && s.open_client_id == client_id
            &&& valid && s.open_client_id != client_id ==> r == Err::<u64, WriteSessionError>(
                WriteSessionError::OwnerMismatch,
            )
            &&& r is Ok ==> {
                &&& r->Ok_0 >= s.expires_at_ms
                &&& r->Ok_0 == s.expires_at_ms || r->Ok_0 == full || r->Ok_0 == u64::MAX
                &&& full <= u64::MAX ==> r->Ok_0 >= full
                &&& full > u64::MAX ==> r->Ok_0 == u64::MAX
                &&& final(registry)@.entries.contains_key(inode_id.0)
                &&& final(registry)@.entries[inode_id.0] == EntryView::Active(
                    WriteSessionView { expires_at_ms: r->Ok_0, ..s },
                )
            }
        }),
{
    swept_keeps_what_is_live(
        old(registry)@,
        old(registry).limits(),
        now_ms,
        MAX_EXPIRED_SESSION_RETIREMENTS_PER_CALL as nat,
    );
    if old(registry)@.entries.contains_key(inode_id.0) {
        assert(old(registry)@.entry_wf(inode_id.0, old(registry).limits()));
    }
}

// ---- counts ----

/// Every entry counts once: for the process, for its client and, with the targets that it has
/// pending or issued, for the targets of the process. An empty registry counts nothing.
pub proof fn counts_follow_the_entries(v: RegistryView, key: u64, entry: EntryView, c: ClientId)
    requires
        v.entries.dom().finite(),
        !v.entries.contains_key(key),
    ensures
        ({
            let w = RegistryView { entries: v.entries.insert(key, entry), ..v };
            let (mine, opening, pending, issued) = match entry {
                EntryView::Opening(o) => (o.open_client_id == c, 1nat, 0nat, 0nat),
                EntryView::Active(s) => (
                    s.open_client_id == c,
                    0nat,
                    if s.pending_allocate_block is Some {
                        1nat
                    } else {
                        0nat
                    },
                    s.issued_targets.len(),
                ),
            };
            &&& w.occupied() == v.occupied() + 1
            &&& w.client_occupied(c) == v.client_occupied(c) + (if mine {
                1nat
            } else {
                0nat
            })
            &&& w.openings() == v.openings() + opening
            &&& w.pending() == v.pending() + pending
            &&& w.outstanding() == v.outstanding() + pending + issued
        }),
        RegistryView::empty().occupied() == 0,
        RegistryView::empty().client_occupied(c) == 0,
        RegistryView::empty().openings() == 0,
        RegistryView::empty().pending() == 0,
        RegistryView::empty().outstanding() == 0,
{
    total_insert(v.entries, client_weight(c), key, entry);
    total_insert(v.entries, opening_weight(), key, entry);
    total_insert(v.entries, pending_weight(), key, entry);
    total_insert(v.entries, owned_weight(), key, entry);
}

/// A pending create counts once, for the process and for its client.
pub proof fn counts_follow_the_creates(
    v: RegistryView,
    op: CreateFileOperationId,
    create: CreateOpeningView,
    c: ClientId,
)
    requires
        v.creates.dom().finite(),
        !v.creates.contains_key(op),
    ensures
        ({
            let w = RegistryView { creates: v.creates.insert(op, create), ..v };
            &&& w.occupied() == v.occupied() + 1
            &&& w.client_occupied(c) == v.client_occupied(c) + (if create.open_client_id == c {
                1nat
            } else {
                0nat
            })
        }),
{
    total_insert(
        v.creates,
        create_client_weight(c),
        op,
        create,
    );
}

/// The gauges tell how many openings and pending creates there are, and how many active
/// sessions; how many targets are pending, and how many are issued.
pub proof fn gauges_tell_the_counts(
    registry: &SessionRegistry,
    sessions: (usize, usize),
    targets: (usize, usize),
)
    requires
        call_ensures(SessionRegistry::session_gauges, (registry,), sessions),
        call_ensures(SessionRegistry::write_target_gauges, (registry,), targets),
    ensures
        sessions.0 + sessions.1 == registry@.entries.dom().len() + registry@.creates.dom().len(),
        sessions.0 == registry@.openings() + registry@.creates.dom().len(),
        targets.0 == registry@.pending(),
        targets.0 + targets.1 == registry@.outstanding(),
{
}

// ---- single sessions ----

/// The next target of a session goes behind the capacity of its last one. The first one goes to
/// the beginning of the file where the session overwrites it, and to its visible end where it
/// appends.
pub proof fn the_next_target_goes_behind_the_last(
    session: &WriteSession,
    offset: Option<u64>,
    last: Option<BlockId>,
)
    requires
        call_ensures(WriteSession::next_target_file_offset, (session,), offset),
        call_ensures(WriteSession::last_block, (session,), last),
    ensures
        ({
            let targets = session.issued_targets@;
            let n = targets.len() - 1;
            &&& last is Some <==> targets.len() > 0
            &&& targets.len() > 0 ==> last == Some(targets[n].block_id)
            &&& targets.len() == 0 && session.mode == WriteMode::Overwrite ==> offset == Some(0u64)
            &&& targets.len() == 0 && session.mode == WriteMode::Append ==> offset == Some(
                session.base_size,
            )
            &&& targets.len() > 0 && targets[n].file_offset + targets[n].block_size <= u64::MAX
                ==> offset is Some && offset->0 == targets[n].file_offset + targets[n].block_size
            &&& targets.len() > 0 && targets[n].file_offset + targets[n].block_size > u64::MAX
                ==> offset is None
        }),
{
    let targets = session.issued_targets@;
    let views = located_views(targets);
    assert(views.len() == targets.len());
    if targets.len() > 0 {
        assert(views[targets.len() - 1] == targets[targets.len() - 1]@);
    }
}

/// A target may be issued if and only if it is for the inode, the client and the presented
/// epoch, at the offset that is next, with the format, the full block size and the storage unit
/// of the layout, to be written from its beginning.
pub proof fn a_target_fits_its_session(
    session: &WriteSession,
    lease_epoch: LeaseEpoch,
    target: &LocatedBlock,
    r: Result<(), InvalidTarget>,
    offset: Option<u64>,
)
    requires
        call_ensures(WriteSession::validate_write_target, (session, lease_epoch, target), r),
        call_ensures(WriteSession::next_target_file_offset, (session,), offset),
    ensures
        r is Ok <==> {
            &&& target.block_id.inode_id == session.inode_id
            &&& target.fencing_token.block_id == target.block_id
            &&& target.fencing_token.owner == session.open_client_id
            &&& target.fencing_token.epoch == lease_epoch
            &&& offset == Some(target.file_offset)
            &&& target.block_format_id == session.layout.block_format_id
            &&& target.block_format_id.0 == 2
            &&& target.block_size == session.layout.block_size
            &&& 0 < target.block_size <= MAX_BLOCK_SIZE
            &&& target.chunk_size == DURABLE_PREFIX_STORAGE_CHUNK_SIZE
            &&& target.write_offset == 0
        },
{
}

/// Sessions that are looked at once more are the same sessions: a publication finds its own
/// while it owns it, and nothing otherwise.
pub proof fn a_publication_finds_its_own_session(
    registry: &mut SessionRegistry,
    inode_id: InodeId,
    lease_epoch: LeaseEpoch,
    publication_id: WritePublicationId,
    now_ms: u64,
    r: Result<WriteSession, PublicationError>,
)
    requires
        old(registry).wf(),
        call_ensures(
            SessionRegistry::revalidate_publication,
            (registry, inode_id, lease_epoch, publication_id, now_ms),
            r,
        ),
    ensures
        ({
            let s = old(registry)@.entries[inode_id.0]->Active_0;
            &&& r is Ok <==> {
                &&& old(registry)@.entries.contains_key(inode_id.0)
                &&& old(registry)@.entries[inode_id.0].retirement_at_ms() > now_ms
                &&& old(registry)@.entries[inode_id.0] is Active
                &&& s.lease_epoch == lease_epoch
                &&& s.active_publication == Some(publication_id)
            }
            &&& r is Ok ==> (r->Ok_0)@ == s
        }),
{
    tidying_drops_only_what_is_expired(
        old(registry)@,
        old(registry).limits(),
        inode_id.0,
        now_ms,
    );
}

/// A sweep tells how many it retired: as many as were expired, up to its bound. What was not
/// expired stays.
pub proof fn a_sweep_tells_what_it_retired(
    registry: &mut SessionRegistry,
    now_ms: u64,
    r: usize,
    key: u64,
)
    requires
        old(registry).wf(),
        call_ensures(SessionRegistry::retire_expired_batch, (registry, now_ms), r),
    ensures
        r <= MAX_EXPIRED_SESSION_RETIREMENTS_PER_CALL,
        r == MAX_EXPIRED_SESSION_RETIREMENTS_PER_CALL || r == old(registry)@.expired_count(now_ms),
        r <= old(registry)@.expired_count(now_ms),
        old(registry)@.entries.contains_key(key) && old(
            registry,
        )@.entries[key].retirement_at_ms() > now_ms ==> final(registry)@.entries.contains_key(key)
            && final(registry)@.entries[key] == old(registry)@.entries[key],
        final(registry)@.entries.contains_key(key) ==> old(registry)@.entries.contains_key(key),
{
    a_sweep_uses_its_budget(
        old(registry)@,
        old(registry).limits(),
        now_ms,
        MAX_EXPIRED_SESSION_RETIREMENTS_PER_CALL as nat,
    );
    swept_keeps_what_is_live(
        old(registry)@,
        old(registry).limits(),
        now_ms,
        MAX_EXPIRED_SESSION_RETIREMENTS_PER_CALL as nat,
    );
}

/// An inode that is looked at loses its own expired entry, and nothing else.
pub proof fn an_expired_entry_is_retired_by_its_inode(
    registry: &mut SessionRegistry,
    inode_id: InodeId,
    now_ms: u64,
    r: bool,
)
    requires
        call_ensures(
            SessionRegistry::retire_expired_entry_for_inode,
            (registry, inode_id, now_ms),
            r,
        ),
    ensures
        r <==> old(registry)@.entries.contains_key(inode_id.0) && old(
            registry,
        )@.entries[inode_id.0].retirement_at_ms() <= now_ms,
        r ==> final(registry)@.entries == old(registry)@.entries.remove(inode_id.0),
        !r ==> final(registry)@ == old(registry)@,
        final(registry)@.creates == old(registry)@.creates,
{
}

/// An empty registry holds nothing, and keeps the limits that it was made with.
pub proof fn a_new_registry_is_empty(
    max_sessions: usize,
    max_sessions_per_client: usize,
    max_write_targets: usize,
    max_write_targets_per_session: usize,
    session_ttl_ms: u64,
    r: SessionRegistry,
)
    requires
        call_ensures(
            SessionRegistry::new,
            (
                max_sessions,
                max_sessions_per_client,
                max_write_targets,
                max_write_targets_per_session,
                session_ttl_ms,
            ),
            r,
        ),
    ensures
        forall|k: u64| !#[trigger] r@.entries.contains_key(k),
        forall|op: CreateFileOperationId| !#[trigger] r@.creates.contains_key(op),
        r.limits().max_sessions == max_sessions,
        r.limits().max_sessions_per_client == max_sessions_per_client,
        r.limits().max_write_targets == max_write_targets,
        r.limits().max_write_targets_per_session == max_write_targets_per_session,
        r.limits().session_ttl_ms == session_ttl_ms,
{
}

// ---- paths ----

/// A captured path leads to its file if and only if it is neither empty nor too long, ends at
/// the file, and passes no inode twice. A path to a parent is one shorter, and ends anywhere.
pub proof fn paths_are_bounded_and_without_cycles(
    inode: InodeId,
    chain: &Vec<InodeId>,
    file: Result<(), AncestorChainError>,
    parent: Result<(), ParentChainError>,
)
    requires
        call_ensures(validate_ancestor_chain, (inode, chain), file),
        call_ensures(validate_parent_ancestor_chain, (chain,), parent),
    ensures
        file is Ok <==> 0 < chain@.len() <= MAX_PATH_COMPONENTS + 1 && chain@[chain@.len() - 1]
            == inode && chain@.no_duplicates(),
        parent is Ok <==> 0 < chain@.len() <= MAX_PATH_COMPONENTS && chain@.no_duplicates(),
        chain@.len() == 0 ==> file == Err::<(), AncestorChainError>(AncestorChainError::Empty)
            && parent == Err::<(), ParentChainError>(ParentChainError::Empty),
        chain@.len() > MAX_PATH_COMPONENTS + 1 ==> file == Err::<(), AncestorChainError>(
            AncestorChainError::TooDeep,
        ) && parent == Err::<(), ParentChainError>(ParentChainError::TooDeep),
{
}

// ---- owners ----

/// An opening that is activated is its session, and one that is not is given up.
pub proof fn an_opening_is_activated_or_given_up(
    opening: WriteOpening,
    registry: &mut SessionRegistry,
    returned: LeaseEpoch,
    file: &FileData,
    tail: Option<LocatedBlock>,
    now_ms: u64,
    r: Result<WriteSession, WriteOpeningError>,
)
    requires
        call_ensures(WriteOpening::activate, (opening, registry, returned, file, tail, now_ms), r),
    ensures
        ({
            let key = opening.inode_id.0;
            let held = old(registry)@.entries[key]->Opening_0;
            let after = final(registry)@.entries;
            &&& r is Ok ==> {
                &&& held.opening_id == opening.opening_id
                &&& held.proposed_lease_epoch == returned
                &&& file.lease_epoch == returned
                &&& file.layout == held.layout
                &&& now_ms < held.expires_at_ms
                &&& r->Ok_0.lease_epoch == returned
                &&& r->Ok_0.base_size == file.len
                &&& r->Ok_0.generation == file.generation
                &&& r->Ok_0.mode == held.mode
                &&& after.contains_key(key)
                &&& after[key] == EntryView::Active(r->Ok_0@)
            }
            &&& r is Err ==> !(after.contains_key(key) && after[key] is Opening
                && after[key]->Opening_0.opening_id == opening.opening_id)
        }),
{
}

/// A publication that is given up lets its session go, unless it was submitted.
pub proof fn a_submitted_publication_is_not_given_up(
    publication: WritePublication,
    registry: &mut SessionRegistry,
)
    requires
        old(registry).wf(),
        call_ensures(WritePublication::release, (publication, registry), ()),
    ensures
        ({
            let key = publication.session.inode_id.0;
            let s = old(registry)@.entries[key]->Active_0;
            let owns = old(registry)@.entries.contains_key(key) && old(registry)@.entries[key]
                is Active && s.lease_epoch == publication.session.lease_epoch
                && s.active_publication == Some(publication.publication_id);
            &&& publication.submitted || !owns ==> final(registry)@ == old(registry)@
            &&& !publication.submitted && owns ==> final(registry)@.entries == old(
                registry,
            )@.entries.insert(
                key,
                EntryView::Active(WriteSessionView { active_publication: None, ..s }),
            )
        }),
{
    let key = publication.session.inode_id.0;
    if old(registry)@.entries.contains_key(key) {
        assert(old(registry)@.entry_wf(key, old(registry).limits()));
    }
}

// ---- why operations fail ----

/// Why an opening is not activated: it is not held any more, it has expired, another epoch was
/// returned, the stored file has another epoch or layout, or no target is left for its tail.
pub proof fn activations_fail_for_a_reason(
    registry: &mut SessionRegistry,
    inode_id: InodeId,
    opening_id: WriteOpeningId,
    returned: LeaseEpoch,
    now_ms: u64,
    file: &FileData,
    tail: Option<LocatedBlock>,
    error: WriteOpeningError,
)
    requires
        call_ensures(
            SessionRegistry::activate_opening,
            (registry, inode_id, opening_id, returned, now_ms, file, tail),
            Err(error),
        ),
    ensures
        ({
            let held = old(registry)@.entries[inode_id.0]->Opening_0;
            let current = old(registry)@.entries.contains_key(inode_id.0) && old(
                registry,
            )@.entries[inode_id.0] is Opening && held.opening_id == opening_id;
            match error {
                WriteOpeningError::NotCurrent => {
                    ||| !current
                    ||| file.lease_epoch != returned
                    ||| file.layout != held.layout
                },
                WriteOpeningError::Expired => current && held.expires_at_ms <= now_ms,
                WriteOpeningError::LeaseEpochMismatch { expected, got } => {
                    &&& current
                    &&& expected == held.proposed_lease_epoch
                    &&& got == returned
                    &&& expected != got
                },
                WriteOpeningError::TargetLimit => current && tail is Some && old(
                    registry,
                )@.outstanding() >= old(registry).limits().max_write_targets,
            }
        }),
{
}

/// Why a create is not activated: it is not held any more, it or its session has expired, or its
/// inode cannot have a session.
pub proof fn create_activations_fail_for_a_reason(
    registry: &mut SessionRegistry,
    operation_id: CreateFileOperationId,
    opening_id: WriteOpeningId,
    inode_id: InodeId,
    lease_epoch: LeaseEpoch,
    expires_at_ms: u64,
    layout: FileLayout,
    generation: ContentGeneration,
    now_ms: u64,
    error: WriteOpeningError,
)
    requires
        call_ensures(
            SessionRegistry::activate_create_opening,
            (
                registry,
                operation_id,
                opening_id,
                inode_id,
                lease_epoch,
                expires_at_ms,
                layout,
                generation,
                now_ms,
            ),
            Err(error),
        ),
    ensures
        ({
            let reserved = old(registry)@.creates[operation_id];
            let current = old(registry)@.creates.contains_key(operation_id)
                && reserved.opening_id == opening_id;
            let path = reserved.parent_ancestor_inode_ids.push(inode_id);
            match error {
                WriteOpeningError::NotCurrent => {
                    ||| !current
                    ||| lease_epoch.0 == 0
                    ||| old(registry)@.entries.contains_key(inode_id.0)
                    ||| path.len() > MAX_PATH_COMPONENTS + 1
                    ||| !path.no_duplicates()
                },
                WriteOpeningError::Expired => current && (reserved.expires_at_ms <= now_ms
                    || expires_at_ms <= now_ms),
                _ => false,
            }
        }),
{
    let path = old(registry)@.creates[operation_id].parent_ancestor_inode_ids.push(inode_id);
    assert(path.last() == inode_id);
}

/// Why a target is not issued: its step is not on the way any more, or the target does not fit.
/// A target that does not fit gives its step up.
pub proof fn targets_are_refused_for_a_reason(
    registry: &mut SessionRegistry,
    inode_id: InodeId,
    lease_epoch: LeaseEpoch,
    pending: PendingAllocateBlock,
    target: LocatedBlock,
    now_ms: u64,
    error: CompleteWriteTargetError,
)
    requires
        old(registry).wf(),
        call_ensures(
            SessionRegistry::complete_write_target,
            (registry, inode_id, lease_epoch, pending, target, now_ms),
            Err(error),
        ),
    ensures
        ({
            let s = old(registry)@.entries[inode_id.0]->Active_0;
            let waiting = {
                &&& old(registry)@.entries.contains_key(inode_id.0)
                &&& old(registry)@.entries[inode_id.0].retirement_at_ms() > now_ms
                &&& old(registry)@.entries[inode_id.0] is Active
                &&& s.lease_epoch == lease_epoch
                &&& s.pending_allocate_block == Some(pending)
            };
            match error {
                CompleteWriteTargetError::NotCurrent => !waiting,
                CompleteWriteTargetError::InvalidTarget(_) => {
                    &&& waiting
                    &&& final(registry)@.entries.contains_key(inode_id.0)
                    &&& final(registry)@.entries[inode_id.0] == EntryView::Active(
                        WriteSessionView { pending_allocate_block: None, ..s },
                    )
                },
            }
        }),
{
    tidying_drops_only_what_is_expired(
        old(registry)@,
        old(registry).limits(),
        inode_id.0,
        now_ms,
    );
    if old(registry)@.entries.contains_key(inode_id.0) {
        assert(old(registry)@.entry_wf(inode_id.0, old(registry).limits()));
    }
}

/// Why a sync is not installed: its publication does not own the session any more, or its
/// generation and size are neither those of the session nor the next ones.
pub proof fn syncs_are_refused_for_a_reason(
    registry: &mut SessionRegistry,
    inode_id: InodeId,
    lease_epoch: LeaseEpoch,
    publication_id: WritePublicationId,
    generation: ContentGeneration,
    file_size: u64,
    now_ms: u64,
    r: Result<(), PublicationError>,
)
    requires
        old(registry).wf(),
        call_ensures(
            SessionRegistry::complete_sync_publication,
            (registry, inode_id, lease_epoch, publication_id, generation, file_size, now_ms),
            r,
        ),
    ensures
        ({
            let s = old(registry)@.entries[inode_id.0]->Active_0;
            let owned = {
                &&& old(registry)@.entries.contains_key(inode_id.0)
                &&& old(registry)@.entries[inode_id.0].retirement_at_ms() > now_ms
                &&& old(registry)@.entries[inode_id.0] is Active
                &&& s.lease_epoch == lease_epoch
                &&& s.active_publication == Some(publication_id)
            };
            r is Ok <==> owned && (generation.0 == s.generation.0 + 1 || (generation
                == s.generation && file_size == s.base_size))
        }),
{
    tidying_drops_only_what_is_expired(
        old(registry)@,
        old(registry).limits(),
        inode_id.0,
        now_ms,
    );
}

/// A sync that changes the contents keeps the targets that begin below the new end, in order, and
/// drops those that do not. A replayed sync keeps all of them.
pub proof fn an_installed_sync_keeps_what_is_published(
    registry: &mut SessionRegistry,
    inode_id: InodeId,
    lease_epoch: LeaseEpoch,
    publication_id: WritePublicationId,
    generation: ContentGeneration,
    file_size: u64,
    now_ms: u64,
)
    requires
        old(registry).wf(),
        call_ensures(
            SessionRegistry::complete_sync_publication,
            (registry, inode_id, lease_epoch, publication_id, generation, file_size, now_ms),
            Ok(()),
        ),
    ensures
        ({
            let s = old(registry)@.entries[inode_id.0]->Active_0;
            let before = s.issued_targets;
            let after = final(registry)@.entries[inode_id.0]->Active_0.issued_targets;
            &&& after.len() <= before.len()
            &&& after == before.take(after.len() as int)
            &&& generation == s.generation ==> after == before
            &&& generation != s.generation ==> forall|i: int|
                0 <= i < before.len() ==> ((#[trigger] before[i]).file_offset < file_size <==> i
                    < after.len())
        }),
{
    let limits = old(registry).limits();
    tidying_drops_only_what_is_expired(old(registry)@, limits, inode_id.0, now_ms);
    assert(old(registry)@.entry_wf(inode_id.0, limits));
    let s = old(registry)@.entries[inode_id.0]->Active_0;
    let before = s.issued_targets;
    lemma_retained_targets(before, file_size);
    if generation != s.generation {
        let kept = retained_targets(before, file_size) as int;
        assert forall|i: int| 0 <= i < before.len() implies ((#[trigger] before[i]).file_offset
            < file_size <==> i < kept) by {
            if i >= kept {
                lemma_offsets_increase(s, kept, i);
            }
        }
    } else {
        assert(before.take(before.len() as int) =~= before);
    }
}

} // verus!
