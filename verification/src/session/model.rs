//! The mathematical model of the session registry: its state, its invariant, and what
//! each operation does to it.

use vstd::prelude::*;

use crate::fs::{ContentGeneration, WriteMode};
use crate::ids::{BlockId, ClientId, InodeId, MountId};
use crate::inode::FileData;
use crate::layout::{layout_shape, layout_shape_error, shape_error, BlockShape, FileLayout};
use crate::lease::LeaseEpoch;
use crate::location::LocatedBlockView;
use crate::session::index::{pair_le, CreateFileOperationId};
use crate::session::total::{
    total, total_at_most_len, total_insert, total_monotone, total_remove, total_update,
};
use crate::session::types::{
    chain_error, parent_chain_error, ActiveCreateReplayView, BeginAllocateBlockError,
    BeginCreateSessionError, BeginCreateSessionInputView, BeginSessionError,
    BeginSessionInputView, BeginWritePublicationError, CompleteWriteTargetError,
    CreateOpeningView, CreateSessionReplay, EntryView, InvalidAllocation, InvalidTarget,
    IssuedStep, OpeningSessionView, PendingAllocateBlock, PublicationError, RegistryLimits,
    SessionStateError, WriteOpeningError, WriteOpeningId, WritePublicationId, WriteSessionError,
    WriteSessionIdentity, WriteSessionLimit, WriteSessionLimitExceeded, WriteSessionView,
    WriteTargetLimit, WriteTargetLimitExceeded,
};

verus! {

/// Largest number of expired sessions that one sweep retires.
pub const MAX_EXPIRED_SESSION_RETIREMENTS_PER_CALL: usize = 64;

/// Ownership of one opening, held across the Raft proposal.
#[derive(Clone, Copy, Debug, PartialEq, Eq, Structural)]
#[must_use]
pub struct WriteOpening {
    pub inode_id: InodeId,
    pub opening_id: WriteOpeningId,
    /// The epoch that the matching command must acquire.
    pub proposed_lease_epoch: LeaseEpoch,
}

/// Ownership of one pending create, held across its Raft proposal.
#[derive(Clone, Copy, Debug, PartialEq, Eq, Structural)]
#[must_use]
pub struct CreateOpening {
    pub operation_id: CreateFileOperationId,
    pub opening_id: WriteOpeningId,
    /// The session expiry that is replicated with the create.
    pub expires_at_ms: u64,
}

/// What the reservation of a create gave.
#[derive(Clone, Copy, Debug, PartialEq, Eq, Structural)]
pub enum BeginCreateSession {
    /// The operation already owns an active session.
    Replay(CreateSessionReplay),
    /// New capacity is reserved.
    Reserved(CreateOpening),
}

/// Target capacity held across block allocation and placement.
#[derive(Clone, Copy, Debug, PartialEq, Eq, Structural)]
#[must_use]
pub struct WriteTargetReservation {
    pub inode_id: InodeId,
    pub lease_epoch: LeaseEpoch,
    pub pending: PendingAllocateBlock,
    pub layout: FileLayout,
    pub open_client_id: ClientId,
    pub file_offset: u64,
}

/// What the beginning of an allocation step gave.
pub enum BeginAllocateBlockView {
    /// The step was already issued.
    Replay(LocatedBlockView),
    /// New capacity is reserved.
    Reserved(WriteTargetReservation),
}

/// The value of the ownership of a frozen target sequence.
pub struct WritePublicationView {
    pub session: WriteSessionView,
    pub publication_id: WritePublicationId,
    pub submitted: bool,
}

/// The state of the registry.
pub struct RegistryView {
    /// The opening or active session of each inode.
    pub entries: Map<u64, EntryView>,
    /// The creates that own capacity before they have an inode.
    pub creates: Map<CreateFileOperationId, CreateOpeningView>,
    /// Next opening identity; zero is never issued.
    pub next_opening_id: u64,
    /// Next publication identity; zero is never issued.
    pub next_publication_id: u64,
}

/// Counts the openings.
pub open spec fn opening_weight() -> spec_fn(EntryView) -> nat {
    |e: EntryView|
        if e is Opening {
            1nat
        } else {
            0nat
        }
}

/// Counts the sessions of `client`.
pub open spec fn client_weight(client: ClientId) -> spec_fn(EntryView) -> nat {
    |e: EntryView|
        if e.client_id() == client {
            1nat
        } else {
            0nat
        }
}

/// Counts the sessions below `inode` that are retired at `at`.
pub open spec fn path_weight(inode: InodeId, at: u64) -> spec_fn(EntryView) -> nat {
    |e: EntryView|
        if e.ancestors().contains(inode) && e.retirement_at_ms() == at {
            1nat
        } else {
            0nat
        }
}

/// Counts pending and issued targets.
pub open spec fn owned_weight() -> spec_fn(EntryView) -> nat {
    |e: EntryView| e.owned_targets()
}

/// Counts pending targets.
pub open spec fn pending_weight() -> spec_fn(EntryView) -> nat {
    |e: EntryView| e.pending_targets()
}

/// Counts the pending creates of `client`.
pub open spec fn create_client_weight(client: ClientId) -> spec_fn(CreateOpeningView) -> nat {
    |c: CreateOpeningView|
        if c.open_client_id == client {
            1nat
        } else {
            0nat
        }
}

/// Counts the pending creates below `inode` that expire at `at`.
pub open spec fn create_path_weight(inode: InodeId, at: u64) -> spec_fn(CreateOpeningView) -> nat {
    |c: CreateOpeningView|
        if c.parent_ancestor_inode_ids.contains(inode) && c.expires_at_ms == at {
            1nat
        } else {
            0nat
        }
}

/// The block before the target at `index`.
pub open spec fn predecessor(targets: Seq<LocatedBlockView>, index: int) -> Option<BlockId> {
    if index == 0 {
        None
    } else {
        Some(targets[index - 1].block_id)
    }
}

/// The issued step with the given predecessor.
pub open spec fn find_step(steps: Seq<IssuedStep>, previous: Option<BlockId>) -> Option<IssuedStep>
    decreases steps.len(),
{
    if steps.len() == 0 {
        None
    } else if steps[0].previous_block_id == previous {
        Some(steps[0])
    } else {
        find_step(steps.drop_first(), previous)
    }
}

/// How many of the targets, from the first on, begin below `size`.
pub open spec fn retained_targets(targets: Seq<LocatedBlockView>, size: u64) -> nat
    decreases targets.len(),
{
    if targets.len() == 0 || targets[0].file_offset >= size {
        0
    } else {
        1 + retained_targets(targets.drop_first(), size)
    }
}

/// The steps whose target is among the first `kept`.
pub open spec fn retained_steps(steps: Seq<IssuedStep>, kept: nat) -> Seq<IssuedStep>
    decreases steps.len(),
{
    if steps.len() == 0 {
        Seq::empty()
    } else {
        let rest = retained_steps(steps.drop_last(), kept);
        if steps.last().target_index < kept {
            rest.push(steps.last())
        } else {
            rest
        }
    }
}

/// A step is found exactly where its predecessor occurs.
pub proof fn lemma_find_step(steps: Seq<IssuedStep>, previous: Option<BlockId>)
    ensures
        find_step(steps, previous) is None <==> forall|i: int|
            0 <= i < steps.len() ==> (#[trigger] steps[i]).previous_block_id != previous,
        find_step(steps, previous) is Some ==> exists|i: int|
            0 <= i < steps.len() && #[trigger] steps[i] == find_step(steps, previous)->0
                && steps[i].previous_block_id == previous,
    decreases steps.len(),
{
    if steps.len() > 0 {
        let rest = steps.drop_first();
        if steps[0].previous_block_id == previous {
            assert(steps[0] == find_step(steps, previous)->0);
        } else {
            lemma_find_step(rest, previous);
            if find_step(rest, previous) is Some {
                let i = choose|i: int|
                    0 <= i < rest.len() && #[trigger] rest[i] == find_step(rest, previous)->0
                        && rest[i].previous_block_id == previous;
                assert(steps[i + 1] == rest[i]);
            } else {
                assert forall|i: int| 0 <= i < steps.len() implies (
                #[trigger] steps[i]).previous_block_id != previous by {
                    if i > 0 {
                        assert(steps[i] == rest[i - 1]);
                        assert(rest[i - 1].previous_block_id != previous);
                    }
                }
            }
            if forall|i: int|
                0 <= i < steps.len() ==> (#[trigger] steps[i]).previous_block_id != previous {
                assert forall|i: int| 0 <= i < rest.len() implies (
                #[trigger] rest[i]).previous_block_id != previous by {
                    assert(rest[i] == steps[i + 1]);
                }
            }
        }
    }
}

/// The retained targets are a prefix, all of which begin below `size`.
pub proof fn lemma_retained_targets(targets: Seq<LocatedBlockView>, size: u64)
    ensures
        retained_targets(targets, size) <= targets.len(),
        forall|i: int|
            0 <= i < retained_targets(targets, size) ==> (#[trigger] targets[i]).file_offset
                < size,
        retained_targets(targets, size) < targets.len() ==> targets[retained_targets(
            targets,
            size,
        ) as int].file_offset >= size,
    decreases targets.len(),
{
    if targets.len() > 0 && targets[0].file_offset < size {
        let rest = targets.drop_first();
        lemma_retained_targets(rest, size);
        let kept = retained_targets(targets, size);
        assert forall|i: int| 0 <= i < kept implies (#[trigger] targets[i]).file_offset < size by {
            if i > 0 {
                assert(targets[i] == rest[i - 1]);
            }
        }
        if kept < targets.len() {
            assert(targets[kept as int] == rest[kept - 1]);
        }
    }
}

/// The retained steps are those whose target is retained, in their order.
pub proof fn lemma_retained_steps(steps: Seq<IssuedStep>, kept: nat)
    requires
        forall|i: int, j: int|
            0 <= i < j < steps.len() ==> (#[trigger] steps[i]).target_index < (
            #[trigger] steps[j]).target_index && steps[i].previous_block_id
                != steps[j].previous_block_id,
    ensures
        ({
            let r = retained_steps(steps, kept);
            &&& forall|i: int|
                0 <= i < r.len() ==> steps.contains(#[trigger] r[i]) && r[i].target_index < kept
            &&& forall|i: int, j: int|
                0 <= i < j < r.len() ==> (#[trigger] r[i]).target_index < (
                #[trigger] r[j]).target_index && r[i].previous_block_id
                    != r[j].previous_block_id
            &&& forall|i: int|
                0 <= i < steps.len() && (#[trigger] steps[i]).target_index < kept
                    ==> r.contains(steps[i])
        }),
    decreases steps.len(),
{
    if steps.len() > 0 {
        let front = steps.drop_last();
        let last = steps.last();
        assert forall|i: int, j: int| 0 <= i < j < front.len() implies (
        #[trigger] front[i]).target_index < (#[trigger] front[j]).target_index
            && front[i].previous_block_id != front[j].previous_block_id by {
            assert(front[i] == steps[i] && front[j] == steps[j]);
        }
        lemma_retained_steps(front, kept);
        let rest = retained_steps(front, kept);
        let r = retained_steps(steps, kept);
        assert forall|i: int| 0 <= i < rest.len() implies steps.contains(#[trigger] rest[i])
            && rest[i].target_index < last.target_index && rest[i].previous_block_id
            != last.previous_block_id by {
            assert(front.contains(rest[i]));
            let k = choose|k: int| 0 <= k < front.len() && front[k] == rest[i];
            assert(steps[k] == rest[i]);
            assert(steps[steps.len() - 1] == last);
        }
        assert(steps[steps.len() - 1] == last);
        assert forall|i: int|
            0 <= i < r.len() implies steps.contains(#[trigger] r[i]) && r[i].target_index < kept by {
            if i < rest.len() {
                assert(r[i] == rest[i]);
            }
        }
        assert forall|i: int, j: int| 0 <= i < j < r.len() implies (
        #[trigger] r[i]).target_index < (#[trigger] r[j]).target_index && r[i].previous_block_id
            != r[j].previous_block_id by {
            assert(r[i] == rest[i]);
            if j < rest.len() {
                assert(r[j] == rest[j]);
            }
        }
        assert forall|i: int|
            0 <= i < steps.len() && (#[trigger] steps[i]).target_index < kept implies r.contains(
            steps[i],
        ) by {
            if i < front.len() {
                assert(front[i] == steps[i]);
                assert(rest.contains(front[i]));
                let k = choose|k: int| 0 <= k < rest.len() && rest[k] == front[i];
                assert(r[k] == steps[i]);
            } else {
                assert(r[r.len() - 1] == last);
            }
        }
    }
}

impl WriteSessionView {
    /// The last block issued.
    pub open spec fn last_block(self) -> Option<BlockId> {
        predecessor(self.issued_targets, self.issued_targets.len() as int)
    }

    /// The file offset of the next target: behind the capacity of the last one, or where
    /// the mode says for the first. `None` on overflow.
    pub open spec fn next_offset(self) -> Option<u64> {
        if self.issued_targets.len() == 0 {
            Some(
                if self.mode == WriteMode::Overwrite {
                    0
                } else {
                    self.base_size
                },
            )
        } else {
            let last = self.issued_targets.last();
            if last.file_offset + last.block_size > u64::MAX {
                None
            } else {
                Some((last.file_offset + last.block_size) as u64)
            }
        }
    }

    /// The first reason why `target` cannot be issued next.
    pub open spec fn target_error(self, epoch: LeaseEpoch, target: LocatedBlockView) -> Option<
        InvalidTarget,
    > {
        let shape = BlockShape {
            block_format_id: target.block_format_id,
            block_size: target.block_size,
            chunk_size: target.chunk_size,
            effective_len: target.block_size,
        };
        let full = self.layout.block_size as u64;
        if target.block_id.inode_id != self.inode_id {
            Some(InvalidTarget::InodeMismatch)
        } else if target.fencing_token.block_id != target.block_id || target.fencing_token.owner
            != self.open_client_id || target.fencing_token.epoch != epoch {
            Some(InvalidTarget::FencingTokenMismatch)
        } else if self.next_offset() is None {
            Some(InvalidTarget::OffsetOverflow)
        } else if target.file_offset != self.next_offset()->0 {
            Some(
                InvalidTarget::OffsetChanged {
                    expected: self.next_offset()->0,
                    got: target.file_offset,
                },
            )
        } else if shape_error(shape) is Some {
            Some(InvalidTarget::TargetShape(shape_error(shape)->0))
        } else if layout_shape_error(self.layout, full) is Some {
            Some(InvalidTarget::LayoutShape(layout_shape_error(self.layout, full)->0))
        } else if shape != layout_shape(self.layout, full) {
            Some(InvalidTarget::ShapeMismatch)
        } else if target.write_offset != 0 {
            Some(InvalidTarget::NonZeroWriteOffset)
        } else {
            None
        }
    }

    /// Each target begins where the capacity of the one before it ends.
    pub open spec fn targets_contiguous(self) -> bool {
        forall|i: int, j: int|
            0 <= i && j == i + 1 && j < self.issued_targets.len() ==> (
            #[trigger] self.issued_targets[i]).file_offset + self.issued_targets[i].block_size == (
            #[trigger] self.issued_targets[j]).file_offset
    }

    /// The issued steps form one chain: each names the block before its target, and no
    /// predecessor and no target occurs twice.
    pub open spec fn steps_ok(self) -> bool {
        &&& forall|i: int|
            0 <= i < self.issued_steps.len() ==> (#[trigger] self.issued_steps[i]).target_index
                < self.issued_targets.len() && self.issued_steps[i].previous_block_id
                == predecessor(self.issued_targets, self.issued_steps[i].target_index as int)
        &&& forall|i: int, j: int|
            0 <= i < j < self.issued_steps.len() ==> (
            #[trigger] self.issued_steps[i]).target_index < (
            #[trigger] self.issued_steps[j]).target_index && self.issued_steps[i].previous_block_id
                != self.issued_steps[j].previous_block_id
    }

    /// What holds of every active session.
    pub open spec fn wf(self, key: u64, limits: RegistryLimits, next_publication_id: u64) -> bool {
        &&& self.inode_id.0 == key
        &&& chain_error(self.inode_id, self.ancestor_inode_ids) is None
        &&& EntryView::Active(self).owned_targets() <= limits.max_write_targets_per_session
        &&& self.targets_contiguous()
        &&& self.steps_ok()
        &&& self.pending_allocate_block is Some ==> {
            &&& self.pending_allocate_block->0.previous_block_id == self.last_block()
            &&& find_step(self.issued_steps, self.last_block()) is None
            &&& self.active_publication is None
        }
        &&& self.active_publication is Some ==> (self.active_publication->0).0 < next_publication_id
        &&& self.create_replay is Some ==> {
            let replay = self.create_replay->0;
            &&& replay.operation_id.client_id == self.open_client_id
            &&& replay.mount_id == self.mount_id
            &&& replay.response.inode_id == self.inode_id
            &&& replay.response.lease_epoch == self.lease_epoch
            &&& replay.response.layout == self.layout
        }
    }
}

impl RegistryView {
    /// The registry without sessions.
    pub open spec fn empty() -> RegistryView {
        RegistryView {
            entries: Map::empty(),
            creates: Map::empty(),
            next_opening_id: 1,
            next_publication_id: 1,
        }
    }

    /// Opening and active sessions of the process, pending creates among them.
    pub open spec fn occupied(self) -> nat {
        self.entries.dom().len() + self.creates.dom().len()
    }

    /// Opening and active sessions of one client.
    pub open spec fn client_occupied(self, client: ClientId) -> nat {
        total(self.entries, client_weight(client)) + total(
            self.creates,
            create_client_weight(client),
        )
    }

    /// Sessions below `inode` that are retired at `at`.
    pub open spec fn activity(self, inode: InodeId, at: u64) -> nat {
        total(self.entries, path_weight(inode, at)) + total(
            self.creates,
            create_path_weight(inode, at),
        )
    }

    /// Pending and issued targets of the process.
    pub open spec fn outstanding(self) -> nat {
        total(self.entries, owned_weight())
    }

    /// Pending targets of the process.
    pub open spec fn pending(self) -> nat {
        total(self.entries, pending_weight())
    }

    /// Entries that wait for durable fencing.
    pub open spec fn openings(self) -> nat {
        total(self.entries, opening_weight())
    }

    /// Whether a pending create holds the path.
    pub open spec fn path_held(self, mount: MountId, path: Seq<char>) -> bool {
        exists|op: CreateFileOperationId| #[trigger]
            self.creates.contains_key(op) && self.creates[op].mount_id == mount
                && self.creates[op].normalized_path == path
    }

    /// Whether some session that `op` can replay is active on `inode`.
    pub open spec fn replays(self, op: CreateFileOperationId, inode: u64) -> bool {
        self.entries.contains_key(inode) && self.entries[inode].replay_operation() == Some(op)
    }

    /// What holds of the entry of one inode.
    pub open spec fn entry_wf(self, key: u64, limits: RegistryLimits) -> bool {
        match self.entries[key] {
            EntryView::Opening(o) => {
                &&& o.inode_id.0 == key
                &&& chain_error(o.inode_id, o.ancestor_inode_ids) is None
                &&& o.opening_id.0 < self.next_opening_id
            },
            EntryView::Active(s) => s.wf(key, limits, self.next_publication_id),
        }
    }

    /// What holds of one pending create.
    pub open spec fn create_wf(self, op: CreateFileOperationId) -> bool {
        let c = self.creates[op];
        &&& c.operation_id == op
        &&& op.client_id == c.open_client_id
        &&& parent_chain_error(c.parent_ancestor_inode_ids) is None
        &&& c.opening_id.0 < self.next_opening_id
    }

    /// The invariant of the registry.
    pub open spec fn wf(self, limits: RegistryLimits) -> bool {
        &&& limits.valid()
        &&& self.entries.dom().finite()
        &&& self.creates.dom().finite()
        &&& forall|k: u64| #[trigger] self.entries.contains_key(k) ==> self.entry_wf(k, limits)
        &&& forall|op: CreateFileOperationId| #[trigger]
            self.creates.contains_key(op) ==> self.create_wf(op)
        &&& self.occupied() <= limits.max_sessions
        &&& forall|c: ClientId| #[trigger]
            self.client_occupied(c) <= limits.max_sessions_per_client
        &&& self.outstanding() <= limits.max_write_targets
        &&& self.creates_distinct()
        &&& self.replays_distinct()
    }

    /// No two pending creates share an opening identity or a path.
    pub open spec fn creates_distinct(self) -> bool {
        forall|a: CreateFileOperationId, b: CreateFileOperationId|
            #![trigger self.creates.contains_key(a), self.creates.contains_key(b)]
            self.creates.contains_key(a) && self.creates.contains_key(b) && a != b ==> {
                &&& self.creates[a].opening_id != self.creates[b].opening_id
                &&& !(self.creates[a].mount_id == self.creates[b].mount_id
                    && self.creates[a].normalized_path == self.creates[b].normalized_path)
            }
    }

    /// An operation is pending or active on one inode, never more.
    pub open spec fn replays_distinct(self) -> bool {
        &&& forall|op: CreateFileOperationId, j: u64, k: u64| #[trigger]
            self.replays(op, j) && #[trigger] self.replays(op, k) ==> j == k
        &&& forall|op: CreateFileOperationId, k: u64| #[trigger]
            self.replays(op, k) ==> !self.creates.contains_key(op)
    }

    /// The registry with another entry for `key`.
    pub open spec fn with_entry(self, key: u64, entry: EntryView) -> RegistryView {
        RegistryView { entries: self.entries.insert(key, entry), ..self }
    }

    /// The registry without the entry of `key`.
    pub open spec fn without_entry(self, key: u64) -> RegistryView {
        RegistryView { entries: self.entries.remove(key), ..self }
    }

    /// The registry with a pending create.
    pub open spec fn with_create(self, create: CreateOpeningView) -> RegistryView {
        RegistryView { creates: self.creates.insert(create.operation_id, create), ..self }
    }

    /// The registry without the pending create of `op`.
    pub open spec fn without_create(self, op: CreateFileOperationId) -> RegistryView {
        RegistryView { creates: self.creates.remove(op), ..self }
    }

    // ---- expiry ----

    /// Whether `key` is the entry to be retired first: the earliest, and among equals the
    /// smallest inode.
    pub open spec fn is_next_entry(self, key: u64) -> bool {
        &&& self.entries.contains_key(key)
        &&& forall|j: u64| #[trigger]
            self.entries.contains_key(j) ==> pair_le(
                (self.entries[key].retirement_at_ms(), key),
                (self.entries[j].retirement_at_ms(), j),
            )
    }

    /// The entry to be retired first.
    pub open spec fn next_entry(self) -> u64 {
        choose|key: u64| self.is_next_entry(key)
    }

    /// Whether `op` is the pending create to be retired first: the earliest, and among
    /// equals the one that was opened first.
    pub open spec fn is_next_create(self, op: CreateFileOperationId) -> bool {
        &&& self.creates.contains_key(op)
        &&& forall|o: CreateFileOperationId| #[trigger]
            self.creates.contains_key(o) ==> pair_le(
                (self.creates[op].expires_at_ms, self.creates[op].opening_id.0),
                (self.creates[o].expires_at_ms, self.creates[o].opening_id.0),
            )
    }

    /// The pending create to be retired first.
    pub open spec fn next_create(self) -> CreateFileOperationId {
        choose|op: CreateFileOperationId| self.is_next_create(op)
    }

    /// Whether a pending create is retired before any entry: only where it is earlier.
    pub open spec fn create_is_next(self) -> bool {
        &&& self.creates.dom().len() > 0
        &&& self.entries.dom().len() == 0 || self.creates[self.next_create()].expires_at_ms
            < self.entries[self.next_entry()].retirement_at_ms()
    }

    /// Whether there is an expired session or create.
    pub open spec fn has_expired(self, now_ms: u64) -> bool {
        if self.create_is_next() {
            self.creates[self.next_create()].expires_at_ms <= now_ms
        } else {
            self.entries.dom().len() > 0 && self.entries[self.next_entry()].retirement_at_ms()
                <= now_ms
        }
    }

    /// The entries that are expired.
    pub open spec fn expired_entries(self, now_ms: u64) -> Set<u64> {
        self.entries.dom().filter(|k: u64| self.entries[k].retirement_at_ms() <= now_ms)
    }

    /// The pending creates that are expired.
    pub open spec fn expired_creates(self, now_ms: u64) -> Set<CreateFileOperationId> {
        self.creates.dom().filter(
            |o: CreateFileOperationId| self.creates[o].expires_at_ms <= now_ms,
        )
    }

    /// How many sessions and creates are expired.
    pub open spec fn expired_count(self, now_ms: u64) -> nat {
        self.expired_entries(now_ms).len() + self.expired_creates(now_ms).len()
    }

    /// The registry without the session or create that is to be retired first.
    pub open spec fn without_next(self) -> RegistryView {
        if self.create_is_next() {
            self.without_create(self.next_create())
        } else {
            self.without_entry(self.next_entry())
        }
    }

    /// The registry after at most `budget` expired sessions were retired, earliest first.
    pub open spec fn swept(self, now_ms: u64, budget: nat) -> RegistryView
        decreases budget,
    {
        if budget == 0 || !self.has_expired(now_ms) {
            self
        } else {
            self.without_next().swept(now_ms, (budget - 1) as nat)
        }
    }

    /// How many sessions such a sweep retires.
    pub open spec fn swept_count(self, now_ms: u64, budget: nat) -> nat
        decreases budget,
    {
        if budget == 0 || !self.has_expired(now_ms) {
            0
        } else {
            1 + self.without_next().swept_count(now_ms, (budget - 1) as nat)
        }
    }

    /// The registry after one bounded sweep.
    pub open spec fn sweep(self, now_ms: u64) -> RegistryView {
        self.swept(now_ms, MAX_EXPIRED_SESSION_RETIREMENTS_PER_CALL as nat)
    }

    /// The registry after the entry of one inode was retired if it is expired.
    pub open spec fn retire_inode(self, key: u64, now_ms: u64) -> RegistryView {
        if self.entries.contains_key(key) && self.entries[key].retirement_at_ms() <= now_ms {
            self.without_entry(key)
        } else {
            self
        }
    }

    /// The registry after the pending create of one operation was retired if it is expired.
    pub open spec fn retire_create(self, op: CreateFileOperationId, now_ms: u64) -> RegistryView {
        if self.creates.contains_key(op) && self.creates[op].expires_at_ms <= now_ms {
            self.without_create(op)
        } else {
            self
        }
    }

    /// The registry after the requested inode was looked at and one sweep was made.
    pub open spec fn tidied(self, key: u64, now_ms: u64) -> RegistryView {
        self.retire_inode(key, now_ms).sweep(now_ms)
    }

    /// Whether a session or create below `inode` is not yet to be retired.
    pub open spec fn writes_under(self, inode: InodeId, now_ms: u64) -> bool {
        ||| exists|k: u64| #[trigger]
            self.entries.contains_key(k) && self.entries[k].ancestors().contains(inode)
                && self.entries[k].retirement_at_ms() > now_ms
        ||| exists|op: CreateFileOperationId| #[trigger]
            self.creates.contains_key(op) && self.creates[op].parent_ancestor_inode_ids.contains(
                inode,
            ) && self.creates[op].expires_at_ms > now_ms
    }

    // ---- opening ----

    /// The capacity boundary that rejects one more session of `client`.
    pub open spec fn session_limit(self, limits: RegistryLimits, client: ClientId) -> Option<
        WriteSessionLimitExceeded,
    > {
        if self.occupied() >= limits.max_sessions {
            Some(
                WriteSessionLimitExceeded {
                    limit: WriteSessionLimit::Global,
                    maximum: limits.max_sessions,
                },
            )
        } else if self.client_occupied(client) >= limits.max_sessions_per_client {
            Some(
                WriteSessionLimitExceeded {
                    limit: WriteSessionLimit::PerClient,
                    maximum: limits.max_sessions_per_client,
                },
            )
        } else {
            None
        }
    }

    /// When a session that begins at `now_ms` expires.
    pub open spec fn expiry(limits: RegistryLimits, now_ms: u64) -> u64 {
        if now_ms + limits.session_ttl_ms > u64::MAX {
            u64::MAX
        } else {
            (now_ms + limits.session_ttl_ms) as u64
        }
    }

    /// What beginning a write session does.
    pub open spec fn begin_session(
        self,
        limits: RegistryLimits,
        input: BeginSessionInputView,
        now_ms: u64,
    ) -> (RegistryView, Result<WriteOpening, BeginSessionError>) {
        let v = self.tidied(input.inode_id.0, now_ms);
        if chain_error(input.inode_id, input.ancestor_inode_ids) is Some {
            (self, Err(BeginSessionError::InvalidAncestorChain))
        } else if v.entries.contains_key(input.inode_id.0) || v.path_held(
            input.mount_id,
            input.normalized_path,
        ) {
            (v, Err(BeginSessionError::Busy))
        } else if v.session_limit(limits, input.open_client_id) is Some {
            (
                v,
                Err(
                    BeginSessionError::LimitExceeded(
                        v.session_limit(limits, input.open_client_id)->0,
                    ),
                ),
            )
        } else if input.current_lease_epoch.next() is None {
            (v, Err(BeginSessionError::LeaseEpochExhausted))
        } else if v.next_opening_id == u64::MAX {
            (v, Err(BeginSessionError::OpeningIdExhausted))
        } else {
            let proposed_lease_epoch = input.current_lease_epoch.next()->0;
            let opening_id = WriteOpeningId(v.next_opening_id);
            let opening = OpeningSessionView {
                opening_id,
                inode_id: input.inode_id,
                mount_id: input.mount_id,
                proposed_lease_epoch,
                mode: input.mode,
                open_client_id: input.open_client_id,
                layout: input.layout,
                expires_at_ms: Self::expiry(limits, now_ms),
                ancestor_inode_ids: input.ancestor_inode_ids,
            };
            (
                RegistryView { next_opening_id: (v.next_opening_id + 1) as u64, ..v }.with_entry(
                    input.inode_id.0,
                    EntryView::Opening(opening),
                ),
                Ok(WriteOpening { inode_id: input.inode_id, opening_id, proposed_lease_epoch }),
            )
        }
    }

    /// Whether a create is the same request as the one that is replayed.
    pub open spec fn same_request(
        input: BeginCreateSessionInputView,
        request_deadline_ms: u64,
        normalized_path: Seq<char>,
        mount_id: MountId,
        expected_mount_epoch: u64,
        mount_root_inode_id: InodeId,
    ) -> bool {
        &&& input.request_deadline_ms == request_deadline_ms
        &&& input.normalized_path == normalized_path
        &&& input.mount_id == mount_id
        &&& input.expected_mount_epoch == expected_mount_epoch
        &&& input.mount_root_inode_id == mount_root_inode_id
    }

    /// Whether the operation has an active session.
    pub open spec fn is_replayable(self, op: CreateFileOperationId) -> bool {
        exists|k: u64| self.replays(op, k)
    }

    /// What the operation's active session replays.
    pub open spec fn replay_of(self, op: CreateFileOperationId) -> ActiveCreateReplayView {
        self.entries[choose|k: u64| self.replays(op, k)]->Active_0.create_replay->0
    }

    /// What reserving a create does.
    pub open spec fn begin_create_session(
        self,
        limits: RegistryLimits,
        input: BeginCreateSessionInputView,
        now_ms: u64,
    ) -> (RegistryView, Result<BeginCreateSession, BeginCreateSessionError>) {
        let op = input.operation_id;
        let v = self.retire_create(op, now_ms).sweep(now_ms);
        if op.client_id != input.open_client_id {
            (self, Err(BeginCreateSessionError::IdentityMismatch))
        } else if parent_chain_error(input.parent_ancestor_inode_ids) is Some {
            (self, Err(BeginCreateSessionError::InvalidAncestorChain))
        } else if v.is_replayable(op) {
            let replay = v.replay_of(op);
            if Self::same_request(
                input,
                replay.request_deadline_ms,
                replay.normalized_path,
                replay.mount_id,
                replay.expected_mount_epoch,
                replay.mount_root_inode_id,
            ) {
                (v, Ok(BeginCreateSession::Replay(replay.response)))
            } else {
                (v, Err(BeginCreateSessionError::IdentityMismatch))
            }
        } else if v.creates.contains_key(op) {
            let pending = v.creates[op];
            if Self::same_request(
                input,
                pending.request_deadline_ms,
                pending.normalized_path,
                pending.mount_id,
                pending.expected_mount_epoch,
                pending.mount_root_inode_id,
            ) {
                (v, Err(BeginCreateSessionError::Pending))
            } else {
                (v, Err(BeginCreateSessionError::IdentityMismatch))
            }
        } else if v.path_held(input.mount_id, input.normalized_path) {
            (v, Err(BeginCreateSessionError::PathBusy))
        } else if v.session_limit(limits, input.open_client_id) is Some {
            (
                v,
                Err(
                    BeginCreateSessionError::LimitExceeded(
                        v.session_limit(limits, input.open_client_id)->0,
                    ),
                ),
            )
        } else if v.next_opening_id == u64::MAX {
            (v, Err(BeginCreateSessionError::OpeningIdExhausted))
        } else {
            let opening_id = WriteOpeningId(v.next_opening_id);
            let expires_at_ms = Self::expiry(limits, now_ms);
            let create = CreateOpeningView {
                opening_id,
                operation_id: op,
                request_deadline_ms: input.request_deadline_ms,
                normalized_path: input.normalized_path,
                mount_id: input.mount_id,
                expected_mount_epoch: input.expected_mount_epoch,
                mount_root_inode_id: input.mount_root_inode_id,
                open_client_id: input.open_client_id,
                expires_at_ms,
                parent_ancestor_inode_ids: input.parent_ancestor_inode_ids,
            };
            (
                RegistryView { next_opening_id: (v.next_opening_id + 1) as u64, ..v }.with_create(
                    create,
                ),
                Ok(
                    BeginCreateSession::Reserved(
                        CreateOpening { operation_id: op, opening_id, expires_at_ms },
                    ),
                ),
            )
        }
    }

    /// Whether the inode's entry is the opening with this identity.
    pub open spec fn is_current_opening(self, inode: InodeId, opening_id: WriteOpeningId) -> bool {
        &&& self.entries.contains_key(inode.0)
        &&& self.entries[inode.0] is Opening
        &&& self.entries[inode.0]->Opening_0.opening_id == opening_id
    }

    /// What installing the durable result of an opening does.
    pub open spec fn activate_opening(
        self,
        limits: RegistryLimits,
        inode: InodeId,
        opening_id: WriteOpeningId,
        returned: LeaseEpoch,
        now_ms: u64,
        file: FileData,
        tail: Option<LocatedBlockView>,
    ) -> (RegistryView, Result<WriteSessionView, WriteOpeningError>) {
        let o = self.entries[inode.0]->Opening_0;
        if !self.is_current_opening(inode, opening_id) {
            (self, Err(WriteOpeningError::NotCurrent))
        } else if o.expires_at_ms <= now_ms {
            (self.without_entry(inode.0), Err(WriteOpeningError::Expired))
        } else if o.proposed_lease_epoch != returned {
            (
                self,
                Err(
                    WriteOpeningError::LeaseEpochMismatch {
                        expected: o.proposed_lease_epoch,
                        got: returned,
                    },
                ),
            )
        } else if file.lease_epoch != returned || file.layout != o.layout {
            (self, Err(WriteOpeningError::NotCurrent))
        } else if tail is Some && self.outstanding() >= limits.max_write_targets {
            (self, Err(WriteOpeningError::TargetLimit))
        } else {
            let session = WriteSessionView {
                inode_id: o.inode_id,
                mount_id: o.mount_id,
                lease_epoch: o.proposed_lease_epoch,
                base_size: file.len,
                generation: file.generation,
                mode: o.mode,
                open_client_id: o.open_client_id,
                layout: o.layout,
                expires_at_ms: o.expires_at_ms,
                ancestor_inode_ids: o.ancestor_inode_ids,
                issued_targets: match tail {
                    Some(t) => seq![t],
                    None => Seq::empty(),
                },
                issued_steps: Seq::empty(),
                pending_allocate_block: None,
                active_publication: None,
                publication_submitted: false,
                create_replay: None,
            };
            (self.with_entry(inode.0, EntryView::Active(session)), Ok(session))
        }
    }

    /// Whether the operation's pending create is the one with this identity.
    pub open spec fn is_current_create(
        self,
        op: CreateFileOperationId,
        opening_id: WriteOpeningId,
    ) -> bool {
        self.creates.contains_key(op) && self.creates[op].opening_id == opening_id
    }

    /// What installing the durable result of a create does.
    pub open spec fn activate_create_opening(
        self,
        op: CreateFileOperationId,
        opening_id: WriteOpeningId,
        inode: InodeId,
        lease_epoch: LeaseEpoch,
        expires_at_ms: u64,
        layout: FileLayout,
        generation: ContentGeneration,
        now_ms: u64,
    ) -> (RegistryView, Result<WriteSessionView, WriteOpeningError>) {
        let c = self.creates[op];
        let ancestors = c.parent_ancestor_inode_ids.push(inode);
        if !self.is_current_create(op, opening_id) {
            (self, Err(WriteOpeningError::NotCurrent))
        } else if c.expires_at_ms <= now_ms || expires_at_ms <= now_ms {
            (self.without_create(op), Err(WriteOpeningError::Expired))
        } else if lease_epoch.0 == 0 || self.entries.contains_key(inode.0) || chain_error(
            inode,
            ancestors,
        ) is Some {
            (self, Err(WriteOpeningError::NotCurrent))
        } else {
            let response = CreateSessionReplay {
                inode_id: inode,
                lease_epoch,
                layout,
                expires_at_ms,
                generation,
            };
            let session = WriteSessionView {
                inode_id: inode,
                mount_id: c.mount_id,
                lease_epoch,
                base_size: 0,
                generation,
                mode: WriteMode::Overwrite,
                open_client_id: c.open_client_id,
                layout,
                expires_at_ms,
                ancestor_inode_ids: ancestors,
                issued_targets: Seq::empty(),
                issued_steps: Seq::empty(),
                pending_allocate_block: None,
                active_publication: None,
                publication_submitted: false,
                create_replay: Some(
                    ActiveCreateReplayView {
                        operation_id: op,
                        request_deadline_ms: c.request_deadline_ms,
                        normalized_path: c.normalized_path,
                        mount_id: c.mount_id,
                        expected_mount_epoch: c.expected_mount_epoch,
                        mount_root_inode_id: c.mount_root_inode_id,
                        response,
                    },
                ),
            };
            (
                self.without_create(op).with_entry(inode.0, EntryView::Active(session)),
                Ok(session),
            )
        }
    }

    /// What giving an opening up does: only the matching one is removed.
    pub open spec fn cancel_opening(
        self,
        inode: InodeId,
        opening_id: WriteOpeningId,
    ) -> RegistryView {
        if self.is_current_opening(inode, opening_id) {
            self.without_entry(inode.0)
        } else {
            self
        }
    }

    /// What giving a pending create up does: only the matching one is removed.
    pub open spec fn cancel_create_opening(
        self,
        op: CreateFileOperationId,
        opening_id: WriteOpeningId,
    ) -> RegistryView {
        if self.is_current_create(op, opening_id) {
            self.without_create(op)
        } else {
            self
        }
    }

    // ---- active sessions ----

    /// Why the inode has no active session with this epoch.
    pub open spec fn session_error(self, inode: InodeId, epoch: LeaseEpoch) -> Option<
        SessionStateError,
    > {
        if !self.entries.contains_key(inode.0) {
            Some(SessionStateError::NotFound)
        } else if self.entries[inode.0] is Opening {
            Some(SessionStateError::StillOpening)
        } else if self.entries[inode.0]->Active_0.lease_epoch != epoch {
            Some(SessionStateError::LeaseEpochMismatch)
        } else {
            None
        }
    }

    /// The active session of the inode.
    pub open spec fn session(self, inode: InodeId) -> WriteSessionView {
        self.entries[inode.0]->Active_0
    }

    /// The registry with another active session for its inode.
    pub open spec fn with_session(self, session: WriteSessionView) -> RegistryView {
        self.with_entry(session.inode_id.0, EntryView::Active(session))
    }

    /// The active session of the inode, if it has one.
    pub open spec fn find_session(self, inode: InodeId) -> Option<WriteSessionView> {
        if self.entries.contains_key(inode.0) && self.entries[inode.0] is Active {
            Some(self.entries[inode.0]->Active_0)
        } else {
            None
        }
    }

    /// What beginning an allocation step does.
    pub open spec fn begin_allocate_block(
        self,
        limits: RegistryLimits,
        inode: InodeId,
        epoch: LeaseEpoch,
        previous: Option<BlockId>,
        now_ms: u64,
    ) -> (RegistryView, Result<BeginAllocateBlockView, BeginAllocateBlockError>) {
        let v = self.tidied(inode.0, now_ms);
        let s = v.session(inode);
        if v.session_error(inode, epoch) is Some {
            (v, Err(BeginAllocateBlockError::Session(v.session_error(inode, epoch)->0)))
        } else if find_step(s.issued_steps, previous) is Some {
            (
                v,
                Ok(
                    BeginAllocateBlockView::Replay(
                        s.issued_targets[find_step(
                            s.issued_steps,
                            previous,
                        )->0.target_index as int],
                    ),
                ),
            )
        } else if s.active_publication is Some {
            (v, Err(BeginAllocateBlockError::PublicationInProgress))
        } else if previous != s.last_block() {
            (
                v,
                Err(
                    BeginAllocateBlockError::InvalidArgument(
                        InvalidAllocation::PredecessorMismatch {
                            expected: s.last_block(),
                            got: previous,
                        },
                    ),
                ),
            )
        } else if s.pending_allocate_block is Some {
            (v, Err(BeginAllocateBlockError::Pending))
        } else if s.next_offset() is None {
            (v, Err(BeginAllocateBlockError::InvalidArgument(InvalidAllocation::OffsetOverflow)))
        } else if s.issued_targets.len() >= limits.max_write_targets_per_session {
            (
                v,
                Err(
                    BeginAllocateBlockError::LimitExceeded(
                        WriteTargetLimitExceeded {
                            limit: WriteTargetLimit::PerSession,
                            maximum: limits.max_write_targets_per_session,
                        },
                    ),
                ),
            )
        } else if v.outstanding() >= limits.max_write_targets {
            (
                v,
                Err(
                    BeginAllocateBlockError::LimitExceeded(
                        WriteTargetLimitExceeded {
                            limit: WriteTargetLimit::Global,
                            maximum: limits.max_write_targets,
                        },
                    ),
                ),
            )
        } else {
            let pending = PendingAllocateBlock { previous_block_id: previous };
            (
                v.with_session(WriteSessionView { pending_allocate_block: Some(pending), ..s }),
                Ok(
                    BeginAllocateBlockView::Reserved(
                        WriteTargetReservation {
                            inode_id: inode,
                            lease_epoch: epoch,
                            pending,
                            layout: s.layout,
                            open_client_id: s.open_client_id,
                            file_offset: s.next_offset()->0,
                        },
                    ),
                ),
            )
        }
    }

    /// Whether the inode's active session has this epoch and this pending step.
    pub open spec fn is_current_pending(
        self,
        inode: InodeId,
        epoch: LeaseEpoch,
        pending: PendingAllocateBlock,
    ) -> bool {
        &&& self.session_error(inode, epoch) is None
        &&& self.session(inode).pending_allocate_block == Some(pending)
    }

    /// What giving a pending step up does: only the matching one is released.
    pub open spec fn cancel_write_target(
        self,
        inode: InodeId,
        epoch: LeaseEpoch,
        pending: PendingAllocateBlock,
    ) -> RegistryView {
        if self.is_current_pending(inode, epoch, pending) {
            self.with_session(
                WriteSessionView { pending_allocate_block: None, ..self.session(inode) },
            )
        } else {
            self
        }
    }

    /// What completing a pending step with a target does.
    pub open spec fn complete_write_target(
        self,
        inode: InodeId,
        epoch: LeaseEpoch,
        pending: PendingAllocateBlock,
        target: LocatedBlockView,
        now_ms: u64,
    ) -> (RegistryView, Result<LocatedBlockView, CompleteWriteTargetError>) {
        let v = self.tidied(inode.0, now_ms);
        let s = v.session(inode);
        if !v.is_current_pending(inode, epoch, pending) {
            (v, Err(CompleteWriteTargetError::NotCurrent))
        } else if s.target_error(epoch, target) is Some {
            (
                v.cancel_write_target(inode, epoch, pending),
                Err(CompleteWriteTargetError::InvalidTarget(s.target_error(epoch, target)->0)),
            )
        } else {
            let step = IssuedStep {
                previous_block_id: pending.previous_block_id,
                target_index: s.issued_targets.len() as usize,
            };
            (
                v.with_session(
                    WriteSessionView {
                        issued_targets: s.issued_targets.push(target),
                        issued_steps: s.issued_steps.push(step),
                        pending_allocate_block: None,
                        ..s
                    },
                ),
                Ok(target),
            )
        }
    }

    /// What freezing the issued targets for a publication does.
    pub open spec fn begin_publication(self, inode: InodeId, epoch: LeaseEpoch, now_ms: u64) -> (
        RegistryView,
        Result<WritePublicationView, BeginWritePublicationError>,
    ) {
        let v = self.tidied(inode.0, now_ms);
        let s = v.session(inode);
        if v.session_error(inode, epoch) is Some {
            (v, Err(BeginWritePublicationError::Session(v.session_error(inode, epoch)->0)))
        } else if s.pending_allocate_block is Some {
            (v, Err(BeginWritePublicationError::AllocateBlockPending))
        } else if s.active_publication is Some {
            (v, Err(BeginWritePublicationError::PublicationInProgress))
        } else if v.next_publication_id == u64::MAX {
            (v, Err(BeginWritePublicationError::PublicationIdExhausted))
        } else {
            let publication_id = WritePublicationId(v.next_publication_id);
            let session = WriteSessionView { active_publication: Some(publication_id), ..s };
            (
                RegistryView {
                    next_publication_id: (v.next_publication_id + 1) as u64,
                    ..v
                }.with_session(session),
                Ok(WritePublicationView { session, publication_id, submitted: false }),
            )
        }
    }

    /// Why the publication does not own the inode's active session.
    pub open spec fn publication_error(
        self,
        inode: InodeId,
        epoch: LeaseEpoch,
        id: WritePublicationId,
    ) -> Option<PublicationError> {
        if self.session_error(inode, epoch) is Some {
            Some(PublicationError::Session(self.session_error(inode, epoch)->0))
        } else if self.session(inode).active_publication != Some(id) {
            Some(PublicationError::NotCurrent)
        } else {
            None
        }
    }

    /// What looking a publication up again does.
    pub open spec fn revalidate_publication(
        self,
        inode: InodeId,
        epoch: LeaseEpoch,
        id: WritePublicationId,
        now_ms: u64,
    ) -> (RegistryView, Result<WriteSessionView, PublicationError>) {
        let v = self.tidied(inode.0, now_ms);
        match v.publication_error(inode, epoch, id) {
            Some(e) => (v, Err(e)),
            None => (v, Ok(v.session(inode))),
        }
    }

    /// What submitting a publication does: it pins the session until the publication is
    /// resolved.
    pub open spec fn mark_submitted(
        self,
        publication: WritePublicationView,
        now_ms: u64,
    ) -> (RegistryView, Result<(), PublicationError>) {
        let inode = publication.session.inode_id;
        let s = self.session(inode);
        let lookup = self.session_error(inode, s.lease_epoch);
        if publication.submitted {
            (self, Ok(()))
        } else if publication.session.lease_epoch.next() is None {
            (self, Err(PublicationError::LeaseEpochExhausted))
        } else if lookup is Some {
            (self, Err(PublicationError::Session(lookup->0)))
        } else if s.lease_epoch != publication.session.lease_epoch || s.active_publication != Some(
            publication.publication_id,
        ) || s.expires_at_ms <= now_ms {
            (self, Err(PublicationError::ChangedOrExpired))
        } else {
            (self.with_session(WriteSessionView { publication_submitted: true, ..s }), Ok(()))
        }
    }

    /// What completing a sync does.
    pub open spec fn complete_sync_publication(
        self,
        inode: InodeId,
        epoch: LeaseEpoch,
        id: WritePublicationId,
        generation: ContentGeneration,
        file_size: u64,
        now_ms: u64,
    ) -> (RegistryView, Result<(), PublicationError>) {
        let v = self.tidied(inode.0, now_ms);
        let s = v.session(inode);
        if v.publication_error(inode, epoch, id) is Some {
            (v, Err(v.publication_error(inode, epoch, id)->0))
        } else if s.generation == generation {
            if s.base_size != file_size {
                (
                    v,
                    Err(
                        PublicationError::ReplaySizeChanged {
                            expected: s.base_size,
                            got: file_size,
                        },
                    ),
                )
            } else {
                (
                    v.with_session(
                        WriteSessionView {
                            mode: WriteMode::Append,
                            active_publication: None,
                            publication_submitted: false,
                            ..s
                        },
                    ),
                    Ok(()),
                )
            }
        } else if s.generation.next() is None {
            (v, Err(PublicationError::GenerationOverflow))
        } else if generation != s.generation.next()->0 {
            (
                v,
                Err(
                    PublicationError::GenerationChanged {
                        due: s.generation.next()->0,
                        given: generation,
                    },
                ),
            )
        } else {
            let kept = retained_targets(s.issued_targets, file_size);
            (
                v.with_session(
                    WriteSessionView {
                        issued_targets: s.issued_targets.take(kept as int),
                        issued_steps: retained_steps(s.issued_steps, kept),
                        generation,
                        base_size: file_size,
                        mode: WriteMode::Append,
                        active_publication: None,
                        publication_submitted: false,
                        ..s
                    },
                ),
                Ok(()),
            )
        }
    }

    /// What completing a commit does: only the session that the publication owns is
    /// removed.
    pub open spec fn complete_commit_publication(
        self,
        inode: InodeId,
        epoch: LeaseEpoch,
        id: WritePublicationId,
    ) -> RegistryView {
        if self.publication_error(inode, epoch, id) is None {
            self.without_entry(inode.0)
        } else {
            self
        }
    }

    /// What giving a publication up does: only the matching one is released.
    pub open spec fn cancel_publication(
        self,
        inode: InodeId,
        epoch: LeaseEpoch,
        id: WritePublicationId,
    ) -> RegistryView {
        if self.publication_error(inode, epoch, id) is None {
            self.with_session(WriteSessionView { active_publication: None, ..self.session(inode) })
        } else {
            self
        }
    }

    /// What removing the session with an epoch does.
    pub open spec fn remove_session_if_epoch(self, inode: InodeId, epoch: LeaseEpoch) -> (
        RegistryView,
        Option<WriteSessionView>,
    ) {
        if self.session_error(inode, epoch) is None {
            (self.without_entry(inode.0), Some(self.session(inode)))
        } else {
            (self, None)
        }
    }

    /// Whether the inode's entry is past its lease deadline.
    pub open spec fn is_past_deadline(self, inode: InodeId, now_ms: u64) -> bool {
        self.entries.contains_key(inode.0) && self.entries[inode.0].expires_at_ms() <= now_ms
    }

    /// What validating an epoch does.
    pub open spec fn validate_session(self, inode: InodeId, epoch: LeaseEpoch, now_ms: u64) -> (
        RegistryView,
        Result<(), WriteSessionError>,
    ) {
        if self.is_past_deadline(inode, now_ms) {
            (self.retire_inode(inode.0, now_ms), Err(WriteSessionError::Expired))
        } else {
            let v = self.sweep(now_ms);
            match v.find_session(inode) {
                None => (v, Err(WriteSessionError::NotFound)),
                Some(s) => if s.lease_epoch != epoch {
                    (
                        v,
                        Err(
                            WriteSessionError::LeaseEpochMismatch {
                                expected: s.lease_epoch,
                                got: epoch,
                            },
                        ),
                    )
                } else {
                    (v, Ok(()))
                },
            }
        }
    }

    /// What renewing a lease does. A renewal never moves the deadline back.
    pub open spec fn renew_session(
        self,
        limits: RegistryLimits,
        inode: InodeId,
        epoch: LeaseEpoch,
        client: ClientId,
        now_ms: u64,
    ) -> (RegistryView, Result<u64, WriteSessionError>) {
        let checked = self.validate_session(inode, epoch, now_ms);
        let v = checked.0;
        match checked.1 {
            Err(e) => (v, Err(e)),
            Ok(()) => {
                let s = v.session(inode);
                if s.open_client_id != client {
                    (v, Err(WriteSessionError::OwnerMismatch))
                } else {
                    let renewed = Self::expiry(limits, now_ms);
                    let expires_at_ms = if renewed > s.expires_at_ms {
                        renewed
                    } else {
                        s.expires_at_ms
                    };
                    (v.with_session(WriteSessionView { expires_at_ms, ..s }), Ok(expires_at_ms))
                }
            },
        }
    }

    /// The small snapshot of the inode's active session.
    pub open spec fn session_identity(self, inode: InodeId) -> Option<WriteSessionIdentity> {
        match self.find_session(inode) {
            Some(s) => Some(
                WriteSessionIdentity {
                    mount_id: s.mount_id,
                    lease_epoch: s.lease_epoch,
                    open_client_id: s.open_client_id,
                },
            ),
            None => None,
        }
    }
}

// ---- the invariant under the primitive changes ----

pub proof fn lemma_without_entry(v: RegistryView, limits: RegistryLimits, key: u64)
    requires
        v.wf(limits),
    ensures
        v.without_entry(key).wf(limits),
{
    let w = v.without_entry(key);
    if v.entries.contains_key(key) {
        assert forall|c: ClientId| #[trigger]
            w.client_occupied(c) <= limits.max_sessions_per_client by {
            total_remove(v.entries, client_weight(c), key);
            assert(v.client_occupied(c) <= limits.max_sessions_per_client);
        }
        total_remove(v.entries, owned_weight(), key);
        assert forall|k: u64| #[trigger] w.entries.contains_key(k) implies w.entry_wf(
            k,
            limits,
        ) by {
            assert(v.entries.contains_key(k));
            assert(v.entry_wf(k, limits));
        }
        assert forall|op: CreateFileOperationId| #[trigger]
            w.creates.contains_key(op) implies w.create_wf(op) by {
            assert(v.create_wf(op));
        }
        assert forall|op: CreateFileOperationId, j: u64, k: u64| #[trigger]
            w.replays(op, j) && #[trigger] w.replays(op, k) implies j == k by {
            assert(v.replays(op, j) && v.replays(op, k));
        }
        assert forall|op: CreateFileOperationId, k: u64| #[trigger]
            w.replays(op, k) implies !w.creates.contains_key(op) by {
            assert(v.replays(op, k));
        }
    } else {
        assert(w.entries =~= v.entries);
    }
}

pub proof fn lemma_without_create(
    v: RegistryView,
    limits: RegistryLimits,
    op: CreateFileOperationId,
)
    requires
        v.wf(limits),
    ensures
        v.without_create(op).wf(limits),
{
    let w = v.without_create(op);
    if v.creates.contains_key(op) {
        assert forall|c: ClientId| #[trigger]
            w.client_occupied(c) <= limits.max_sessions_per_client by {
            total_remove(v.creates, create_client_weight(c), op);
            assert(v.client_occupied(c) <= limits.max_sessions_per_client);
        }
        assert forall|k: u64| #[trigger] w.entries.contains_key(k) implies w.entry_wf(
            k,
            limits,
        ) by {
            assert(v.entry_wf(k, limits));
        }
        assert forall|o: CreateFileOperationId| #[trigger]
            w.creates.contains_key(o) implies w.create_wf(o) by {
            assert(v.creates.contains_key(o));
            assert(v.create_wf(o));
        }
        assert forall|a: CreateFileOperationId, b: CreateFileOperationId|
            #![trigger w.creates.contains_key(a), w.creates.contains_key(b)]
            w.creates.contains_key(a) && w.creates.contains_key(b) && a != b implies {
            &&& w.creates[a].opening_id != w.creates[b].opening_id
            &&& !(w.creates[a].mount_id == w.creates[b].mount_id && w.creates[a].normalized_path
                == w.creates[b].normalized_path)
        } by {
            assert(v.creates.contains_key(a) && v.creates.contains_key(b));
        }
        assert forall|o: CreateFileOperationId, j: u64, k: u64| #[trigger]
            w.replays(o, j) && #[trigger] w.replays(o, k) implies j == k by {
            assert(v.replays(o, j) && v.replays(o, k));
        }
        assert forall|o: CreateFileOperationId, k: u64| #[trigger]
            w.replays(o, k) implies !w.creates.contains_key(o) by {
            assert(v.replays(o, k));
        }
    } else {
        assert(w.creates =~= v.creates);
    }
}

pub proof fn lemma_with_new_entry(
    v: RegistryView,
    limits: RegistryLimits,
    key: u64,
    entry: EntryView,
)
    requires
        v.wf(limits),
        !v.entries.contains_key(key),
        v.occupied() < limits.max_sessions,
        v.client_occupied(entry.client_id()) < limits.max_sessions_per_client,
        entry.owned_targets() == 0,
        v.with_entry(key, entry).entry_wf(key, limits),
        forall|op: CreateFileOperationId, k: u64|
            entry.replay_operation() == Some(op) ==> !v.creates.contains_key(op)
                && !#[trigger] v.replays(op, k),
    ensures
        v.with_entry(key, entry).wf(limits),
{
    let w = v.with_entry(key, entry);
    assert forall|c: ClientId| #[trigger]
        w.client_occupied(c) <= limits.max_sessions_per_client by {
        total_insert(v.entries, client_weight(c), key, entry);
        assert(v.client_occupied(c) <= limits.max_sessions_per_client);
    }
    total_insert(v.entries, owned_weight(), key, entry);
    assert forall|k: u64| #[trigger] w.entries.contains_key(k) implies w.entry_wf(k, limits) by {
        if k != key {
            assert(v.entries.contains_key(k));
            assert(v.entry_wf(k, limits));
        }
    }
    assert forall|op: CreateFileOperationId| #[trigger]
        w.creates.contains_key(op) implies w.create_wf(op) by {
        assert(v.create_wf(op));
    }
    assert forall|op: CreateFileOperationId, j: u64, k: u64| #[trigger]
        w.replays(op, j) && #[trigger] w.replays(op, k) implies j == k by {
        if j != key {
            assert(v.replays(op, j));
        }
        if k != key {
            assert(v.replays(op, k));
        }
    }
    assert forall|op: CreateFileOperationId, k: u64| #[trigger]
        w.replays(op, k) implies !w.creates.contains_key(op) by {
        if k != key {
            assert(v.replays(op, k));
        } else {
            assert(!v.replays(op, k));
        }
    }
}

pub proof fn lemma_with_changed_entry(
    v: RegistryView,
    limits: RegistryLimits,
    key: u64,
    entry: EntryView,
)
    requires
        v.wf(limits),
        v.entries.contains_key(key),
        entry.client_id() == v.entries[key].client_id(),
        entry.replay_operation() == v.entries[key].replay_operation(),
        v.outstanding() + entry.owned_targets() <= limits.max_write_targets
            + v.entries[key].owned_targets(),
        v.with_entry(key, entry).entry_wf(key, limits),
    ensures
        v.with_entry(key, entry).wf(limits),
{
    let w = v.with_entry(key, entry);
    assert(w.entries.dom() =~= v.entries.dom());
    assert forall|c: ClientId| #[trigger]
        w.client_occupied(c) <= limits.max_sessions_per_client by {
        total_update(v.entries, client_weight(c), key, entry);
        assert(v.client_occupied(c) <= limits.max_sessions_per_client);
    }
    total_update(v.entries, owned_weight(), key, entry);
    assert forall|k: u64| #[trigger] w.entries.contains_key(k) implies w.entry_wf(k, limits) by {
        if k != key {
            assert(v.entries.contains_key(k));
            assert(v.entry_wf(k, limits));
        }
    }
    assert forall|op: CreateFileOperationId| #[trigger]
        w.creates.contains_key(op) implies w.create_wf(op) by {
        assert(v.create_wf(op));
    }
    assert forall|op: CreateFileOperationId, j: u64, k: u64| #[trigger]
        w.replays(op, j) && #[trigger] w.replays(op, k) implies j == k by {
        assert(v.replays(op, j));
        assert(v.replays(op, k));
    }
    assert forall|op: CreateFileOperationId, k: u64| #[trigger]
        w.replays(op, k) implies !w.creates.contains_key(op) by {
        assert(v.replays(op, k));
    }
}

pub proof fn lemma_with_new_create(
    v: RegistryView,
    limits: RegistryLimits,
    create: CreateOpeningView,
)
    requires
        v.wf(limits),
        !v.creates.contains_key(create.operation_id),
        v.occupied() < limits.max_sessions,
        v.client_occupied(create.open_client_id) < limits.max_sessions_per_client,
        v.with_create(create).create_wf(create.operation_id),
        !v.path_held(create.mount_id, create.normalized_path),
        !v.is_replayable(create.operation_id),
        forall|op: CreateFileOperationId| #[trigger]
            v.creates.contains_key(op) ==> v.creates[op].opening_id != create.opening_id,
    ensures
        v.with_create(create).wf(limits),
{
    let op = create.operation_id;
    let w = v.with_create(create);
    assert forall|c: ClientId| #[trigger]
        w.client_occupied(c) <= limits.max_sessions_per_client by {
        total_insert(v.creates, create_client_weight(c), op, create);
        assert(v.client_occupied(c) <= limits.max_sessions_per_client);
    }
    assert forall|k: u64| #[trigger] w.entries.contains_key(k) implies w.entry_wf(k, limits) by {
        assert(v.entry_wf(k, limits));
    }
    assert forall|o: CreateFileOperationId| #[trigger]
        w.creates.contains_key(o) implies w.create_wf(o) by {
        if o != op {
            assert(v.creates.contains_key(o));
            assert(v.create_wf(o));
        }
    }
    assert forall|a: CreateFileOperationId, b: CreateFileOperationId|
        #![trigger w.creates.contains_key(a), w.creates.contains_key(b)]
        w.creates.contains_key(a) && w.creates.contains_key(b) && a != b implies {
        &&& w.creates[a].opening_id != w.creates[b].opening_id
        &&& !(w.creates[a].mount_id == w.creates[b].mount_id && w.creates[a].normalized_path
            == w.creates[b].normalized_path)
    } by {
        if a != op {
            assert(v.creates.contains_key(a));
        }
        if b != op {
            assert(v.creates.contains_key(b));
        }
    }
    assert forall|o: CreateFileOperationId, j: u64, k: u64| #[trigger]
        w.replays(o, j) && #[trigger] w.replays(o, k) implies j == k by {
        assert(v.replays(o, j) && v.replays(o, k));
    }
    assert forall|o: CreateFileOperationId, k: u64| #[trigger]
        w.replays(o, k) implies !w.creates.contains_key(o) by {
        assert(v.replays(o, k));
    }
}

/// Where there are sessions, one is to be retired first.
pub proof fn lemma_next_exists(v: RegistryView)
    requires
        v.entries.dom().finite(),
        v.creates.dom().finite(),
    ensures
        v.entries.dom().len() > 0 ==> v.is_next_entry(v.next_entry()),
        v.creates.dom().len() > 0 ==> v.is_next_create(v.next_create()),
{
    if v.entries.dom().len() > 0 {
        let key = |k: u64| (v.entries[k].retirement_at_ms(), k);
        let k = lemma_least(v.entries.dom(), key);
        assert forall|j: u64| #[trigger] v.entries.contains_key(j) implies pair_le(
            (v.entries[k].retirement_at_ms(), k),
            (v.entries[j].retirement_at_ms(), j),
        ) by {
            assert(v.entries.dom().contains(j));
            assert(pair_le(key(k), key(j)));
        }
        assert(v.is_next_entry(k));
    }
    if v.creates.dom().len() > 0 {
        let key = |o: CreateFileOperationId|
            (v.creates[o].expires_at_ms, v.creates[o].opening_id.0);
        let o = lemma_least(v.creates.dom(), key);
        assert forall|p: CreateFileOperationId| #[trigger]
            v.creates.contains_key(p) implies pair_le(
            (v.creates[o].expires_at_ms, v.creates[o].opening_id.0),
            (v.creates[p].expires_at_ms, v.creates[p].opening_id.0),
        ) by {
            assert(v.creates.dom().contains(p));
            assert(pair_le(key(o), key(p)));
        }
        assert(v.is_next_create(o));
    }
}

proof fn lemma_least<A>(s: Set<A>, key: spec_fn(A) -> (u64, u64)) -> (least: A)
    requires
        s.finite(),
        s.len() > 0,
    ensures
        s.contains(least),
        forall|b: A| #[trigger] s.contains(b) ==> pair_le(key(least), key(b)),
    decreases s.len(),
{
    let a = s.choose();
    let rest = s.remove(a);
    if rest.len() == 0 {
        assert forall|b: A| #[trigger] s.contains(b) implies pair_le(key(a), key(b)) by {
            if b != a {
                assert(rest.contains(b));
                assert(rest =~= Set::empty());
            }
        }
        a
    } else {
        let c = lemma_least(rest, key);
        if pair_le(key(a), key(c)) {
            assert forall|b: A| #[trigger] s.contains(b) implies pair_le(key(a), key(b)) by {
                if b != a {
                    assert(rest.contains(b));
                }
            }
            a
        } else {
            assert forall|b: A| #[trigger] s.contains(b) implies pair_le(key(c), key(b)) by {
                if b != a {
                    assert(rest.contains(b));
                }
            }
            c
        }
    }
}

/// A sweep keeps the invariant.
pub proof fn lemma_swept(v: RegistryView, limits: RegistryLimits, now_ms: u64, budget: nat)
    requires
        v.wf(limits),
    ensures
        v.swept(now_ms, budget).wf(limits),
    decreases budget,
{
    if budget > 0 && v.has_expired(now_ms) {
        lemma_without_create(v, limits, v.next_create());
        lemma_without_entry(v, limits, v.next_entry());
        lemma_swept(v.without_next(), limits, now_ms, (budget - 1) as nat);
    }
}

/// Looking at one inode and sweeping keeps the invariant.
pub proof fn lemma_tidied(v: RegistryView, limits: RegistryLimits, key: u64, now_ms: u64)
    requires
        v.wf(limits),
    ensures
        v.retire_inode(key, now_ms).wf(limits),
        v.tidied(key, now_ms).wf(limits),
        v.sweep(now_ms).wf(limits),
{
    lemma_without_entry(v, limits, key);
    lemma_swept(
        v.retire_inode(key, now_ms),
        limits,
        now_ms,
        MAX_EXPIRED_SESSION_RETIREMENTS_PER_CALL as nat,
    );
    lemma_swept(v, limits, now_ms, MAX_EXPIRED_SESSION_RETIREMENTS_PER_CALL as nat);
}

/// Advancing the identity counters keeps the invariant.
pub proof fn lemma_with_counters(
    v: RegistryView,
    limits: RegistryLimits,
    next_opening_id: u64,
    next_publication_id: u64,
)
    requires
        v.wf(limits),
        v.next_opening_id <= next_opening_id,
        v.next_publication_id <= next_publication_id,
    ensures
        (RegistryView { next_opening_id, next_publication_id, ..v }).wf(limits),
{
    let w = RegistryView { next_opening_id, next_publication_id, ..v };
    assert forall|c: ClientId| #[trigger]
        w.client_occupied(c) <= limits.max_sessions_per_client by {
        assert(v.client_occupied(c) <= limits.max_sessions_per_client);
    }
    assert forall|k: u64| #[trigger] w.entries.contains_key(k) implies w.entry_wf(k, limits) by {
        assert(v.entry_wf(k, limits));
    }
    assert forall|o: CreateFileOperationId| #[trigger]
        w.creates.contains_key(o) implies w.create_wf(o) by {
        assert(v.create_wf(o));
    }
    assert forall|o: CreateFileOperationId, j: u64, k: u64| #[trigger]
        w.replays(o, j) && #[trigger] w.replays(o, k) implies j == k by {
        assert(v.replays(o, j) && v.replays(o, k));
    }
    assert forall|o: CreateFileOperationId, k: u64| #[trigger]
        w.replays(o, k) implies !w.creates.contains_key(o) by {
        assert(v.replays(o, k));
    }
}

/// No client holds more sessions than the process, and no more targets are pending than
/// are outstanding.
pub proof fn lemma_counters_are_bounded(v: RegistryView)
    requires
        v.entries.dom().finite(),
        v.creates.dom().finite(),
    ensures
        forall|c: ClientId| #[trigger] v.client_occupied(c) <= v.occupied(),
        forall|i: InodeId, at: u64| #[trigger] v.activity(i, at) <= v.occupied(),
        v.openings() <= v.entries.dom().len(),
        v.pending() <= v.outstanding(),
        v.pending() <= v.entries.dom().len(),
{
    assert forall|c: ClientId| #[trigger] v.client_occupied(c) <= v.occupied() by {
        total_at_most_len(v.entries, client_weight(c));
        total_at_most_len(v.creates, create_client_weight(c));
    }
    assert forall|i: InodeId, at: u64| #[trigger] v.activity(i, at) <= v.occupied() by {
        total_at_most_len(v.entries, path_weight(i, at));
        total_at_most_len(v.creates, create_path_weight(i, at));
    }
    total_at_most_len(v.entries, opening_weight());
    total_at_most_len(v.entries, pending_weight());
    total_monotone(v.entries, pending_weight(), owned_weight());
}

} // verus!
