//! The registry of leader-local write sessions.

use vstd::prelude::*;

use crate::config::{
    DEFAULT_MAX_SESSIONS, DEFAULT_MAX_SESSIONS_PER_CLIENT, DEFAULT_MAX_WRITE_TARGETS,
    DEFAULT_MAX_WRITE_TARGETS_PER_SESSION, DEFAULT_WRITE_LEASE_TIMEOUT_MS,
};
use crate::fs::{ContentGeneration, WriteMode};
use crate::ids::{BlockId, ClientId, InodeId};
use crate::inode::FileData;
use crate::layout::{BlockShape, FileLayout};
use crate::lease::LeaseEpoch;
use crate::location::{located_views, LocatedBlock, LocatedBlockView};
use crate::session::index::CreateFileOperationId;
use crate::session::model::{
    find_step, lemma_find_step, lemma_retained_steps, lemma_swept, lemma_tidied,
    lemma_with_changed_entry, lemma_with_counters, lemma_with_new_create, lemma_with_new_entry,
    lemma_without_create, lemma_without_entry, predecessor, retained_steps, retained_targets,
    BeginAllocateBlockView, BeginCreateSession, CreateOpening, RegistryView, WriteOpening,
    WritePublicationView, WriteTargetReservation, MAX_EXPIRED_SESSION_RETIREMENTS_PER_CALL,
};
use crate::session::state::{EntryFacts, SessionRegistryState};
use crate::session::total::total_remove;
use crate::session::types::{
    copy_inodes, validate_ancestor_chain, validate_parent_ancestor_chain, ActiveCreateReplay,
    BeginAllocateBlockError, BeginCreateSessionError, BeginCreateSessionInput, BeginSessionError,
    BeginSessionInput, BeginWritePublicationError, CompleteWriteTargetError, CreateOpeningSession,
    CreateSessionReplay, EntryView, InvalidAllocation, InvalidTarget, IssuedStep, OpeningSession,
    PendingAllocateBlock, PublicationError, RegistryLimits, SessionStateError, WriteOpeningError,
    WriteOpeningId, WritePublicationId, WriteSession, WriteSessionEntry, WriteSessionError,
    WriteSessionIdentity, WriteSessionLimit, WriteSessionLimitExceeded, WriteSessionView,
    WriteTargetLimit, WriteTargetLimitExceeded,
};

verus! {

/// What the beginning of an allocation step gave.
#[derive(Debug)]
pub enum BeginAllocateBlock {
    /// The step was already issued and is replayed without capacity.
    Replay(LocatedBlock),
    /// New capacity is reserved; it must be completed or released.
    Reserved(WriteTargetReservation),
}

impl View for BeginAllocateBlock {
    type V = BeginAllocateBlockView;

    open spec fn view(&self) -> BeginAllocateBlockView {
        match self {
            BeginAllocateBlock::Replay(target) => BeginAllocateBlockView::Replay(target@),
            BeginAllocateBlock::Reserved(reservation) => BeginAllocateBlockView::Reserved(
                *reservation,
            ),
        }
    }
}

/// Ownership of a frozen target sequence, with the session as it was frozen.
#[derive(Debug)]
#[must_use]
pub struct WritePublication {
    pub session: WriteSession,
    pub publication_id: WritePublicationId,
    pub submitted: bool,
}

impl View for WritePublication {
    type V = WritePublicationView;

    open spec fn view(&self) -> WritePublicationView {
        WritePublicationView {
            session: self.session@,
            publication_id: self.publication_id,
            submitted: self.submitted,
        }
    }
}

/// The value of an optional target.
pub open spec fn optional_target_view(target: Option<LocatedBlock>) -> Option<LocatedBlockView> {
    match target {
        Some(t) => Some(t@),
        None => None,
    }
}

fn same_block(a: Option<BlockId>, b: Option<BlockId>) -> (r: bool)
    ensures
        r == (a == b),
{
    match (a, b) {
        (None, None) => true,
        (Some(x), Some(y)) => x == y,
        _ => false,
    }
}

fn is_pending(a: Option<PendingAllocateBlock>, b: PendingAllocateBlock) -> (r: bool)
    ensures
        r == (a == Some(b)),
{
    match a {
        Some(x) => same_block(x.previous_block_id, b.previous_block_id),
        None => false,
    }
}

fn is_publication(a: Option<WritePublicationId>, b: WritePublicationId) -> (r: bool)
    ensures
        r == (a == Some(b)),
{
    match a {
        Some(x) => x == b,
        None => false,
    }
}

fn lookup_step(steps: &Vec<IssuedStep>, previous: Option<BlockId>) -> (r: Option<IssuedStep>)
    ensures
        r == find_step(steps@, previous),
{
    let mut i: usize = 0;
    assert(steps@.subrange(0, steps@.len() as int) =~= steps@);
    while i < steps.len()
        invariant
            i <= steps@.len(),
            find_step(steps@, previous) == find_step(
                steps@.subrange(i as int, steps@.len() as int),
                previous,
            ),
        decreases steps.len() - i,
    {
        let ghost rest = steps@.subrange(i as int, steps@.len() as int);
        assert(rest[0] == steps@[i as int]);
        assert(rest.drop_first() =~= steps@.subrange(i as int + 1, steps@.len() as int));
        if same_block(steps[i].previous_block_id, previous) {
            return Some(steps[i]);
        }
        i += 1;
    }
    None
}

fn count_retained(targets: &Vec<LocatedBlock>, size: u64) -> (r: usize)
    ensures
        r == retained_targets(located_views(targets@), size),
        r <= targets@.len(),
{
    let ghost views = located_views(targets@);
    let mut i: usize = 0;
    assert(views.subrange(0, views.len() as int) =~= views);
    while i < targets.len() && targets[i].file_offset < size
        invariant
            views == located_views(targets@),
            i <= targets@.len(),
            retained_targets(views, size) == i + retained_targets(
                views.subrange(i as int, views.len() as int),
                size,
            ),
        decreases targets.len() - i,
    {
        let ghost rest = views.subrange(i as int, views.len() as int);
        assert(rest[0] == targets@[i as int]@);
        assert(rest.drop_first() =~= views.subrange(i as int + 1, views.len() as int));
        i += 1;
    }
    proof {
        let rest = views.subrange(i as int, views.len() as int);
        if i < targets@.len() {
            assert(rest[0] == targets@[i as int]@);
        }
        assert(retained_targets(rest, size) == 0);
    }
    i
}

fn retain_steps(steps: &Vec<IssuedStep>, kept: usize) -> (r: Vec<IssuedStep>)
    ensures
        r@ == retained_steps(steps@, kept as nat),
{
    let mut out: Vec<IssuedStep> = Vec::new();
    let mut i: usize = 0;
    while i < steps.len()
        invariant
            i <= steps@.len(),
            out@ == retained_steps(steps@.take(i as int), kept as nat),
        decreases steps.len() - i,
    {
        assert(steps@.take(i as int + 1).drop_last() =~= steps@.take(i as int));
        assert(steps@.take(i as int + 1).last() == steps@[i as int]);
        if steps[i].target_index < kept {
            out.push(steps[i]);
        }
        i += 1;
    }
    assert(steps@.take(i as int) =~= steps@);
    out
}

impl WriteSession {
    /// Returns the last block issued.
    pub fn last_block(&self) -> (r: Option<BlockId>)
        ensures
            r == self@.last_block(),
    {
        let n: usize = self.issued_targets.len();
        if n == 0 {
            None
        } else {
            assert(self@.issued_targets[n - 1] == self.issued_targets@[n - 1]@);
            Some(self.issued_targets[n - 1].block_id)
        }
    }

    /// Returns the file offset of the next target, or `None` on overflow.
    ///
    /// A target that begins below the base size belongs to the published prefix. One that
    /// does not advances the offset by its full capacity.
    pub fn next_target_file_offset(&self) -> (r: Option<u64>)
        ensures
            r == self@.next_offset(),
    {
        let n: usize = self.issued_targets.len();
        if n == 0 {
            match self.mode {
                WriteMode::Overwrite => Some(0),
                WriteMode::Append => Some(self.base_size),
            }
        } else {
            assert(self@.issued_targets.last() == self.issued_targets@[n - 1]@);
            let last = &self.issued_targets[n - 1];
            last.file_offset.checked_add(last.block_size)
        }
    }

    /// Checks identity, fencing, offset and shape of a target before it is issued.
    pub fn validate_write_target(&self, lease_epoch: LeaseEpoch, target: &LocatedBlock) -> (r:
        Result<(), InvalidTarget>)
        ensures
            match self@.target_error(lease_epoch, target@) {
                None => r == Ok::<(), InvalidTarget>(()),
                Some(e) => r == Err::<(), InvalidTarget>(e),
            },
    {
        if target.block_id.inode_id != self.inode_id {
            return Err(InvalidTarget::InodeMismatch);
        }
        if target.fencing_token.block_id != target.block_id || target.fencing_token.owner
            != self.open_client_id || target.fencing_token.epoch != lease_epoch {
            return Err(InvalidTarget::FencingTokenMismatch);
        }
        let next = match self.next_target_file_offset() {
            Some(next) => next,
            None => return Err(InvalidTarget::OffsetOverflow),
        };
        if target.file_offset != next {
            return Err(
                InvalidTarget::OffsetChanged { expected: next, got: target.file_offset },
            );
        }
        let shape = match BlockShape::new(
            target.block_format_id,
            target.block_size,
            target.chunk_size,
            target.block_size,
        ) {
            Ok(shape) => shape,
            Err(e) => return Err(InvalidTarget::TargetShape(e)),
        };
        let expected = match BlockShape::for_effective_len(
            &self.layout,
            self.layout.block_size as u64,
        ) {
            Ok(expected) => expected,
            Err(e) => return Err(InvalidTarget::LayoutShape(e)),
        };
        if shape != expected {
            return Err(InvalidTarget::ShapeMismatch);
        }
        if target.write_offset != 0 {
            return Err(InvalidTarget::NonZeroWriteOffset);
        }
        Ok(())
    }
}

/// In-memory, leader-local registry of write sessions.
///
/// It owns write mutual exclusion, capacity, expiration and continuation state. Every
/// operation takes the current time, and changes the primary tables and all of their
/// indexes together.
pub struct SessionRegistry {
    state: SessionRegistryState,
    limits: RegistryLimits,
}

impl View for SessionRegistry {
    type V = RegistryView;

    closed spec fn view(&self) -> RegistryView {
        self.state@
    }
}

impl SessionRegistry {
    /// The limits that the registry was made with.
    pub closed spec fn limits(&self) -> RegistryLimits {
        self.limits
    }

    /// Every index agrees with the tables.
    pub closed spec fn indexed(&self) -> bool {
        self.state.inv()
    }

    /// The invariant of the registry.
    pub open spec fn wf(&self) -> bool {
        self.indexed() && self@.wf(self.limits())
    }

    /// Creates an empty registry with fixed limits.
    pub fn new(
        max_sessions: usize,
        max_sessions_per_client: usize,
        max_write_targets: usize,
        max_write_targets_per_session: usize,
        session_ttl_ms: u64,
    ) -> (r: Self)
        requires
            0 < max_sessions_per_client <= max_sessions,
            0 < max_write_targets_per_session <= max_write_targets,
        ensures
            r.wf(),
            r@ == RegistryView::empty(),
            r.limits() == (RegistryLimits {
                max_sessions,
                max_sessions_per_client,
                max_write_targets,
                max_write_targets_per_session,
                session_ttl_ms,
            }),
    {
        let r = SessionRegistry {
            state: SessionRegistryState::new(),
            limits: RegistryLimits {
                max_sessions,
                max_sessions_per_client,
                max_write_targets,
                max_write_targets_per_session,
                session_ttl_ms,
            },
        };
        r
    }

    /// Takes back the matching opening after its owner gave up.
    pub fn cancel_opening(&mut self, inode_id: InodeId, opening_id: WriteOpeningId)
        requires
            old(self).wf(),
        ensures
            final(self).wf(),
            final(self).limits() == old(self).limits(),
            final(self)@ == old(self)@.cancel_opening(inode_id, opening_id),
    {
        let matching = match self.state.get_entry(inode_id) {
            Some(WriteSessionEntry::Opening(opening)) => opening.opening_id == opening_id,
            _ => false,
        };
        proof {
            lemma_without_entry(self@, self.limits, inode_id.0);
        }
        if matching {
            self.state.remove_entry(inode_id);
        }
    }

    /// Takes back the matching pending create after its owner gave up.
    pub fn cancel_create_opening(
        &mut self,
        operation_id: CreateFileOperationId,
        opening_id: WriteOpeningId,
    )
        requires
            old(self).wf(),
        ensures
            final(self).wf(),
            final(self).limits() == old(self).limits(),
            final(self)@ == old(self)@.cancel_create_opening(operation_id, opening_id),
    {
        let matching = match self.state.get_create(operation_id) {
            Some(create) => create.opening_id == opening_id,
            None => false,
        };
        proof {
            lemma_without_create(self@, self.limits, operation_id);
        }
        if matching {
            self.state.remove_create(operation_id);
        }
    }

    fn tidy(&mut self, inode_id: InodeId, now_ms: u64)
        requires
            old(self).wf(),
        ensures
            final(self).wf(),
            final(self).limits() == old(self).limits(),
            final(self)@ == old(self)@.tidied(inode_id.0, now_ms),
    {
        proof {
            lemma_tidied(self@, self.limits, inode_id.0, now_ms);
        }
        self.state.retire_expired_entry_for_inode(inode_id, now_ms);
        self.state.retire_expired_entries(now_ms);
    }

    fn session_limit(&self, client: ClientId) -> (r: Option<WriteSessionLimitExceeded>)
        requires
            self.wf(),
        ensures
            r == self@.session_limit(self.limits(), client),
    {
        if self.state.occupied() >= self.limits.max_sessions {
            return Some(
                WriteSessionLimitExceeded {
                    limit: WriteSessionLimit::Global,
                    maximum: self.limits.max_sessions,
                },
            );
        }
        if self.state.client_occupied(client) >= self.limits.max_sessions_per_client {
            return Some(
                WriteSessionLimitExceeded {
                    limit: WriteSessionLimit::PerClient,
                    maximum: self.limits.max_sessions_per_client,
                },
            );
        }
        None
    }

    /// Admits one opening attempt before it proposes a durable epoch. The opening owns
    /// inode exclusion, ancestor activity and capacity at once.
    pub fn begin_session_at(&mut self, input: BeginSessionInput, now_ms: u64) -> (r: Result<
        WriteOpening,
        BeginSessionError,
    >)
        requires
            old(self).wf(),
        ensures
            final(self).wf(),
            final(self).limits() == old(self).limits(),
            (final(self)@, r) == old(self)@.begin_session(old(self).limits(), input@, now_ms),
    {
        if validate_ancestor_chain(input.inode_id, &input.ancestor_inode_ids).is_err() {
            return Err(BeginSessionError::InvalidAncestorChain);
        }
        self.tidy(input.inode_id, now_ms);
        let ghost v = self@;
        if self.state.get_entry(input.inode_id).is_some() || self.state.is_path_held(
            input.mount_id,
            &input.normalized_path,
        ) {
            return Err(BeginSessionError::Busy);
        }
        match self.session_limit(input.open_client_id) {
            Some(limit) => return Err(BeginSessionError::LimitExceeded(limit)),
            None => {},
        }
        let proposed_lease_epoch = match input.current_lease_epoch.checked_next() {
            Some(epoch) => epoch,
            None => return Err(BeginSessionError::LeaseEpochExhausted),
        };
        let opening_id = match self.state.issue_opening_id() {
            Some(opening_id) => opening_id,
            None => return Err(BeginSessionError::OpeningIdExhausted),
        };
        let ghost w = self@;
        let inode_id = input.inode_id;
        let opening = OpeningSession {
            opening_id,
            inode_id,
            mount_id: input.mount_id,
            proposed_lease_epoch,
            mode: input.mode,
            open_client_id: input.open_client_id,
            layout: input.layout,
            expires_at_ms: now_ms.saturating_add(self.limits.session_ttl_ms),
            ancestor_inode_ids: input.ancestor_inode_ids,
        };
        let entry = WriteSessionEntry::Opening(opening);
        proof {
            lemma_with_counters(v, self.limits, w.next_opening_id, v.next_publication_id);
            assert(w.client_occupied(input.open_client_id) == v.client_occupied(
                input.open_client_id,
            ));
            lemma_with_new_entry(w, self.limits, inode_id.0, entry@);
        }
        self.state.insert_entry(entry);
        Ok(WriteOpening { inode_id, opening_id, proposed_lease_epoch })
    }

    /// Reserves capacity for a create before it enters Raft. A retry of an active
    /// operation returns its session; one of a pending operation is rejected.
    pub fn begin_create_session_at(
        &mut self,
        input: BeginCreateSessionInput,
        now_ms: u64,
    ) -> (r: Result<BeginCreateSession, BeginCreateSessionError>)
        requires
            old(self).wf(),
        ensures
            final(self).wf(),
            final(self).limits() == old(self).limits(),
            (final(self)@, r) == old(self)@.begin_create_session(
                old(self).limits(),
                input@,
                now_ms,
            ),
    {
        if input.operation_id.client_id != input.open_client_id {
            return Err(BeginCreateSessionError::IdentityMismatch);
        }
        if validate_parent_ancestor_chain(&input.parent_ancestor_inode_ids).is_err() {
            return Err(BeginCreateSessionError::InvalidAncestorChain);
        }
        let operation_id = input.operation_id;
        proof {
            lemma_without_create(self@, self.limits, operation_id);
            lemma_swept(
                self@.retire_create(operation_id, now_ms),
                self.limits,
                now_ms,
                MAX_EXPIRED_SESSION_RETIREMENTS_PER_CALL as nat,
            );
        }
        self.state.retire_expired_create_opening_for_operation(operation_id, now_ms);
        self.state.retire_expired_entries(now_ms);
        let ghost v = self@;
        assert(v.wf(self.limits));
        match self.state.get_replay(operation_id) {
            Some(inode_id) => {
                proof {
                    let k = choose|k: u64| v.replays(operation_id, k);
                    assert(v.replays(operation_id, k));
                    assert(v.replays(operation_id, inode_id.0));
                    assert(k == inode_id.0);
                }
                match self.state.get_entry(inode_id) {
                    Some(WriteSessionEntry::Active(session)) => match &session.create_replay {
                        Some(replay) => {
                            assert(replay@ == v.replay_of(operation_id));
                            if replay.request_deadline_ms != input.request_deadline_ms
                                || replay.normalized_path != input.normalized_path
                                || replay.mount_id != input.mount_id || replay.expected_mount_epoch
                                != input.expected_mount_epoch || replay.mount_root_inode_id
                                != input.mount_root_inode_id {
                                return Err(BeginCreateSessionError::IdentityMismatch);
                            }
                            return Ok(BeginCreateSession::Replay(replay.response));
                        },
                        None => {
                            assert(false);
                        },
                    },
                    _ => {
                        assert(false);
                    },
                }
            },
            None => {},
        }
        match self.state.get_create(operation_id) {
            Some(pending) => {
                return if pending.request_deadline_ms == input.request_deadline_ms
                    && pending.normalized_path == input.normalized_path && pending.mount_id
                    == input.mount_id && pending.expected_mount_epoch == input.expected_mount_epoch
                    && pending.mount_root_inode_id == input.mount_root_inode_id {
                    Err(BeginCreateSessionError::Pending)
                } else {
                    Err(BeginCreateSessionError::IdentityMismatch)
                };
            },
            None => {},
        }
        if self.state.is_path_held(input.mount_id, &input.normalized_path) {
            return Err(BeginCreateSessionError::PathBusy);
        }
        match self.session_limit(input.open_client_id) {
            Some(limit) => return Err(BeginCreateSessionError::LimitExceeded(limit)),
            None => {},
        }
        let opening_id = match self.state.issue_opening_id() {
            Some(opening_id) => opening_id,
            None => return Err(BeginCreateSessionError::OpeningIdExhausted),
        };
        let ghost w = self@;
        let expires_at_ms: u64 = now_ms.saturating_add(self.limits.session_ttl_ms);
        let create = CreateOpeningSession {
            opening_id,
            operation_id,
            request_deadline_ms: input.request_deadline_ms,
            normalized_path: input.normalized_path,
            mount_id: input.mount_id,
            expected_mount_epoch: input.expected_mount_epoch,
            mount_root_inode_id: input.mount_root_inode_id,
            open_client_id: input.open_client_id,
            expires_at_ms,
            parent_ancestor_inode_ids: input.parent_ancestor_inode_ids,
        };
        proof {
            lemma_with_counters(v, self.limits, w.next_opening_id, v.next_publication_id);
            assert(w.client_occupied(input.open_client_id) == v.client_occupied(
                input.open_client_id,
            ));
            if w.path_held(create.mount_id, create.normalized_path@) {
                let op = choose|op: CreateFileOperationId| #[trigger]
                    w.creates.contains_key(op) && w.creates[op].mount_id == create.mount_id
                        && w.creates[op].normalized_path == create.normalized_path@;
                assert(v.creates.contains_key(op));
            }
            if w.is_replayable(operation_id) {
                let k = choose|k: u64| w.replays(operation_id, k);
                assert(v.replays(operation_id, k));
            }
            assert forall|op: CreateFileOperationId| #[trigger]
                w.creates.contains_key(op) implies w.creates[op].opening_id != opening_id by {
                assert(v.create_wf(op));
            }
            lemma_with_new_create(w, self.limits, create@);
        }
        self.state.insert_create(create);
        Ok(BeginCreateSession::Reserved(CreateOpening { operation_id, opening_id, expires_at_ms }))
    }

    /// Converts only the matching, non-expired opening into an active session.
    pub fn activate_opening(
        &mut self,
        inode_id: InodeId,
        opening_id: WriteOpeningId,
        returned_lease_epoch: LeaseEpoch,
        now_ms: u64,
        file: &FileData,
        tail: Option<LocatedBlock>,
    ) -> (r: Result<WriteSession, WriteOpeningError>)
        requires
            old(self).wf(),
        ensures
            final(self).wf(),
            final(self).limits() == old(self).limits(),
            ({
                let outcome = old(self)@.activate_opening(
                    old(self).limits(),
                    inode_id,
                    opening_id,
                    returned_lease_epoch,
                    now_ms,
                    *file,
                    optional_target_view(tail),
                );
                &&& final(self)@ == outcome.0
                &&& match r {
                    Ok(session) => outcome.1 == Ok::<WriteSessionView, WriteOpeningError>(
                        session@,
                    ),
                    Err(e) => outcome.1 == Err::<WriteSessionView, WriteOpeningError>(e),
                }
            }),
    {
        let ghost v = self@;
        match self.state.get_entry(inode_id) {
            Some(WriteSessionEntry::Opening(opening)) => {
                if opening.opening_id != opening_id {
                    return Err(WriteOpeningError::NotCurrent);
                }
                if opening.expires_at_ms <= now_ms {
                    proof {
                        lemma_without_entry(v, self.limits, inode_id.0);
                    }
                    self.state.retire_expired_entry_for_inode(inode_id, now_ms);
                    return Err(WriteOpeningError::Expired);
                }
                if opening.proposed_lease_epoch != returned_lease_epoch {
                    return Err(
                        WriteOpeningError::LeaseEpochMismatch {
                            expected: opening.proposed_lease_epoch,
                            got: returned_lease_epoch,
                        },
                    );
                }
                if file.lease_epoch != returned_lease_epoch || file.layout != opening.layout {
                    return Err(WriteOpeningError::NotCurrent);
                }
                if tail.is_some() && self.state.outstanding() >= self.limits.max_write_targets {
                    return Err(WriteOpeningError::TargetLimit);
                }
            },
            _ => return Err(WriteOpeningError::NotCurrent),
        }
        let ghost tail_view = optional_target_view(tail);
        let (taken, facts) = self.state.take_entry(inode_id);
        match taken {
            WriteSessionEntry::Opening(opening) => {
                let mut issued_targets: Vec<LocatedBlock> = Vec::new();
                match tail {
                    Some(target) => {
                        issued_targets.push(target);
                    },
                    None => {},
                }
                let session = WriteSession {
                    inode_id: opening.inode_id,
                    mount_id: opening.mount_id,
                    lease_epoch: opening.proposed_lease_epoch,
                    base_size: file.len,
                    generation: file.generation,
                    mode: opening.mode,
                    open_client_id: opening.open_client_id,
                    layout: opening.layout,
                    expires_at_ms: opening.expires_at_ms,
                    ancestor_inode_ids: opening.ancestor_inode_ids,
                    issued_targets,
                    issued_steps: Vec::new(),
                    pending_allocate_block: None,
                    active_publication: None,
                    publication_submitted: false,
                    create_replay: None,
                };
                let ghost s = v.activate_opening(
                    self.limits,
                    inode_id,
                    opening_id,
                    returned_lease_epoch,
                    now_ms,
                    *file,
                    tail_view,
                ).1->Ok_0;
                assert(session@.issued_targets =~= s.issued_targets);
                assert(session@.issued_steps =~= s.issued_steps);
                assert(session@ == s);
                assert(v.entry_wf(inode_id.0, self.limits));
                proof {
                    lemma_with_changed_entry(v, self.limits, inode_id.0, EntryView::Active(s));
                }
                let returned = session.clone();
                self.state.put_entry(
                    WriteSessionEntry::Active(Box::new(session)),
                    facts,
                    Ghost(v),
                );
                Ok(returned)
            },
            WriteSessionEntry::Active(_) => {
                assert(false);
                vstd::pervasive::unreached()
            },
        }
    }

    /// Converts one matching pending create into an active session of its new inode.
    pub fn activate_create_opening(
        &mut self,
        operation_id: CreateFileOperationId,
        opening_id: WriteOpeningId,
        inode_id: InodeId,
        lease_epoch: LeaseEpoch,
        expires_at_ms: u64,
        layout: FileLayout,
        generation: ContentGeneration,
        now_ms: u64,
    ) -> (r: Result<WriteSession, WriteOpeningError>)
        requires
            old(self).wf(),
        ensures
            final(self).wf(),
            final(self).limits() == old(self).limits(),
            ({
                let outcome = old(self)@.activate_create_opening(
                    operation_id,
                    opening_id,
                    inode_id,
                    lease_epoch,
                    expires_at_ms,
                    layout,
                    generation,
                    now_ms,
                );
                &&& final(self)@ == outcome.0
                &&& match r {
                    Ok(session) => outcome.1 == Ok::<WriteSessionView, WriteOpeningError>(
                        session@,
                    ),
                    Err(e) => outcome.1 == Err::<WriteSessionView, WriteOpeningError>(e),
                }
            }),
    {
        let ghost v = self@;
        proof {
            lemma_without_create(v, self.limits, operation_id);
        }
        let (opening_expires_at_ms, ancestor_inode_ids) = match self.state.get_create(
            operation_id,
        ) {
            Some(create) => {
                if create.opening_id != opening_id {
                    return Err(WriteOpeningError::NotCurrent);
                }
                let mut ancestor_inode_ids = copy_inodes(&create.parent_ancestor_inode_ids);
                ancestor_inode_ids.push(inode_id);
                (create.expires_at_ms, ancestor_inode_ids)
            },
            None => return Err(WriteOpeningError::NotCurrent),
        };
        if opening_expires_at_ms <= now_ms || expires_at_ms <= now_ms {
            self.state.remove_create(operation_id);
            return Err(WriteOpeningError::Expired);
        }
        if lease_epoch.0 == 0 || self.state.get_entry(inode_id).is_some() {
            return Err(WriteOpeningError::NotCurrent);
        }
        if validate_ancestor_chain(inode_id, &ancestor_inode_ids).is_err() {
            return Err(WriteOpeningError::NotCurrent);
        }
        let removed = match self.state.remove_create(operation_id) {
            Some(removed) => removed,
            None => {
                assert(false);
                return Err(WriteOpeningError::NotCurrent);
            },
        };
        let ghost w = self@;
        let session = WriteSession {
            inode_id,
            mount_id: removed.mount_id,
            lease_epoch,
            base_size: 0,
            generation,
            mode: WriteMode::Overwrite,
            open_client_id: removed.open_client_id,
            layout,
            expires_at_ms,
            ancestor_inode_ids,
            issued_targets: Vec::new(),
            issued_steps: Vec::new(),
            pending_allocate_block: None,
            active_publication: None,
            publication_submitted: false,
            create_replay: Some(
                ActiveCreateReplay {
                    operation_id,
                    request_deadline_ms: removed.request_deadline_ms,
                    normalized_path: removed.normalized_path,
                    mount_id: removed.mount_id,
                    expected_mount_epoch: removed.expected_mount_epoch,
                    mount_root_inode_id: removed.mount_root_inode_id,
                    response: CreateSessionReplay {
                        inode_id,
                        lease_epoch,
                        layout,
                        expires_at_ms,
                        generation,
                    },
                },
            ),
        };
        let returned = session.clone();
        let ghost s = session@;
        proof {
            let outcome = v.activate_create_opening(
                operation_id,
                opening_id,
                inode_id,
                lease_epoch,
                expires_at_ms,
                layout,
                generation,
                now_ms,
            );
            assert(v.create_wf(operation_id));
            assert(s.issued_targets =~= Seq::empty());
            assert(s.issued_steps =~= Seq::empty());
            assert(outcome.1 == Ok::<WriteSessionView, WriteOpeningError>(s));
            crate::session::total::total_remove(
                v.creates,
                crate::session::model::create_client_weight(removed.open_client_id),
                operation_id,
            );
            assert(v.client_occupied(removed.open_client_id)
                <= self.limits.max_sessions_per_client);
            assert(v.creates.dom().contains(operation_id));
            assert forall|op: CreateFileOperationId, k: u64|
                EntryView::Active(s).replay_operation() == Some(op) implies !w.creates.contains_key(
                op,
            ) && !#[trigger] w.replays(op, k) by {
                if w.replays(op, k) {
                    assert(v.replays(op, k));
                }
            }
            if w.is_replayable(operation_id) {
                let k = choose|k: u64| w.replays(operation_id, k);
                assert(v.replays(operation_id, k));
            }
            lemma_with_new_entry(w, self.limits, inode_id.0, EntryView::Active(s));
        }
        self.state.insert_entry(WriteSessionEntry::Active(Box::new(session)));
        Ok(returned)
    }

    fn session_state(&self, inode_id: InodeId, lease_epoch: LeaseEpoch) -> (r: Result<
        &WriteSession,
        SessionStateError,
    >)
        ensures
            match r {
                Ok(session) => self@.session_error(inode_id, lease_epoch) is None && session@
                    == self@.session(inode_id),
                Err(e) => self@.session_error(inode_id, lease_epoch) == Some(e),
            },
    {
        match self.state.get_entry(inode_id) {
            Some(WriteSessionEntry::Active(session)) => if session.lease_epoch != lease_epoch {
                Err(SessionStateError::LeaseEpochMismatch)
            } else {
                Ok(session)
            },
            Some(WriteSessionEntry::Opening(_)) => Err(SessionStateError::StillOpening),
            None => Err(SessionStateError::NotFound),
        }
    }

    fn take_session(&mut self, inode_id: InodeId) -> (r: (WriteSession, EntryFacts))
        requires
            old(self).wf(),
            old(self)@.find_session(inode_id) is Some,
        ensures
            final(self).limits() == old(self).limits(),
            final(self).state.indexes(old(self)@),
            final(self)@ == old(self)@.without_entry(inode_id.0),
            r.0@ == old(self)@.session(inode_id),
            r.1.of(EntryView::Active(r.0@)),
            r.0@.inode_id == inode_id,
    {
        proof {
            assert(self@.entry_wf(inode_id.0, self.limits));
        }
        let (taken, facts) = self.state.take_entry(inode_id);
        match taken {
            WriteSessionEntry::Active(session) => (*session, facts),
            WriteSessionEntry::Opening(_) => {
                assert(false);
                vstd::pervasive::unreached()
            },
        }
    }

    fn put_session(
        &mut self,
        session: WriteSession,
        facts: EntryFacts,
        Ghost(before): Ghost<RegistryView>,
    )
        requires
            ({
                let was = before.session(session@.inode_id);
                &&& before.wf(old(self).limits())
                &&& old(self).state.indexes(before)
                &&& before.find_session(session@.inode_id) is Some
                &&& old(self)@ == before.without_entry(session@.inode_id.0)
                &&& facts.of(EntryView::Active(was))
                &&& session@.open_client_id == was.open_client_id
                &&& session@.ancestor_inode_ids == was.ancestor_inode_ids
                &&& session@.create_replay == was.create_replay
                &&& session@.wf(
                    session@.inode_id.0,
                    old(self).limits(),
                    before.next_publication_id,
                )
                &&& before.outstanding() + EntryView::Active(session@).owned_targets()
                    <= old(self).limits().max_write_targets + EntryView::Active(
                    was,
                ).owned_targets()
            }),
        ensures
            final(self).wf(),
            final(self).limits() == old(self).limits(),
            final(self)@ == before.with_session(session@),
    {
        proof {
            lemma_with_changed_entry(
                before,
                self.limits,
                session@.inode_id.0,
                EntryView::Active(session@),
            );
        }
        self.state.put_entry(WriteSessionEntry::Active(Box::new(session)), facts, Ghost(before));
    }

    /// Replays an issued allocation step, or reserves capacity before block allocation.
    ///
    /// Replay is resolved before capacity. A suffix that a sync retired is not replayable
    /// any more: its predecessor may become the end of the chain again.
    pub fn begin_allocate_block(
        &mut self,
        inode_id: InodeId,
        lease_epoch: LeaseEpoch,
        previous_block_id: Option<BlockId>,
        now_ms: u64,
    ) -> (r: Result<BeginAllocateBlock, BeginAllocateBlockError>)
        requires
            old(self).wf(),
        ensures
            final(self).wf(),
            final(self).limits() == old(self).limits(),
            ({
                let outcome = old(self)@.begin_allocate_block(
                    old(self).limits(),
                    inode_id,
                    lease_epoch,
                    previous_block_id,
                    now_ms,
                );
                &&& final(self)@ == outcome.0
                &&& match r {
                    Ok(begun) => outcome.1 == Ok::<
                        BeginAllocateBlockView,
                        BeginAllocateBlockError,
                    >(begun@),
                    Err(e) => outcome.1 == Err::<BeginAllocateBlockView, BeginAllocateBlockError>(
                        e,
                    ),
                }
            }),
    {
        self.tidy(inode_id, now_ms);
        let ghost v = self@;
        let pending = PendingAllocateBlock { previous_block_id };
        let (layout, open_client_id, file_offset) = match self.session_state(
            inode_id,
            lease_epoch,
        ) {
            Err(e) => return Err(BeginAllocateBlockError::Session(e)),
            Ok(session) => {
                proof {
                    assert(v.entry_wf(inode_id.0, self.limits));
                    lemma_find_step(session@.issued_steps, previous_block_id);
                }
                match lookup_step(&session.issued_steps, previous_block_id) {
                    Some(step) => {
                        let target = session.issued_targets[step.target_index].clone();
                        return Ok(BeginAllocateBlock::Replay(target));
                    },
                    None => {},
                }
                if session.active_publication.is_some() {
                    return Err(BeginAllocateBlockError::PublicationInProgress);
                }
                let expected_previous = session.last_block();
                if !same_block(previous_block_id, expected_previous) {
                    return Err(
                        BeginAllocateBlockError::InvalidArgument(
                            InvalidAllocation::PredecessorMismatch {
                                expected: expected_previous,
                                got: previous_block_id,
                            },
                        ),
                    );
                }
                if session.pending_allocate_block.is_some() {
                    return Err(BeginAllocateBlockError::Pending);
                }
                let file_offset = match session.next_target_file_offset() {
                    Some(file_offset) => file_offset,
                    None => return Err(
                        BeginAllocateBlockError::InvalidArgument(InvalidAllocation::OffsetOverflow),
                    ),
                };
                if session.issued_targets.len() >= self.limits.max_write_targets_per_session {
                    return Err(
                        BeginAllocateBlockError::LimitExceeded(
                            WriteTargetLimitExceeded {
                                limit: WriteTargetLimit::PerSession,
                                maximum: self.limits.max_write_targets_per_session,
                            },
                        ),
                    );
                }
                (session.layout, session.open_client_id, file_offset)
            },
        };
        if self.state.outstanding() >= self.limits.max_write_targets {
            return Err(
                BeginAllocateBlockError::LimitExceeded(
                    WriteTargetLimitExceeded {
                        limit: WriteTargetLimit::Global,
                        maximum: self.limits.max_write_targets,
                    },
                ),
            );
        }
        let (session, facts) = self.take_session(inode_id);
        let mut session = session;
        session.pending_allocate_block = Some(pending);
        self.put_session(session, facts, Ghost(v));
        Ok(
            BeginAllocateBlock::Reserved(
                WriteTargetReservation {
                    inode_id,
                    lease_epoch,
                    pending,
                    layout,
                    open_client_id,
                    file_offset,
                },
            ),
        )
    }

    fn release_pending(&mut self, inode_id: InodeId)
        requires
            old(self).wf(),
            old(self)@.find_session(inode_id) is Some,
        ensures
            final(self).wf(),
            final(self).limits() == old(self).limits(),
            final(self)@ == old(self)@.with_session(
                WriteSessionView {
                    pending_allocate_block: None,
                    ..old(self)@.session(inode_id)
                },
            ),
    {
        let ghost v = self@;
        proof {
            assert(v.entry_wf(inode_id.0, self.limits));
        }
        let (session, facts) = self.take_session(inode_id);
        let mut session = session;
        session.pending_allocate_block = None;
        self.put_session(session, facts, Ghost(v));
    }

    /// Releases only the matching pending step. Returns whether there was one.
    pub fn cancel_write_target(
        &mut self,
        inode_id: InodeId,
        lease_epoch: LeaseEpoch,
        pending: PendingAllocateBlock,
    ) -> (r: bool)
        requires
            old(self).wf(),
        ensures
            final(self).wf(),
            final(self).limits() == old(self).limits(),
            final(self)@ == old(self)@.cancel_write_target(inode_id, lease_epoch, pending),
            r == old(self)@.is_current_pending(inode_id, lease_epoch, pending),
    {
        let matching = match self.session_state(inode_id, lease_epoch) {
            Ok(session) => is_pending(session.pending_allocate_block, pending),
            Err(_) => false,
        };
        if matching {
            self.release_pending(inode_id);
        }
        matching
    }

    /// Replaces only the matching pending step by one validated target. A target that does
    /// not fit releases the step.
    pub fn complete_write_target(
        &mut self,
        inode_id: InodeId,
        lease_epoch: LeaseEpoch,
        pending: PendingAllocateBlock,
        target: LocatedBlock,
        now_ms: u64,
    ) -> (r: Result<LocatedBlock, CompleteWriteTargetError>)
        requires
            old(self).wf(),
        ensures
            final(self).wf(),
            final(self).limits() == old(self).limits(),
            ({
                let outcome = old(self)@.complete_write_target(
                    inode_id,
                    lease_epoch,
                    pending,
                    target@,
                    now_ms,
                );
                &&& final(self)@ == outcome.0
                &&& match r {
                    Ok(issued) => outcome.1 == Ok::<LocatedBlockView, CompleteWriteTargetError>(
                        issued@,
                    ),
                    Err(e) => outcome.1 == Err::<LocatedBlockView, CompleteWriteTargetError>(e),
                }
            }),
    {
        self.tidy(inode_id, now_ms);
        let ghost v = self@;
        let ghost t = target@;
        let validation = match self.session_state(inode_id, lease_epoch) {
            Err(_) => return Err(CompleteWriteTargetError::NotCurrent),
            Ok(session) => {
                if !is_pending(session.pending_allocate_block, pending) {
                    return Err(CompleteWriteTargetError::NotCurrent);
                }
                session.validate_write_target(lease_epoch, &target)
            },
        };
        match validation {
            Err(e) => {
                self.release_pending(inode_id);
                return Err(CompleteWriteTargetError::InvalidTarget(e));
            },
            Ok(()) => {},
        }
        proof {
            assert(v.entry_wf(inode_id.0, self.limits));
        }
        let (session, facts) = self.take_session(inode_id);
        let mut session = session;
        let ghost s = session@;
        let target_index: usize = session.issued_targets.len();
        let issued = target.clone();
        session.issued_targets.push(target);
        session.issued_steps.push(
            IssuedStep { previous_block_id: pending.previous_block_id, target_index },
        );
        session.pending_allocate_block = None;
        proof {
            let n = session@;
            lemma_find_step(s.issued_steps, pending.previous_block_id);
            assert(n.issued_targets =~= s.issued_targets.push(t));
            assert forall|i: int| 0 <= i < n.issued_steps.len() implies (
            #[trigger] n.issued_steps[i]).target_index < n.issued_targets.len()
                && n.issued_steps[i].previous_block_id == predecessor(
                n.issued_targets,
                n.issued_steps[i].target_index as int,
            ) by {
                if i < s.issued_steps.len() {
                    assert(n.issued_steps[i] == s.issued_steps[i]);
                }
            }
            assert forall|i: int, j: int| 0 <= i < j < n.issued_steps.len() implies (
            #[trigger] n.issued_steps[i]).target_index < (
            #[trigger] n.issued_steps[j]).target_index && n.issued_steps[i].previous_block_id
                != n.issued_steps[j].previous_block_id by {
                assert(n.issued_steps[i] == s.issued_steps[i]);
                if j < s.issued_steps.len() {
                    assert(n.issued_steps[j] == s.issued_steps[j]);
                }
            }
            assert forall|i: int, j: int|
                0 <= i && j == i + 1 && j < n.issued_targets.len() implies (
            #[trigger] n.issued_targets[i]).file_offset + n.issued_targets[i].block_size == (
            #[trigger] n.issued_targets[j]).file_offset by {
                assert(n.issued_targets[i] == s.issued_targets[i]);
                if j < s.issued_targets.len() {
                    assert(n.issued_targets[j] == s.issued_targets[j]);
                }
            }
        }
        self.put_session(session, facts, Ghost(v));
        Ok(issued)
    }

    /// Freezes the issued targets of an active session for a publication.
    pub fn begin_publication(
        &mut self,
        inode_id: InodeId,
        lease_epoch: LeaseEpoch,
        now_ms: u64,
    ) -> (r: Result<WritePublication, BeginWritePublicationError>)
        requires
            old(self).wf(),
        ensures
            final(self).wf(),
            final(self).limits() == old(self).limits(),
            ({
                let outcome = old(self)@.begin_publication(inode_id, lease_epoch, now_ms);
                &&& final(self)@ == outcome.0
                &&& match r {
                    Ok(publication) => outcome.1 == Ok::<
                        WritePublicationView,
                        BeginWritePublicationError,
                    >(publication@),
                    Err(e) => outcome.1 == Err::<
                        WritePublicationView,
                        BeginWritePublicationError,
                    >(e),
                }
            }),
    {
        self.tidy(inode_id, now_ms);
        let ghost v = self@;
        match self.session_state(inode_id, lease_epoch) {
            Err(e) => return Err(BeginWritePublicationError::Session(e)),
            Ok(session) => {
                if session.pending_allocate_block.is_some() {
                    return Err(BeginWritePublicationError::AllocateBlockPending);
                }
                if session.active_publication.is_some() {
                    return Err(BeginWritePublicationError::PublicationInProgress);
                }
            },
        }
        let publication_id = match self.state.issue_publication_id() {
            Some(id) => WritePublicationId(id),
            None => return Err(BeginWritePublicationError::PublicationIdExhausted),
        };
        let ghost w = self@;
        proof {
            lemma_with_counters(v, self.limits, v.next_opening_id, w.next_publication_id);
            assert(w.entry_wf(inode_id.0, self.limits));
        }
        let (session, facts) = self.take_session(inode_id);
        let mut session = session;
        session.active_publication = Some(publication_id);
        let frozen = session.clone();
        self.put_session(session, facts, Ghost(w));
        Ok(WritePublication { session: frozen, publication_id, submitted: false })
    }

    fn publication_state(
        &self,
        inode_id: InodeId,
        lease_epoch: LeaseEpoch,
        publication_id: WritePublicationId,
    ) -> (r: Result<&WriteSession, PublicationError>)
        ensures
            match r {
                Ok(session) => self@.publication_error(inode_id, lease_epoch, publication_id)
                    is None && session@ == self@.session(inode_id),
                Err(e) => self@.publication_error(inode_id, lease_epoch, publication_id) == Some(
                    e,
                ),
            },
    {
        match self.session_state(inode_id, lease_epoch) {
            Err(e) => Err(PublicationError::Session(e)),
            Ok(session) => if is_publication(session.active_publication, publication_id) {
                Ok(session)
            } else {
                Err(PublicationError::NotCurrent)
            },
        }
    }

    /// Returns the session again if this publication still owns it.
    pub fn revalidate_publication(
        &mut self,
        inode_id: InodeId,
        lease_epoch: LeaseEpoch,
        publication_id: WritePublicationId,
        now_ms: u64,
    ) -> (r: Result<WriteSession, PublicationError>)
        requires
            old(self).wf(),
        ensures
            final(self).wf(),
            final(self).limits() == old(self).limits(),
            ({
                let outcome = old(self)@.revalidate_publication(
                    inode_id,
                    lease_epoch,
                    publication_id,
                    now_ms,
                );
                &&& final(self)@ == outcome.0
                &&& match r {
                    Ok(session) => outcome.1 == Ok::<WriteSessionView, PublicationError>(session@),
                    Err(e) => outcome.1 == Err::<WriteSessionView, PublicationError>(e),
                }
            }),
    {
        self.tidy(inode_id, now_ms);
        match self.publication_state(inode_id, lease_epoch, publication_id) {
            Ok(session) => Ok(session.clone()),
            Err(e) => Err(e),
        }
    }

    /// Pins the session of a publication before the publication is handed to its
    /// completion.
    pub fn mark_submitted(&mut self, publication: &mut WritePublication, now_ms: u64) -> (r: Result<
        (),
        PublicationError,
    >)
        requires
            old(self).wf(),
        ensures
            final(self).wf(),
            final(self).limits() == old(self).limits(),
            (final(self)@, r) == old(self)@.mark_submitted(old(publication)@, now_ms),
            r is Ok ==> final(publication)@ == (WritePublicationView {
                submitted: true,
                ..old(publication)@
            }),
            r is Err ==> *final(publication) == *old(publication),
    {
        if publication.submitted {
            return Ok(());
        }
        if publication.session.lease_epoch.checked_next().is_none() {
            return Err(PublicationError::LeaseEpochExhausted);
        }
        let ghost v = self@;
        let inode_id = publication.session.inode_id;
        match self.state.get_entry(inode_id) {
            None => return Err(PublicationError::Session(SessionStateError::NotFound)),
            Some(WriteSessionEntry::Opening(_)) => return Err(
                PublicationError::Session(SessionStateError::StillOpening),
            ),
            Some(WriteSessionEntry::Active(session)) => {
                if session.lease_epoch != publication.session.lease_epoch || !is_publication(
                    session.active_publication,
                    publication.publication_id,
                ) || session.expires_at_ms <= now_ms {
                    return Err(PublicationError::ChangedOrExpired);
                }
            },
        }
        proof {
            assert(v.entry_wf(inode_id.0, self.limits));
        }
        let (session, facts) = self.take_session(inode_id);
        let mut session = session;
        session.publication_submitted = true;
        self.put_session(session, facts, Ghost(v));
        publication.submitted = true;
        Ok(())
    }

    /// Installs one successful sync and releases its publication. A replay of the sync
    /// leaves the generation alone; a new generation drops every target at or behind the
    /// new visible end.
    pub fn complete_sync_publication(
        &mut self,
        inode_id: InodeId,
        lease_epoch: LeaseEpoch,
        publication_id: WritePublicationId,
        generation: ContentGeneration,
        file_size: u64,
        now_ms: u64,
    ) -> (r: Result<(), PublicationError>)
        requires
            old(self).wf(),
        ensures
            final(self).wf(),
            final(self).limits() == old(self).limits(),
            (final(self)@, r) == old(self)@.complete_sync_publication(
                inode_id,
                lease_epoch,
                publication_id,
                generation,
                file_size,
                now_ms,
            ),
    {
        self.tidy(inode_id, now_ms);
        let ghost v = self@;
        let replayed = match self.publication_state(inode_id, lease_epoch, publication_id) {
            Err(e) => return Err(e),
            Ok(session) => {
                if session.generation == generation {
                    if session.base_size != file_size {
                        return Err(
                            PublicationError::ReplaySizeChanged {
                                expected: session.base_size,
                                got: file_size,
                            },
                        );
                    }
                    true
                } else {
                    let due = match session.generation.checked_next() {
                        Some(due) => due,
                        None => return Err(PublicationError::GenerationOverflow),
                    };
                    if generation != due {
                        return Err(
                            PublicationError::GenerationChanged { due, given: generation },
                        );
                    }
                    false
                }
            },
        };
        proof {
            assert(v.entry_wf(inode_id.0, self.limits));
        }
        let (session, facts) = self.take_session(inode_id);
        let mut session = session;
        let ghost s = session@;
        if !replayed {
            let kept: usize = count_retained(&session.issued_targets, file_size);
            let ghost targets = session.issued_targets@;
            session.issued_targets.truncate(kept);
            session.issued_steps = retain_steps(&session.issued_steps, kept);
            session.generation = generation;
            session.base_size = file_size;
            proof {
                let n = session@;
                assert(n.issued_targets =~= s.issued_targets.take(kept as int));
                lemma_retained_steps(s.issued_steps, kept as nat);
                assert forall|i: int| 0 <= i < n.issued_steps.len() implies (
                #[trigger] n.issued_steps[i]).target_index < n.issued_targets.len()
                    && n.issued_steps[i].previous_block_id == predecessor(
                    n.issued_targets,
                    n.issued_steps[i].target_index as int,
                ) by {
                    assert(s.issued_steps.contains(n.issued_steps[i]));
                    let j = choose|j: int|
                        0 <= j < s.issued_steps.len() && s.issued_steps[j] == n.issued_steps[i];
                    assert(s.issued_steps[j].previous_block_id == predecessor(
                        s.issued_targets,
                        s.issued_steps[j].target_index as int,
                    ));
                }
                assert forall|i: int, j: int|
                    0 <= i && j == i + 1 && j < n.issued_targets.len() implies (
                #[trigger] n.issued_targets[i]).file_offset + n.issued_targets[i].block_size == (
                #[trigger] n.issued_targets[j]).file_offset by {
                    assert(n.issued_targets[i] == s.issued_targets[i]);
                    assert(n.issued_targets[j] == s.issued_targets[j]);
                }
            }
        }
        session.mode = WriteMode::Append;
        session.active_publication = None;
        session.publication_submitted = false;
        self.put_session(session, facts, Ghost(v));
        Ok(())
    }

    /// Removes the session only if the publication still owns it.
    pub fn complete_commit_publication(
        &mut self,
        inode_id: InodeId,
        lease_epoch: LeaseEpoch,
        publication_id: WritePublicationId,
    )
        requires
            old(self).wf(),
        ensures
            final(self).wf(),
            final(self).limits() == old(self).limits(),
            final(self)@ == old(self)@.complete_commit_publication(
                inode_id,
                lease_epoch,
                publication_id,
            ),
    {
        proof {
            lemma_without_entry(self@, self.limits, inode_id.0);
        }
        if self.publication_state(inode_id, lease_epoch, publication_id).is_ok() {
            self.state.remove_entry(inode_id);
        }
    }

    /// Releases only the matching publication, so that a stale owner cannot clear a later
    /// one.
    pub fn cancel_publication(
        &mut self,
        inode_id: InodeId,
        lease_epoch: LeaseEpoch,
        publication_id: WritePublicationId,
    )
        requires
            old(self).wf(),
        ensures
            final(self).wf(),
            final(self).limits() == old(self).limits(),
            final(self)@ == old(self)@.cancel_publication(inode_id, lease_epoch, publication_id),
    {
        let ghost v = self@;
        if self.publication_state(inode_id, lease_epoch, publication_id).is_ok() {
            proof {
                assert(v.entry_wf(inode_id.0, self.limits));
            }
            let (session, facts) = self.take_session(inode_id);
            let mut session = session;
            session.active_publication = None;
            self.put_session(session, facts, Ghost(v));
        }
    }

    /// Returns the live session of an inode, or one that a submitted publication retains.
    /// A caller checks the lease deadline before it admits new work.
    pub fn get_session(&mut self, inode_id: InodeId, now_ms: u64) -> (r: Option<WriteSession>)
        requires
            old(self).wf(),
        ensures
            final(self).wf(),
            final(self).limits() == old(self).limits(),
            final(self)@ == old(self)@.tidied(inode_id.0, now_ms),
            match r {
                Some(session) => final(self)@.find_session(inode_id) == Some(session@),
                None => final(self)@.find_session(inode_id) is None,
            },
    {
        self.tidy(inode_id, now_ms);
        match self.state.get_entry(inode_id) {
            Some(WriteSessionEntry::Active(session)) => Some((**session).clone()),
            _ => None,
        }
    }

    /// Returns the small snapshot of the inode's session.
    pub fn get_session_identity(&mut self, inode_id: InodeId, now_ms: u64) -> (r: Option<
        WriteSessionIdentity,
    >)
        requires
            old(self).wf(),
        ensures
            final(self).wf(),
            final(self).limits() == old(self).limits(),
            final(self)@ == old(self)@.tidied(inode_id.0, now_ms),
            r == final(self)@.session_identity(inode_id),
    {
        self.tidy(inode_id, now_ms);
        match self.state.get_entry(inode_id) {
            Some(WriteSessionEntry::Active(session)) => Some(
                WriteSessionIdentity {
                    mount_id: session.mount_id,
                    lease_epoch: session.lease_epoch,
                    open_client_id: session.open_client_id,
                },
            ),
            _ => None,
        }
    }

    /// Removes only the session with the presented epoch.
    pub fn remove_session_if_epoch(&mut self, inode_id: InodeId, lease_epoch: LeaseEpoch) -> (r:
        Option<WriteSession>)
        requires
            old(self).wf(),
        ensures
            final(self).wf(),
            final(self).limits() == old(self).limits(),
            ({
                let outcome = old(self)@.remove_session_if_epoch(inode_id, lease_epoch);
                &&& final(self)@ == outcome.0
                &&& match r {
                    Some(session) => outcome.1 == Some(session@),
                    None => outcome.1 is None,
                }
            }),
    {
        proof {
            lemma_without_entry(self@, self.limits, inode_id.0);
        }
        if self.session_state(inode_id, lease_epoch).is_err() {
            return None;
        }
        match self.state.remove_entry(inode_id) {
            Some(WriteSessionEntry::Active(session)) => Some(*session),
            _ => {
                assert(false);
                None
            },
        }
    }

    /// Checks that a non-expired active session owns the presented epoch.
    pub fn validate_session(
        &mut self,
        inode_id: InodeId,
        lease_epoch: LeaseEpoch,
        now_ms: u64,
    ) -> (r: Result<(), WriteSessionError>)
        requires
            old(self).wf(),
        ensures
            final(self).wf(),
            final(self).limits() == old(self).limits(),
            (final(self)@, r) == old(self)@.validate_session(inode_id, lease_epoch, now_ms),
    {
        let past_deadline = match self.state.get_entry(inode_id) {
            Some(entry) => entry.expires_at_ms() <= now_ms,
            None => false,
        };
        proof {
            lemma_tidied(self@, self.limits, inode_id.0, now_ms);
        }
        if past_deadline {
            self.state.retire_expired_entry_for_inode(inode_id, now_ms);
            return Err(WriteSessionError::Expired);
        }
        self.state.retire_expired_entries(now_ms);
        match self.state.get_entry(inode_id) {
            Some(WriteSessionEntry::Active(session)) => if session.lease_epoch != lease_epoch {
                Err(
                    WriteSessionError::LeaseEpochMismatch {
                        expected: session.lease_epoch,
                        got: lease_epoch,
                    },
                )
            } else {
                Ok(())
            },
            _ => Err(WriteSessionError::NotFound),
        }
    }

    /// Checks ownership and moves the lease deadline forward. Returns the new deadline.
    pub fn renew_session_at(
        &mut self,
        inode_id: InodeId,
        lease_epoch: LeaseEpoch,
        client_id: ClientId,
        now_ms: u64,
    ) -> (r: Result<u64, WriteSessionError>)
        requires
            old(self).wf(),
        ensures
            final(self).wf(),
            final(self).limits() == old(self).limits(),
            (final(self)@, r) == old(self)@.renew_session(
                old(self).limits(),
                inode_id,
                lease_epoch,
                client_id,
                now_ms,
            ),
    {
        match self.validate_session(inode_id, lease_epoch, now_ms) {
            Ok(()) => {},
            Err(e) => return Err(e),
        }
        let ghost v = self@;
        match self.session_state(inode_id, lease_epoch) {
            Ok(session) => {
                if session.open_client_id != client_id {
                    return Err(WriteSessionError::OwnerMismatch);
                }
            },
            Err(_) => {
                assert(false);
            },
        }
        proof {
            assert(v.entry_wf(inode_id.0, self.limits));
        }
        let renewed: u64 = now_ms.saturating_add(self.limits.session_ttl_ms);
        let (session, facts) = self.take_session(inode_id);
        let mut session = session;
        let expires_at_ms: u64 = if renewed > session.expires_at_ms {
            renewed
        } else {
            session.expires_at_ms
        };
        session.expires_at_ms = expires_at_ms;
        self.put_session(session, facts, Ghost(v));
        Ok(expires_at_ms)
    }

    /// Retires one bounded batch of expired sessions. Returns how many were retired.
    pub fn retire_expired_batch(&mut self, now_ms: u64) -> (r: usize)
        requires
            old(self).wf(),
        ensures
            final(self).wf(),
            final(self).limits() == old(self).limits(),
            final(self)@ == old(self)@.sweep(now_ms),
            r == old(self)@.swept_count(
                now_ms,
                MAX_EXPIRED_SESSION_RETIREMENTS_PER_CALL as nat,
            ),
            r <= MAX_EXPIRED_SESSION_RETIREMENTS_PER_CALL,
    {
        proof {
            lemma_tidied(self@, self.limits, 0, now_ms);
        }
        self.state.retire_expired_entries(now_ms)
    }

    /// Retires the session of one inode if it is expired, even beyond the sweep budget.
    /// Returns whether it was.
    pub fn retire_expired_entry_for_inode(&mut self, inode_id: InodeId, now_ms: u64) -> (r: bool)
        requires
            old(self).wf(),
        ensures
            final(self).wf(),
            final(self).limits() == old(self).limits(),
            final(self)@ == old(self)@.retire_inode(inode_id.0, now_ms),
            r == (old(self)@.entries.contains_key(inode_id.0) && old(
                self,
            )@.entries[inode_id.0].retirement_at_ms() <= now_ms),
    {
        proof {
            lemma_tidied(self@, self.limits, inode_id.0, now_ms);
        }
        self.state.retire_expired_entry_for_inode(inode_id, now_ms)
    }

    /// Returns whether the inode itself or anything below it has a live writer or a
    /// submitted publication.
    pub fn has_active_write_under(&mut self, inode_id: InodeId, now_ms: u64) -> (r: bool)
        requires
            old(self).wf(),
        ensures
            final(self).wf(),
            final(self).limits() == old(self).limits(),
            final(self)@ == old(self)@.sweep(now_ms),
            r == old(self)@.writes_under(inode_id, now_ms),
    {
        proof {
            lemma_tidied(self@, self.limits, inode_id.0, now_ms);
            crate::session::laws::sweep_keeps_live_writes(self@, self.limits, inode_id, now_ms);
        }
        self.state.retire_expired_entries(now_ms);
        self.state.has_writes_under(inode_id, now_ms)
    }

    /// Returns whether the inode has a live writer or a submitted publication.
    pub fn has_active_write(&mut self, inode_id: InodeId, now_ms: u64) -> (r: bool)
        requires
            old(self).wf(),
        ensures
            final(self).wf(),
            final(self).limits() == old(self).limits(),
            final(self)@ == old(self)@.sweep(now_ms),
            r == old(self)@.writes_under(inode_id, now_ms),
    {
        self.has_active_write_under(inode_id, now_ms)
    }

    /// Returns the numbers of opening and of active sessions.
    pub fn session_gauges(&self) -> (r: (usize, usize))
        requires
            self.wf(),
        ensures
            r.0 == self@.openings() + self@.creates.dom().len(),
            r.1 == self@.entries.dom().len() - self@.openings(),
    {
        (self.state.opening_count(), self.state.active_count())
    }

    /// Returns the numbers of pending and of issued targets.
    pub fn write_target_gauges(&self) -> (r: (usize, usize))
        requires
            self.wf(),
        ensures
            r.0 == self@.pending(),
            r.1 == self@.outstanding() - self@.pending(),
    {
        proof {
            crate::session::model::lemma_counters_are_bounded(self@);
        }
        (self.state.pending(), self.state.outstanding() - self.state.pending())
    }
}

impl Default for SessionRegistry {
    fn default() -> (r: Self)
        ensures
            r.wf(),
            r@ == RegistryView::empty(),
            r.limits() == (RegistryLimits {
                max_sessions: DEFAULT_MAX_SESSIONS,
                max_sessions_per_client: DEFAULT_MAX_SESSIONS_PER_CLIENT,
                max_write_targets: DEFAULT_MAX_WRITE_TARGETS,
                max_write_targets_per_session: DEFAULT_MAX_WRITE_TARGETS_PER_SESSION,
                session_ttl_ms: DEFAULT_WRITE_LEASE_TIMEOUT_MS,
            }),
    {
        SessionRegistry::new(
            DEFAULT_MAX_SESSIONS,
            DEFAULT_MAX_SESSIONS_PER_CLIENT,
            DEFAULT_MAX_WRITE_TARGETS,
            DEFAULT_MAX_WRITE_TARGETS_PER_SESSION,
            DEFAULT_WRITE_LEASE_TIMEOUT_MS,
        )
    }
}

} // verus!
