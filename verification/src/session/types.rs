//! Values of the session registry: sessions, openings, owners and errors.

use std::collections::HashSet;
use vstd::prelude::*;

use crate::config::MAX_PATH_COMPONENTS;
use crate::fs::{ContentGeneration, WriteMode};
use crate::ids::{BlockId, ClientId, InodeId, MountId};
use crate::layout::{BlockShapeError, FileLayout};
use crate::lease::LeaseEpoch;
use crate::location::{copy_located, located_views, LocatedBlock, LocatedBlockView};
use crate::session::index::CreateFileOperationId;
use crate::text::{decimal, decimal_text, join};

verus! {

broadcast use vstd::std_specs::hash::group_hash_axioms;

/// Process-local identity of one opening attempt. It tells a cancelled attempt from
/// its replacement where both propose the same epoch.
#[derive(Clone, Copy, Debug, PartialEq, Eq, Hash, Structural)]
pub struct WriteOpeningId(pub u64);

/// Process-local identity of one publication attempt.
#[derive(Clone, Copy, Debug, PartialEq, Eq, Hash, Structural)]
pub struct WritePublicationId(pub u64);

/// One allocation step, addressed by its predecessor, that is crossing block
/// allocation.
#[derive(Clone, Copy, Debug, PartialEq, Eq, Hash, Structural)]
pub struct PendingAllocateBlock {
    pub previous_block_id: Option<BlockId>,
}

/// One allocation step that has been issued: its predecessor and its target.
#[derive(Clone, Copy, Debug, PartialEq, Eq, Hash, Structural)]
pub struct IssuedStep {
    pub previous_block_id: Option<BlockId>,
    pub target_index: usize,
}

/// Fixed limits of the registry.
#[derive(Clone, Copy, Debug, PartialEq, Eq, Hash, Structural)]
pub struct RegistryLimits {
    pub max_sessions: usize,
    pub max_sessions_per_client: usize,
    pub max_write_targets: usize,
    pub max_write_targets_per_session: usize,
    /// Lifetime given at opening and by each renewal.
    pub session_ttl_ms: u64,
}

impl RegistryLimits {
    /// Every limit is positive, and no partial limit exceeds its process-wide one.
    pub open spec fn valid(self) -> bool {
        &&& 0 < self.max_sessions_per_client <= self.max_sessions
        &&& 0 < self.max_write_targets_per_session <= self.max_write_targets
    }
}

/// What a create returned, kept unchanged for exact replay.
#[derive(Clone, Copy, Debug, PartialEq, Eq, Hash, Structural)]
pub struct CreateSessionReplay {
    pub inode_id: InodeId,
    pub lease_epoch: LeaseEpoch,
    pub layout: FileLayout,
    pub expires_at_ms: u64,
    pub generation: ContentGeneration,
}

/// Immutable identity and response of the create that an active session came from.
#[derive(Debug)]
pub struct ActiveCreateReplay {
    pub operation_id: CreateFileOperationId,
    pub request_deadline_ms: u64,
    pub normalized_path: String,
    pub mount_id: MountId,
    pub expected_mount_epoch: u64,
    pub mount_root_inode_id: InodeId,
    pub response: CreateSessionReplay,
}

/// The value of an `ActiveCreateReplay`.
pub struct ActiveCreateReplayView {
    pub operation_id: CreateFileOperationId,
    pub request_deadline_ms: u64,
    pub normalized_path: Seq<char>,
    pub mount_id: MountId,
    pub expected_mount_epoch: u64,
    pub mount_root_inode_id: InodeId,
    pub response: CreateSessionReplay,
}

impl View for ActiveCreateReplay {
    type V = ActiveCreateReplayView;

    open spec fn view(&self) -> ActiveCreateReplayView {
        ActiveCreateReplayView {
            operation_id: self.operation_id,
            request_deadline_ms: self.request_deadline_ms,
            normalized_path: self.normalized_path@,
            mount_id: self.mount_id,
            expected_mount_epoch: self.expected_mount_epoch,
            mount_root_inode_id: self.mount_root_inode_id,
            response: self.response,
        }
    }
}

impl Clone for ActiveCreateReplay {
    fn clone(&self) -> (r: Self)
        ensures
            r@ == self@,
    {
        ActiveCreateReplay {
            operation_id: self.operation_id,
            request_deadline_ms: self.request_deadline_ms,
            normalized_path: self.normalized_path.clone(),
            mount_id: self.mount_id,
            expected_mount_epoch: self.expected_mount_epoch,
            mount_root_inode_id: self.mount_root_inode_id,
            response: self.response,
        }
    }
}

/// Leader-local continuation state of one admitted write. It is not durable authority:
/// the persisted epoch fences writers across replay and restart.
#[derive(Debug)]
pub struct WriteSession {
    pub inode_id: InodeId,
    pub mount_id: MountId,
    pub lease_epoch: LeaseEpoch,
    /// File size at open time, and after each sync.
    pub base_size: u64,
    /// Last durable content generation that this session observed.
    pub generation: ContentGeneration,
    pub mode: WriteMode,
    pub open_client_id: ClientId,
    pub layout: FileLayout,
    pub expires_at_ms: u64,
    /// Chain from the mount root to the file, taken while the namespace was stable.
    pub ancestor_inode_ids: Vec<InodeId>,
    /// Targets already issued to the client.
    pub issued_targets: Vec<LocatedBlock>,
    /// Allocation steps already issued, for replay by predecessor.
    pub issued_steps: Vec<IssuedStep>,
    /// The one allocation step that is crossing block allocation.
    pub pending_allocate_block: Option<PendingAllocateBlock>,
    /// The publication that freezes the issued targets.
    pub active_publication: Option<WritePublicationId>,
    /// Whether that publication has been submitted. It pins the session until it is
    /// resolved.
    pub publication_submitted: bool,
    pub create_replay: Option<ActiveCreateReplay>,
}

/// The value of a `WriteSession`.
pub struct WriteSessionView {
    pub inode_id: InodeId,
    pub mount_id: MountId,
    pub lease_epoch: LeaseEpoch,
    pub base_size: u64,
    pub generation: ContentGeneration,
    pub mode: WriteMode,
    pub open_client_id: ClientId,
    pub layout: FileLayout,
    pub expires_at_ms: u64,
    pub ancestor_inode_ids: Seq<InodeId>,
    pub issued_targets: Seq<LocatedBlockView>,
    pub issued_steps: Seq<IssuedStep>,
    pub pending_allocate_block: Option<PendingAllocateBlock>,
    pub active_publication: Option<WritePublicationId>,
    pub publication_submitted: bool,
    pub create_replay: Option<ActiveCreateReplayView>,
}

impl View for WriteSession {
    type V = WriteSessionView;

    open spec fn view(&self) -> WriteSessionView {
        WriteSessionView {
            inode_id: self.inode_id,
            mount_id: self.mount_id,
            lease_epoch: self.lease_epoch,
            base_size: self.base_size,
            generation: self.generation,
            mode: self.mode,
            open_client_id: self.open_client_id,
            layout: self.layout,
            expires_at_ms: self.expires_at_ms,
            ancestor_inode_ids: self.ancestor_inode_ids@,
            issued_targets: located_views(self.issued_targets@),
            issued_steps: self.issued_steps@,
            pending_allocate_block: self.pending_allocate_block,
            active_publication: self.active_publication,
            publication_submitted: self.publication_submitted,
            create_replay: match self.create_replay {
                Some(replay) => Some(replay@),
                None => None,
            },
        }
    }
}

/// Returns a copy of the inode identities.
pub fn copy_inodes(inodes: &Vec<InodeId>) -> (r: Vec<InodeId>)
    ensures
        r@ == inodes@,
{
    let mut out: Vec<InodeId> = Vec::new();
    let mut i: usize = 0;
    while i < inodes.len()
        invariant
            i <= inodes@.len(),
            out@ == inodes@.take(i as int),
        decreases inodes.len() - i,
    {
        out.push(inodes[i]);
        assert(inodes@.take(i as int + 1) =~= inodes@.take(i as int).push(inodes@[i as int]));
        i += 1;
    }
    assert(inodes@.take(i as int) =~= inodes@);
    out
}

fn copy_steps(steps: &Vec<IssuedStep>) -> (r: Vec<IssuedStep>)
    ensures
        r@ == steps@,
{
    let mut out: Vec<IssuedStep> = Vec::new();
    let mut i: usize = 0;
    while i < steps.len()
        invariant
            i <= steps@.len(),
            out@ == steps@.take(i as int),
        decreases steps.len() - i,
    {
        out.push(steps[i]);
        assert(steps@.take(i as int + 1) =~= steps@.take(i as int).push(steps@[i as int]));
        i += 1;
    }
    assert(steps@.take(i as int) =~= steps@);
    out
}

impl Clone for WriteSession {
    fn clone(&self) -> (r: Self)
        ensures
            r@ == self@,
    {
        let create_replay = match &self.create_replay {
            Some(replay) => Some(replay.clone()),
            None => None,
        };
        WriteSession {
            inode_id: self.inode_id,
            mount_id: self.mount_id,
            lease_epoch: self.lease_epoch,
            base_size: self.base_size,
            generation: self.generation,
            mode: self.mode,
            open_client_id: self.open_client_id,
            layout: self.layout,
            expires_at_ms: self.expires_at_ms,
            ancestor_inode_ids: copy_inodes(&self.ancestor_inode_ids),
            issued_targets: copy_located(&self.issued_targets),
            issued_steps: copy_steps(&self.issued_steps),
            pending_allocate_block: self.pending_allocate_block,
            active_publication: self.active_publication,
            publication_submitted: self.publication_submitted,
            create_replay,
        }
    }
}

/// Small snapshot of an active session.
#[derive(Clone, Copy, Debug, PartialEq, Eq, Hash, Structural)]
pub struct WriteSessionIdentity {
    pub mount_id: MountId,
    pub lease_epoch: LeaseEpoch,
    pub open_client_id: ClientId,
}

/// State held while an opening waits for durable epoch fencing.
#[derive(Debug)]
pub struct OpeningSession {
    pub opening_id: WriteOpeningId,
    pub inode_id: InodeId,
    pub mount_id: MountId,
    pub proposed_lease_epoch: LeaseEpoch,
    pub mode: WriteMode,
    pub open_client_id: ClientId,
    pub layout: FileLayout,
    pub expires_at_ms: u64,
    pub ancestor_inode_ids: Vec<InodeId>,
}

/// The value of an `OpeningSession`.
pub struct OpeningSessionView {
    pub opening_id: WriteOpeningId,
    pub inode_id: InodeId,
    pub mount_id: MountId,
    pub proposed_lease_epoch: LeaseEpoch,
    pub mode: WriteMode,
    pub open_client_id: ClientId,
    pub layout: FileLayout,
    pub expires_at_ms: u64,
    pub ancestor_inode_ids: Seq<InodeId>,
}

impl View for OpeningSession {
    type V = OpeningSessionView;

    open spec fn view(&self) -> OpeningSessionView {
        OpeningSessionView {
            opening_id: self.opening_id,
            inode_id: self.inode_id,
            mount_id: self.mount_id,
            proposed_lease_epoch: self.proposed_lease_epoch,
            mode: self.mode,
            open_client_id: self.open_client_id,
            layout: self.layout,
            expires_at_ms: self.expires_at_ms,
            ancestor_inode_ids: self.ancestor_inode_ids@,
        }
    }
}

/// Lifecycle state of one inode.
#[derive(Debug)]
pub enum WriteSessionEntry {
    /// Capacity and inode exclusion are held while durable fencing is pending.
    Opening(OpeningSession),
    /// The durable epoch was acquired.
    Active(Box<WriteSession>),
}

/// The value of a `WriteSessionEntry`.
pub enum EntryView {
    Opening(OpeningSessionView),
    Active(WriteSessionView),
}

impl View for WriteSessionEntry {
    type V = EntryView;

    open spec fn view(&self) -> EntryView {
        match self {
            WriteSessionEntry::Opening(opening) => EntryView::Opening(opening@),
            WriteSessionEntry::Active(session) => EntryView::Active((**session)@),
        }
    }
}

impl EntryView {
    pub open spec fn inode_id(self) -> InodeId {
        match self {
            EntryView::Opening(o) => o.inode_id,
            EntryView::Active(s) => s.inode_id,
        }
    }

    pub open spec fn client_id(self) -> ClientId {
        match self {
            EntryView::Opening(o) => o.open_client_id,
            EntryView::Active(s) => s.open_client_id,
        }
    }

    pub open spec fn expires_at_ms(self) -> u64 {
        match self {
            EntryView::Opening(o) => o.expires_at_ms,
            EntryView::Active(s) => s.expires_at_ms,
        }
    }

    pub open spec fn ancestors(self) -> Seq<InodeId> {
        match self {
            EntryView::Opening(o) => o.ancestor_inode_ids,
            EntryView::Active(s) => s.ancestor_inode_ids,
        }
    }

    /// When the entry may be retired. A submitted publication outlives its lease.
    pub open spec fn retirement_at_ms(self) -> u64 {
        match self {
            EntryView::Active(s) => if s.publication_submitted {
                u64::MAX
            } else {
                s.expires_at_ms
            },
            EntryView::Opening(o) => o.expires_at_ms,
        }
    }

    /// The create operation that the entry can replay.
    pub open spec fn replay_operation(self) -> Option<CreateFileOperationId> {
        match self {
            EntryView::Active(s) => match s.create_replay {
                Some(replay) => Some(replay.operation_id),
                None => None,
            },
            EntryView::Opening(_) => None,
        }
    }

    /// Pending targets of the entry.
    pub open spec fn pending_targets(self) -> nat {
        match self {
            EntryView::Active(s) => if s.pending_allocate_block is Some {
                1
            } else {
                0
            },
            EntryView::Opening(_) => 0,
        }
    }

    /// Pending and issued targets of the entry.
    pub open spec fn owned_targets(self) -> nat {
        match self {
            EntryView::Active(s) => s.issued_targets.len() + self.pending_targets(),
            EntryView::Opening(_) => 0,
        }
    }
}

impl WriteSessionEntry {
    /// Returns the inode that the entry belongs to.
    pub fn inode_id(&self) -> (r: InodeId)
        ensures
            r == self@.inode_id(),
    {
        match self {
            WriteSessionEntry::Opening(opening) => opening.inode_id,
            WriteSessionEntry::Active(session) => session.inode_id,
        }
    }

    /// Returns the client that the entry is attributed to.
    pub fn client_id(&self) -> (r: ClientId)
        ensures
            r == self@.client_id(),
    {
        match self {
            WriteSessionEntry::Opening(opening) => opening.open_client_id,
            WriteSessionEntry::Active(session) => session.open_client_id,
        }
    }

    /// Returns the lease deadline.
    pub fn expires_at_ms(&self) -> (r: u64)
        ensures
            r == self@.expires_at_ms(),
    {
        match self {
            WriteSessionEntry::Opening(opening) => opening.expires_at_ms,
            WriteSessionEntry::Active(session) => session.expires_at_ms,
        }
    }

    /// Returns when the entry may be retired: a submitted publication outlives its lease.
    pub fn retirement_at_ms(&self) -> (r: u64)
        ensures
            r == self@.retirement_at_ms(),
    {
        match self {
            WriteSessionEntry::Opening(opening) => opening.expires_at_ms,
            WriteSessionEntry::Active(session) => if session.publication_submitted {
                u64::MAX
            } else {
                session.expires_at_ms
            },
        }
    }

    /// Returns the captured path of the entry.
    pub fn ancestor_inode_ids(&self) -> (r: &Vec<InodeId>)
        ensures
            r@ == self@.ancestors(),
    {
        match self {
            WriteSessionEntry::Opening(opening) => &opening.ancestor_inode_ids,
            WriteSessionEntry::Active(session) => &session.ancestor_inode_ids,
        }
    }

    /// Returns whether durable fencing is still pending.
    pub fn is_opening(&self) -> (r: bool)
        ensures
            r == self@ is Opening,
    {
        match self {
            WriteSessionEntry::Opening(_) => true,
            WriteSessionEntry::Active(_) => false,
        }
    }

    /// Returns the create operation that the entry can replay.
    pub fn replay_operation(&self) -> (r: Option<CreateFileOperationId>)
        ensures
            r == self@.replay_operation(),
    {
        match self {
            WriteSessionEntry::Opening(_) => None,
            WriteSessionEntry::Active(session) => match &session.create_replay {
                Some(replay) => Some(replay.operation_id),
                None => None,
            },
        }
    }

    /// Returns the number of pending targets: one or none.
    pub fn pending_targets(&self) -> (r: usize)
        ensures
            r == self@.pending_targets(),
            r <= 1,
    {
        match self {
            WriteSessionEntry::Opening(_) => 0,
            WriteSessionEntry::Active(session) => if session.pending_allocate_block.is_some() {
                1
            } else {
                0
            },
        }
    }

    /// Returns the number of issued targets.
    pub fn issued_targets(&self) -> (r: usize)
        ensures
            r + self@.pending_targets() == self@.owned_targets(),
    {
        match self {
            WriteSessionEntry::Opening(_) => 0,
            WriteSessionEntry::Active(session) => session.issued_targets.len(),
        }
    }
}

/// Capacity reserved for a create before it has a durable inode.
#[derive(Debug)]
pub struct CreateOpeningSession {
    pub opening_id: WriteOpeningId,
    pub operation_id: CreateFileOperationId,
    pub request_deadline_ms: u64,
    pub normalized_path: String,
    pub mount_id: MountId,
    pub expected_mount_epoch: u64,
    pub mount_root_inode_id: InodeId,
    pub open_client_id: ClientId,
    pub expires_at_ms: u64,
    pub parent_ancestor_inode_ids: Vec<InodeId>,
}

/// The value of a `CreateOpeningSession`.
pub struct CreateOpeningView {
    pub opening_id: WriteOpeningId,
    pub operation_id: CreateFileOperationId,
    pub request_deadline_ms: u64,
    pub normalized_path: Seq<char>,
    pub mount_id: MountId,
    pub expected_mount_epoch: u64,
    pub mount_root_inode_id: InodeId,
    pub open_client_id: ClientId,
    pub expires_at_ms: u64,
    pub parent_ancestor_inode_ids: Seq<InodeId>,
}

impl View for CreateOpeningSession {
    type V = CreateOpeningView;

    open spec fn view(&self) -> CreateOpeningView {
        CreateOpeningView {
            opening_id: self.opening_id,
            operation_id: self.operation_id,
            request_deadline_ms: self.request_deadline_ms,
            normalized_path: self.normalized_path@,
            mount_id: self.mount_id,
            expected_mount_epoch: self.expected_mount_epoch,
            mount_root_inode_id: self.mount_root_inode_id,
            open_client_id: self.open_client_id,
            expires_at_ms: self.expires_at_ms,
            parent_ancestor_inode_ids: self.parent_ancestor_inode_ids@,
        }
    }
}

/// Inputs of an opening, checked by the caller against persisted state.
#[derive(Debug)]
pub struct BeginSessionInput {
    /// Normalized path, which excludes a pending create of the same path.
    pub normalized_path: String,
    pub mount_id: MountId,
    pub inode_id: InodeId,
    pub current_lease_epoch: LeaseEpoch,
    pub mode: WriteMode,
    pub open_client_id: ClientId,
    pub layout: FileLayout,
    pub ancestor_inode_ids: Vec<InodeId>,
}

/// The value of a `BeginSessionInput`.
pub struct BeginSessionInputView {
    pub normalized_path: Seq<char>,
    pub mount_id: MountId,
    pub inode_id: InodeId,
    pub current_lease_epoch: LeaseEpoch,
    pub mode: WriteMode,
    pub open_client_id: ClientId,
    pub layout: FileLayout,
    pub ancestor_inode_ids: Seq<InodeId>,
}

impl View for BeginSessionInput {
    type V = BeginSessionInputView;

    open spec fn view(&self) -> BeginSessionInputView {
        BeginSessionInputView {
            normalized_path: self.normalized_path@,
            mount_id: self.mount_id,
            inode_id: self.inode_id,
            current_lease_epoch: self.current_lease_epoch,
            mode: self.mode,
            open_client_id: self.open_client_id,
            layout: self.layout,
            ancestor_inode_ids: self.ancestor_inode_ids@,
        }
    }
}

/// Inputs of a create, reserved before it crosses the Raft boundary.
#[derive(Debug)]
pub struct BeginCreateSessionInput {
    pub operation_id: CreateFileOperationId,
    pub request_deadline_ms: u64,
    pub normalized_path: String,
    pub mount_id: MountId,
    pub expected_mount_epoch: u64,
    pub mount_root_inode_id: InodeId,
    pub open_client_id: ClientId,
    /// Chain from the mount root to the parent.
    pub parent_ancestor_inode_ids: Vec<InodeId>,
}

/// The value of a `BeginCreateSessionInput`.
pub struct BeginCreateSessionInputView {
    pub operation_id: CreateFileOperationId,
    pub request_deadline_ms: u64,
    pub normalized_path: Seq<char>,
    pub mount_id: MountId,
    pub expected_mount_epoch: u64,
    pub mount_root_inode_id: InodeId,
    pub open_client_id: ClientId,
    pub parent_ancestor_inode_ids: Seq<InodeId>,
}

impl View for BeginCreateSessionInput {
    type V = BeginCreateSessionInputView;

    open spec fn view(&self) -> BeginCreateSessionInputView {
        BeginCreateSessionInputView {
            operation_id: self.operation_id,
            request_deadline_ms: self.request_deadline_ms,
            normalized_path: self.normalized_path@,
            mount_id: self.mount_id,
            expected_mount_epoch: self.expected_mount_epoch,
            mount_root_inode_id: self.mount_root_inode_id,
            open_client_id: self.open_client_id,
            parent_ancestor_inode_ids: self.parent_ancestor_inode_ids@,
        }
    }
}

/// Capacity boundary that rejected a session.
#[derive(Clone, Copy, Debug, PartialEq, Eq, Hash, Structural)]
pub enum WriteSessionLimit {
    /// Opening and active sessions of the process.
    Global,
    /// Opening and active sessions of one client.
    PerClient,
}

impl WriteSessionLimit {
    /// The stable label of the boundary.
    pub open spec fn text(self) -> Seq<char> {
        match self {
            WriteSessionLimit::Global => "global"@,
            WriteSessionLimit::PerClient => "per_client"@,
        }
    }

    /// Returns the stable label of the boundary.
    pub fn label(self) -> (r: &'static str)
        ensures
            r@ == self.text(),
    {
        match self {
            WriteSessionLimit::Global => "global",
            WriteSessionLimit::PerClient => "per_client",
        }
    }
}

/// Capacity boundary that rejected a write target.
#[derive(Clone, Copy, Debug, PartialEq, Eq, Hash, Structural)]
pub enum WriteTargetLimit {
    /// Pending and issued targets of the process.
    Global,
    /// Pending and issued targets of one session.
    PerSession,
}

impl WriteTargetLimit {
    /// The stable label of the boundary.
    pub open spec fn text(self) -> Seq<char> {
        match self {
            WriteTargetLimit::Global => "global"@,
            WriteTargetLimit::PerSession => "per_session"@,
        }
    }

    /// Returns the stable label of the boundary.
    pub fn label(self) -> (r: &'static str)
        ensures
            r@ == self.text(),
    {
        match self {
            WriteTargetLimit::Global => "global",
            WriteTargetLimit::PerSession => "per_session",
        }
    }
}

/// The session limit that was reached.
#[derive(Clone, Copy, Debug, PartialEq, Eq, Hash, Structural)]
pub struct WriteSessionLimitExceeded {
    pub limit: WriteSessionLimit,
    pub maximum: usize,
}

/// The target limit that was reached.
#[derive(Clone, Copy, Debug, PartialEq, Eq, Hash, Structural)]
pub struct WriteTargetLimitExceeded {
    pub limit: WriteTargetLimit,
    pub maximum: usize,
}

/// Why a create cannot be reserved.
#[derive(Clone, Copy, Debug, PartialEq, Eq, Structural)]
pub enum BeginCreateSessionError {
    /// The same operation is still waiting for its result.
    Pending,
    /// The operation identity was reused for another request.
    IdentityMismatch,
    /// Another create holds the path.
    PathBusy,
    /// No capacity is left.
    LimitExceeded(WriteSessionLimitExceeded),
    /// Opening identities are exhausted.
    OpeningIdExhausted,
    /// The captured parent path is empty, cyclic or too deep.
    InvalidAncestorChain,
}

/// Why a write session cannot begin.
#[derive(Clone, Copy, Debug, PartialEq, Eq, Structural)]
pub enum BeginSessionError {
    /// Another session owns the inode, or a pending create holds the path.
    Busy,
    /// No capacity is left.
    LimitExceeded(WriteSessionLimitExceeded),
    /// The durable epoch cannot advance.
    LeaseEpochExhausted,
    /// Opening identities are exhausted.
    OpeningIdExhausted,
    /// The captured path is empty, cyclic, too deep, or ends elsewhere.
    InvalidAncestorChain,
}

/// Why an opening cannot become an active session.
#[derive(Clone, Copy, Debug, PartialEq, Eq, Structural)]
pub enum WriteOpeningError {
    /// Opening an existing tail takes a target slot, and none is left.
    TargetLimit,
    /// The opening expired before its result was installed.
    Expired,
    /// The opening was removed or replaced.
    NotCurrent,
    /// The result does not match the proposed epoch.
    LeaseEpochMismatch { expected: LeaseEpoch, got: LeaseEpoch },
}

/// Why an active session was not validated or renewed.
#[derive(Clone, Copy, Debug, PartialEq, Eq, Structural)]
pub enum WriteSessionError {
    /// The inode has no active session.
    NotFound,
    /// The presented epoch is not the session's.
    LeaseEpochMismatch { expected: LeaseEpoch, got: LeaseEpoch },
    /// The presented client does not own the session.
    OwnerMismatch,
    /// The session has expired.
    Expired,
}

/// Why no active session matches an inode and an epoch.
#[derive(Clone, Copy, Debug, PartialEq, Eq, Structural)]
pub enum SessionStateError {
    StillOpening,
    NotFound,
    LeaseEpochMismatch,
}

impl SessionStateError {
    /// The wording of this error.
    pub open spec fn text(self) -> Seq<char> {
        match self {
            SessionStateError::StillOpening => "write session is still opening"@,
            SessionStateError::NotFound => "write session not found"@,
            SessionStateError::LeaseEpochMismatch => "write session lease epoch mismatch"@,
        }
    }

    /// Returns the wording of this error.
    pub fn message(self) -> (r: String)
        ensures
            r@ == self.text(),
    {
        match self {
            SessionStateError::StillOpening => "write session is still opening".to_owned(),
            SessionStateError::NotFound => "write session not found".to_owned(),
            SessionStateError::LeaseEpochMismatch => "write session lease epoch mismatch".to_owned(),
        }
    }
}

/// Diagnostic text of an optional block identity.
pub open spec fn optional_block_text(id: Option<BlockId>) -> Seq<char> {
    match id {
        None => "None"@,
        Some(b) => "Some(BlockId(inode_id="@ + decimal(b.inode_id.0 as nat) + ", index="@
            + decimal(b.index.0 as nat) + "))"@,
    }
}

/// Returns the diagnostic text of an optional block identity.
pub fn optional_block_message(id: Option<BlockId>) -> (r: String)
    ensures
        r@ == optional_block_text(id),
{
    match id {
        None => "None".to_owned(),
        Some(b) => {
            let inode = decimal_text(b.inode_id.0 as u128);
            let index = decimal_text(b.index.0 as u128);
            let mut out = join("Some(BlockId(inode_id=", inode.as_str());
            out.append(", index=");
            out.append(index.as_str());
            out.append("))");
            out
        },
    }
}

/// Why an allocation step is not valid for the session.
#[derive(Clone, Copy, Debug, PartialEq, Eq, Structural)]
pub enum InvalidAllocation {
    PredecessorMismatch { expected: Option<BlockId>, got: Option<BlockId> },
    OffsetOverflow,
}

impl InvalidAllocation {
    /// The wording of this error.
    pub open spec fn text(self) -> Seq<char> {
        match self {
            InvalidAllocation::PredecessorMismatch { expected, got } =>
                "AllocateBlock predecessor mismatch: expected "@ + optional_block_text(expected)
                    + ", got "@ + optional_block_text(got),
            InvalidAllocation::OffsetOverflow => "write target file offset overflow"@,
        }
    }

    /// Returns the wording of this error.
    pub fn message(self) -> (r: String)
        ensures
            r@ == self.text(),
    {
        match self {
            InvalidAllocation::PredecessorMismatch { expected, got } => {
                let expected_text = optional_block_message(expected);
                let got_text = optional_block_message(got);
                let mut out = join(
                    "AllocateBlock predecessor mismatch: expected ",
                    expected_text.as_str(),
                );
                out.append(", got ");
                out.append(got_text.as_str());
                out
            },
            InvalidAllocation::OffsetOverflow => "write target file offset overflow".to_owned(),
        }
    }
}

/// Why an allocation step did not begin.
#[derive(Clone, Copy, Debug, PartialEq, Eq, Structural)]
pub enum BeginAllocateBlockError {
    /// The session does not exist or the presented epoch is stale.
    Session(SessionStateError),
    /// The step is not valid for the session.
    InvalidArgument(InvalidAllocation),
    /// The same step is already allocating.
    Pending,
    /// A publication is freezing the issued targets.
    PublicationInProgress,
    /// No target capacity is left.
    LimitExceeded(WriteTargetLimitExceeded),
}

/// Why a publication did not begin.
#[derive(Clone, Copy, Debug, PartialEq, Eq, Structural)]
pub enum BeginWritePublicationError {
    /// The session does not exist or the presented epoch is stale.
    Session(SessionStateError),
    /// An allocation step is crossing block allocation.
    AllocateBlockPending,
    /// Another publication owns the session.
    PublicationInProgress,
    /// Publication identities are exhausted.
    PublicationIdExhausted,
}

/// Why a completed target does not fit the session that reserved it.
#[derive(Clone, Copy, Debug, PartialEq, Eq, Structural)]
pub enum InvalidTarget {
    InodeMismatch,
    FencingTokenMismatch,
    OffsetOverflow,
    OffsetChanged { expected: u64, got: u64 },
    TargetShape(BlockShapeError),
    LayoutShape(BlockShapeError),
    ShapeMismatch,
    NonZeroWriteOffset,
}

impl InvalidTarget {
    /// The wording of this error.
    pub open spec fn text(self) -> Seq<char> {
        match self {
            InvalidTarget::InodeMismatch => "write target inode mismatch"@,
            InvalidTarget::FencingTokenMismatch => "write target fencing token mismatch"@,
            InvalidTarget::OffsetOverflow => "write target file offset overflow"@,
            InvalidTarget::OffsetChanged { expected, got } =>
                "write target file offset changed: expected "@ + decimal(expected as nat)
                    + ", got "@ + decimal(got as nat),
            InvalidTarget::TargetShape(e) => "invalid write target shape: "@ + e.text(),
            InvalidTarget::LayoutShape(e) => "invalid session layout shape: "@ + e.text(),
            InvalidTarget::ShapeMismatch => "write target shape does not match the session layout"@,
            InvalidTarget::NonZeroWriteOffset => "new block must start at offset zero"@,
        }
    }

    /// Returns the wording of this error.
    pub fn message(self) -> (r: String)
        ensures
            r@ == self.text(),
    {
        match self {
            InvalidTarget::InodeMismatch => "write target inode mismatch".to_owned(),
            InvalidTarget::FencingTokenMismatch => "write target fencing token mismatch".to_owned(),
            InvalidTarget::OffsetOverflow => "write target file offset overflow".to_owned(),
            InvalidTarget::OffsetChanged { expected, got } => {
                let expected_text = decimal_text(expected as u128);
                let got_text = decimal_text(got as u128);
                let mut out = join(
                    "write target file offset changed: expected ",
                    expected_text.as_str(),
                );
                out.append(", got ");
                out.append(got_text.as_str());
                out
            },
            InvalidTarget::TargetShape(e) => {
                let text = e.message();
                join("invalid write target shape: ", text.as_str())
            },
            InvalidTarget::LayoutShape(e) => {
                let text = e.message();
                join("invalid session layout shape: ", text.as_str())
            },
            InvalidTarget::ShapeMismatch =>
                "write target shape does not match the session layout".to_owned(),
            InvalidTarget::NonZeroWriteOffset => "new block must start at offset zero".to_owned(),
        }
    }
}

/// Why a pending step did not become an issued target.
#[derive(Clone, Copy, Debug, PartialEq, Eq, Structural)]
pub enum CompleteWriteTargetError {
    /// Expiry, abort or replacement removed the reservation.
    NotCurrent,
    /// The completed target does not match the reserved state.
    InvalidTarget(InvalidTarget),
}

/// Why a publication could not be revalidated, submitted or completed.
#[derive(Clone, Copy, Debug, PartialEq, Eq, Structural)]
pub enum PublicationError {
    Session(SessionStateError),
    NotCurrent,
    ReplaySizeChanged { expected: u64, got: u64 },
    GenerationOverflow,
    GenerationChanged { due: ContentGeneration, given: ContentGeneration },
    LeaseEpochExhausted,
    ChangedOrExpired,
}

impl PublicationError {
    /// The wording of this error.
    pub open spec fn text(self) -> Seq<char> {
        match self {
            PublicationError::Session(e) => e.text(),
            PublicationError::NotCurrent => "write publication is no longer current"@,
            PublicationError::ReplaySizeChanged { expected, got } =>
                "replayed SyncWrite size changed: expected "@ + decimal(expected as nat) + ", got "@
                    + decimal(got as nat),
            PublicationError::GenerationOverflow => "content generation overflow"@,
            PublicationError::GenerationChanged { due, given } =>
                "SyncWrite content generation changed: expected "@ + decimal(due.0 as nat)
                    + ", got "@ + decimal(given.0 as nat),
            PublicationError::LeaseEpochExhausted =>
                "file publication write lease epoch exhausted"@,
            PublicationError::ChangedOrExpired =>
                "file publication session changed or expired before submission"@,
        }
    }

    /// Returns the wording of this error.
    pub fn message(self) -> (r: String)
        ensures
            r@ == self.text(),
    {
        match self {
            PublicationError::Session(e) => e.message(),
            PublicationError::NotCurrent => "write publication is no longer current".to_owned(),
            PublicationError::ReplaySizeChanged { expected, got } => {
                let expected_text = decimal_text(expected as u128);
                let got_text = decimal_text(got as u128);
                let mut out = join(
                    "replayed SyncWrite size changed: expected ",
                    expected_text.as_str(),
                );
                out.append(", got ");
                out.append(got_text.as_str());
                out
            },
            PublicationError::GenerationOverflow => "content generation overflow".to_owned(),
            PublicationError::GenerationChanged { due, given } => {
                let expected_text = decimal_text(due.0 as u128);
                let got_text = decimal_text(given.0 as u128);
                let mut out = join(
                    "SyncWrite content generation changed: expected ",
                    expected_text.as_str(),
                );
                out.append(", got ");
                out.append(got_text.as_str());
                out
            },
            PublicationError::LeaseEpochExhausted =>
                "file publication write lease epoch exhausted".to_owned(),
            PublicationError::ChangedOrExpired =>
                "file publication session changed or expired before submission".to_owned(),
        }
    }
}

/// Why a captured path is not the path of one write session.
#[derive(Clone, Copy, Debug, PartialEq, Eq, Structural)]
pub enum AncestorChainError {
    Empty,
    TooDeep,
    WrongEnd,
    Cycle,
}

impl AncestorChainError {
    /// The wording of this error.
    pub open spec fn text(self) -> Seq<char> {
        match self {
            AncestorChainError::Empty => "write session ancestor chain cannot be empty"@,
            AncestorChainError::TooDeep =>
                "write session ancestor chain exceeds the path depth limit"@,
            AncestorChainError::WrongEnd =>
                "write session ancestor chain must end at the file inode"@,
            AncestorChainError::Cycle => "write session ancestor chain contains a cycle"@,
        }
    }

    /// Returns the wording of this error.
    pub fn message(self) -> (r: String)
        ensures
            r@ == self.text(),
    {
        match self {
            AncestorChainError::Empty => "write session ancestor chain cannot be empty".to_owned(),
            AncestorChainError::TooDeep =>
                "write session ancestor chain exceeds the path depth limit".to_owned(),
            AncestorChainError::WrongEnd =>
                "write session ancestor chain must end at the file inode".to_owned(),
            AncestorChainError::Cycle => "write session ancestor chain contains a cycle".to_owned(),
        }
    }
}

/// Why a captured path is not the path to the parent of a pending create.
#[derive(Clone, Copy, Debug, PartialEq, Eq, Structural)]
pub enum ParentChainError {
    Empty,
    TooDeep,
    Cycle,
}

impl ParentChainError {
    /// The wording of this error.
    pub open spec fn text(self) -> Seq<char> {
        match self {
            ParentChainError::Empty => "create session parent ancestor chain cannot be empty"@,
            ParentChainError::TooDeep =>
                "create session parent ancestor chain exceeds the path depth limit"@,
            ParentChainError::Cycle => "create session parent ancestor chain contains a cycle"@,
        }
    }

    /// Returns the wording of this error.
    pub fn message(self) -> (r: String)
        ensures
            r@ == self.text(),
    {
        match self {
            ParentChainError::Empty =>
                "create session parent ancestor chain cannot be empty".to_owned(),
            ParentChainError::TooDeep =>
                "create session parent ancestor chain exceeds the path depth limit".to_owned(),
            ParentChainError::Cycle =>
                "create session parent ancestor chain contains a cycle".to_owned(),
        }
    }
}

/// The first reason why `chain` is not a bounded acyclic path that ends at `inode`.
pub open spec fn chain_error(inode: InodeId, chain: Seq<InodeId>) -> Option<AncestorChainError> {
    if chain.len() == 0 {
        Some(AncestorChainError::Empty)
    } else if chain.len() > MAX_PATH_COMPONENTS + 1 {
        Some(AncestorChainError::TooDeep)
    } else if chain.last() != inode {
        Some(AncestorChainError::WrongEnd)
    } else if !chain.no_duplicates() {
        Some(AncestorChainError::Cycle)
    } else {
        None
    }
}

/// The first reason why `chain` is not a bounded acyclic path to a parent.
pub open spec fn parent_chain_error(chain: Seq<InodeId>) -> Option<ParentChainError> {
    if chain.len() == 0 {
        Some(ParentChainError::Empty)
    } else if chain.len() > MAX_PATH_COMPONENTS {
        Some(ParentChainError::TooDeep)
    } else if !chain.no_duplicates() {
        Some(ParentChainError::Cycle)
    } else {
        None
    }
}

fn has_duplicates(chain: &Vec<InodeId>) -> (r: bool)
    ensures
        r == !chain@.no_duplicates(),
{
    let mut seen: HashSet<u64> = HashSet::new();
    let mut i: usize = 0;
    while i < chain.len()
        invariant
            i <= chain@.len(),
            chain@.take(i as int).no_duplicates(),
            forall|v: u64| #[trigger]
                seen@.contains(v) <==> exists|k: int| 0 <= k < i && (#[trigger] chain@[k]).0 == v,
        decreases chain.len() - i,
    {
        let raw: u64 = chain[i].0;
        if seen.contains(&raw) {
            proof {
                let k = choose|k: int| 0 <= k < i && (#[trigger] chain@[k]).0 == raw;
                assert(chain@[k] == chain@[i as int]);
            }
            return true;
        }
        seen.insert(raw);
        proof {
            let next = chain@.take(i as int + 1);
            assert forall|a: int, b: int|
                0 <= a < b < next.len() implies #[trigger] next[a] != #[trigger] next[b] by {
                if b == i {
                    assert(chain@[a].0 != raw);
                } else {
                    assert(chain@.take(i as int)[a] != chain@.take(i as int)[b]);
                }
            }
            assert forall|v: u64| #[trigger]
                seen@.contains(v) <==> exists|k: int|
                    0 <= k < i + 1 && (#[trigger] chain@[k]).0 == v by {
                if seen@.contains(v) {
                    if v == raw {
                        assert(chain@[i as int].0 == v);
                    } else {
                        let k = choose|k: int| 0 <= k < i && (#[trigger] chain@[k]).0 == v;
                        assert(chain@[k].0 == v);
                    }
                }
            }
        }
        i += 1;
    }
    assert(chain@.take(i as int) =~= chain@);
    false
}

/// Checks that `chain` is a bounded acyclic path that ends at `inode`.
pub fn validate_ancestor_chain(inode: InodeId, chain: &Vec<InodeId>) -> (r: Result<
    (),
    AncestorChainError,
>)
    ensures
        match chain_error(inode, chain@) {
            None => r == Ok::<(), AncestorChainError>(()),
            Some(e) => r == Err::<(), AncestorChainError>(e),
        },
{
    if chain.len() == 0 {
        return Err(AncestorChainError::Empty);
    }
    if chain.len() > MAX_PATH_COMPONENTS + 1 {
        return Err(AncestorChainError::TooDeep);
    }
    if chain[chain.len() - 1] != inode {
        return Err(AncestorChainError::WrongEnd);
    }
    if has_duplicates(chain) {
        return Err(AncestorChainError::Cycle);
    }
    Ok(())
}

/// Checks that `chain` is a bounded acyclic path to a parent.
pub fn validate_parent_ancestor_chain(chain: &Vec<InodeId>) -> (r: Result<(), ParentChainError>)
    ensures
        match parent_chain_error(chain@) {
            None => r == Ok::<(), ParentChainError>(()),
            Some(e) => r == Err::<(), ParentChainError>(e),
        },
{
    if chain.len() == 0 {
        return Err(ParentChainError::Empty);
    }
    if chain.len() > MAX_PATH_COMPONENTS {
        return Err(ParentChainError::TooDeep);
    }
    if has_duplicates(chain) {
        return Err(ParentChainError::Cycle);
    }
    Ok(())
}

} // verus!
