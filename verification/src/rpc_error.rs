//! Failure kinds and recovery actions that travel with every RPC error.

use vstd::prelude::*;

verus! {

/// What failed in the metadata service.
#[derive(Clone, Copy, Debug, PartialEq, Eq, Hash, Structural)]
pub enum MetadataErrorKind {
    NotFound,
    AlreadyExists,
    NotDirectory,
    IsDirectory,
    DirectoryNotEmpty,
    CrossMountRename,
    Busy,
    Conflict,
    NotLeader,
    StaleState,
    MountEpochMismatch,
    RouteEpochMismatch,
    OwnerGroupMismatch,
    GroupMismatch,
    Fencing,
    SessionInvalid,
    SessionExpired,
    EpochMismatch,
    ResourceExhausted,
}

/// What failed in the worker.
#[derive(Clone, Copy, Debug, PartialEq, Eq, Hash, Structural)]
pub enum WorkerErrorKind {
    NotRegistered,
    RunMismatch,
    DescriptorMismatch,
    FullReportRequired,
    BlockLocationUnavailable,
    NodeUnavailable,
    Timeout,
    ResourceExhausted,
    Conflict,
    Corrupt,
    Fencing,
    Cancelled,
    Io,
    NotFound,
}

/// What failed in the protocol.
#[derive(Clone, Copy, Debug, PartialEq, Eq, Hash, Structural)]
pub enum ProtocolErrorKind {
    InvalidHeader,
    InvalidArgument,
    PermissionDenied,
    Unsupported,
    Cancelled,
    Corrupt,
}

/// What failed in the server itself.
#[derive(Clone, Copy, Debug, PartialEq, Eq, Hash, Structural)]
pub enum InternalErrorKind {
    NodeUnavailable,
    Timeout,
    ResourceExhausted,
    Cancelled,
    Corrupt,
    Internal,
}

/// What failed, and where.
#[derive(Clone, Copy, Debug, PartialEq, Eq, Hash, Structural)]
pub enum ErrorKind {
    Metadata(MetadataErrorKind),
    Worker(WorkerErrorKind),
    Protocol(ProtocolErrorKind),
    Internal(InternalErrorKind),
}

/// The value of an optional text.
pub open spec fn optional_text(text: Option<String>) -> Option<Seq<char>> {
    match text {
        Some(t) => Some(t@),
        None => None,
    }
}

/// Returns a copy of an optional text.
pub fn copy_optional_text(text: &Option<String>) -> (r: Option<String>)
    ensures
        optional_text(r) == optional_text(*text),
{
    match text {
        Some(t) => Some(t.clone()),
        None => None,
    }
}

/// Worker endpoint of a refresh hint. It names no process start.
#[derive(Debug, PartialEq, Eq)]
pub struct WorkerEndpointHint {
    pub worker_id: u64,
    pub endpoint: String,
}

/// The value of a `WorkerEndpointHint`.
pub struct WorkerEndpointHintView {
    pub worker_id: u64,
    pub endpoint: Seq<char>,
}

impl View for WorkerEndpointHint {
    type V = WorkerEndpointHintView;

    open spec fn view(&self) -> WorkerEndpointHintView {
        WorkerEndpointHintView { worker_id: self.worker_id, endpoint: self.endpoint@ }
    }
}

/// The values of a sequence of endpoint hints.
pub open spec fn endpoint_hint_views(hints: Seq<WorkerEndpointHint>) -> Seq<
    WorkerEndpointHintView,
> {
    hints.map_values(|h: WorkerEndpointHint| h@)
}

/// What a caller should refresh before it tries again.
#[derive(Debug, PartialEq, Eq)]
pub struct RefreshHint {
    pub leader_endpoint: Option<String>,
    pub group_name: Option<String>,
    pub mount_epoch: Option<u64>,
    pub mount_prefix: Option<String>,
    pub route_epoch: Option<u64>,
    pub worker_endpoints: Vec<WorkerEndpointHint>,
    pub worker_resolve_required: bool,
}

/// The value of a `RefreshHint`.
pub struct RefreshHintView {
    pub leader_endpoint: Option<Seq<char>>,
    pub group_name: Option<Seq<char>>,
    pub mount_epoch: Option<u64>,
    pub mount_prefix: Option<Seq<char>>,
    pub route_epoch: Option<u64>,
    pub worker_endpoints: Seq<WorkerEndpointHintView>,
    pub worker_resolve_required: bool,
}

impl View for RefreshHint {
    type V = RefreshHintView;

    open spec fn view(&self) -> RefreshHintView {
        RefreshHintView {
            leader_endpoint: optional_text(self.leader_endpoint),
            group_name: optional_text(self.group_name),
            mount_epoch: self.mount_epoch,
            mount_prefix: optional_text(self.mount_prefix),
            route_epoch: self.route_epoch,
            worker_endpoints: endpoint_hint_views(self.worker_endpoints@),
            worker_resolve_required: self.worker_resolve_required,
        }
    }
}

impl RefreshHintView {
    /// The hint that names nothing.
    pub open spec fn none() -> RefreshHintView {
        RefreshHintView {
            leader_endpoint: None,
            group_name: None,
            mount_epoch: None,
            mount_prefix: None,
            route_epoch: None,
            worker_endpoints: Seq::empty(),
            worker_resolve_required: false,
        }
    }
}

impl Default for RefreshHint {
    fn default() -> (r: Self)
        ensures
            r@ == RefreshHintView::none(),
    {
        let r = RefreshHint {
            leader_endpoint: None,
            group_name: None,
            mount_epoch: None,
            mount_prefix: None,
            route_epoch: None,
            worker_endpoints: Vec::new(),
            worker_resolve_required: false,
        };
        assert(r@.worker_endpoints =~= Seq::empty());
        r
    }
}

impl Clone for RefreshHint {
    fn clone(&self) -> (r: Self)
        ensures
            r@ == self@,
    {
        let mut worker_endpoints: Vec<WorkerEndpointHint> = Vec::new();
        let mut i: usize = 0;
        while i < self.worker_endpoints.len()
            invariant
                i <= self.worker_endpoints@.len(),
                worker_endpoints@.len() == i,
                forall|k: int|
                    0 <= k < i ==> #[trigger] worker_endpoints@[k]@ == self.worker_endpoints@[k]@,
            decreases self.worker_endpoints.len() - i,
        {
            let hint = &self.worker_endpoints[i];
            worker_endpoints.push(
                WorkerEndpointHint { worker_id: hint.worker_id, endpoint: hint.endpoint.clone() },
            );
            i += 1;
        }
        assert(endpoint_hint_views(worker_endpoints@) =~= endpoint_hint_views(
            self.worker_endpoints@,
        ));
        RefreshHint {
            leader_endpoint: copy_optional_text(&self.leader_endpoint),
            group_name: copy_optional_text(&self.group_name),
            mount_epoch: self.mount_epoch,
            mount_prefix: copy_optional_text(&self.mount_prefix),
            route_epoch: self.route_epoch,
            worker_endpoints,
            worker_resolve_required: self.worker_resolve_required,
        }
    }
}

/// What a caller should do about a failure.
#[derive(Debug, PartialEq, Eq)]
pub enum RecoveryAction {
    Fail,
    Retry { after_ms: Option<u64> },
    RefreshMetadata { hint: RefreshHint },
    ReopenWriteSession { hint: RefreshHint },
    RegisterWorker,
    SendFullBlockReport,
}

/// The value of a `RecoveryAction`.
pub enum RecoveryActionView {
    Fail,
    Retry { after_ms: Option<u64> },
    RefreshMetadata { hint: RefreshHintView },
    ReopenWriteSession { hint: RefreshHintView },
    RegisterWorker,
    SendFullBlockReport,
}

impl View for RecoveryAction {
    type V = RecoveryActionView;

    open spec fn view(&self) -> RecoveryActionView {
        match self {
            RecoveryAction::Fail => RecoveryActionView::Fail,
            RecoveryAction::Retry { after_ms } => RecoveryActionView::Retry { after_ms: *after_ms },
            RecoveryAction::RefreshMetadata { hint } => RecoveryActionView::RefreshMetadata {
                hint: hint@,
            },
            RecoveryAction::ReopenWriteSession { hint } => RecoveryActionView::ReopenWriteSession {
                hint: hint@,
            },
            RecoveryAction::RegisterWorker => RecoveryActionView::RegisterWorker,
            RecoveryAction::SendFullBlockReport => RecoveryActionView::SendFullBlockReport,
        }
    }
}

impl Clone for RecoveryAction {
    fn clone(&self) -> (r: Self)
        ensures
            r@ == self@,
    {
        match self {
            RecoveryAction::Fail => RecoveryAction::Fail,
            RecoveryAction::Retry { after_ms } => RecoveryAction::Retry { after_ms: *after_ms },
            RecoveryAction::RefreshMetadata { hint } => RecoveryAction::RefreshMetadata {
                hint: hint.clone(),
            },
            RecoveryAction::ReopenWriteSession { hint } => RecoveryAction::ReopenWriteSession {
                hint: hint.clone(),
            },
            RecoveryAction::RegisterWorker => RecoveryAction::RegisterWorker,
            RecoveryAction::SendFullBlockReport => RecoveryAction::SendFullBlockReport,
        }
    }
}

/// A failure as it travels on the wire: what failed, what to do about it, and why.
#[derive(Debug, PartialEq, Eq)]
pub struct RpcErrorDetail {
    pub kind: ErrorKind,
    pub recovery: RecoveryAction,
    pub message: String,
}

/// The value of an `RpcErrorDetail`.
pub struct RpcErrorDetailView {
    pub kind: ErrorKind,
    pub recovery: RecoveryActionView,
    pub message: Seq<char>,
}

impl View for RpcErrorDetail {
    type V = RpcErrorDetailView;

    open spec fn view(&self) -> RpcErrorDetailView {
        RpcErrorDetailView {
            kind: self.kind,
            recovery: self.recovery@,
            message: self.message@,
        }
    }
}

impl Clone for RpcErrorDetail {
    fn clone(&self) -> (r: Self)
        ensures
            r@ == self@,
    {
        RpcErrorDetail {
            kind: self.kind,
            recovery: self.recovery.clone(),
            message: self.message.clone(),
        }
    }
}

impl RpcErrorDetail {
    /// Creates a failure that the caller cannot recover from.
    pub fn fail(kind: ErrorKind, message: String) -> (r: Self)
        ensures
            r@ == (RpcErrorDetailView {
                kind,
                recovery: RecoveryActionView::Fail,
                message: message@,
            }),
    {
        RpcErrorDetail { kind, recovery: RecoveryAction::Fail, message }
    }

    /// Creates a failure that the caller may retry.
    pub fn retry(kind: ErrorKind, after_ms: Option<u64>, message: String) -> (r: Self)
        ensures
            r@ == (RpcErrorDetailView {
                kind,
                recovery: RecoveryActionView::Retry { after_ms },
                message: message@,
            }),
    {
        RpcErrorDetail { kind, recovery: RecoveryAction::Retry { after_ms }, message }
    }

    /// Creates a failure that asks the caller to refresh its metadata.
    pub fn refresh_metadata(kind: ErrorKind, hint: RefreshHint, message: String) -> (r: Self)
        ensures
            r@ == (RpcErrorDetailView {
                kind,
                recovery: RecoveryActionView::RefreshMetadata { hint: hint@ },
                message: message@,
            }),
    {
        RpcErrorDetail { kind, recovery: RecoveryAction::RefreshMetadata { hint }, message }
    }

    /// Creates a failure that asks the caller to open its write session again.
    pub fn reopen_write_session(kind: ErrorKind, hint: RefreshHint, message: String) -> (r: Self)
        ensures
            r@ == (RpcErrorDetailView {
                kind,
                recovery: RecoveryActionView::ReopenWriteSession { hint: hint@ },
                message: message@,
            }),
    {
        RpcErrorDetail { kind, recovery: RecoveryAction::ReopenWriteSession { hint }, message }
    }

    /// Creates a failure that asks the worker to register again.
    pub fn register_worker(kind: ErrorKind, message: String) -> (r: Self)
        ensures
            r@ == (RpcErrorDetailView {
                kind,
                recovery: RecoveryActionView::RegisterWorker,
                message: message@,
            }),
    {
        RpcErrorDetail { kind, recovery: RecoveryAction::RegisterWorker, message }
    }

    /// Creates a failure that asks the worker for a full block report.
    pub fn send_full_block_report(kind: ErrorKind, message: String) -> (r: Self)
        ensures
            r@ == (RpcErrorDetailView {
                kind,
                recovery: RecoveryActionView::SendFullBlockReport,
                message: message@,
            }),
    {
        RpcErrorDetail { kind, recovery: RecoveryAction::SendFullBlockReport, message }
    }
}

} // verus!
