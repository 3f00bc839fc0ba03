//! Request context, and the successes and failures that every operation answers with.

use vstd::prelude::*;

use crate::error::{rpc_error_of, to_rpc_error, MetadataError, MetadataErrorCode, MetadataErrorView};
use crate::group_watermark::{
    watermark_views, GroupStateWatermark, GroupStateWatermarkView, RaftLogId,
};
use crate::header::{
    copy_optional_group, optional_group, RequestHeader, RequestHeaderView,
};
use crate::ids::{GroupName, InodeId, MountId, WorkerId};
use crate::layout::{layout_error, FileLayout};
use crate::proto::convert::{
    lemma_hyphenated_len, signed_decimal, signed_decimal_text, worker_endpoint_info_from_parts,
};
use crate::rpc_error::{
    ErrorKind, RecoveryActionView, RefreshHint, RefreshHintView, RpcErrorDetail,
    RpcErrorDetailView,
};
use crate::text::{decimal, join};
use crate::worker_info::{
    WorkerEndpointInfo, WorkerEndpointInfoView, WorkerNetProtocol, WorkerRunId,
};

verus! {

/// The runtime authorizes exactly one worker for each block.
pub const SUPPORTED_REPLICA_COUNT: u8 = 1;

/// Who asks, and under which route.
#[derive(Debug)]
pub struct RequestContext {
    pub caller: RequestHeader,
    pub route_epoch: Option<u64>,
}

/// The value of a `RequestContext`.
pub struct RequestContextView {
    pub caller: RequestHeaderView,
    pub route_epoch: Option<u64>,
}

impl View for RequestContext {
    type V = RequestContextView;

    open spec fn view(&self) -> RequestContextView {
        RequestContextView { caller: self.caller@, route_epoch: self.route_epoch }
    }
}

/// Epochs that the caller acts on.
#[derive(Clone, Copy, Debug, PartialEq, Eq, Hash, Structural)]
pub struct Freshness {
    pub mount_epoch: Option<u64>,
    pub route_epoch: Option<u64>,
}

impl Default for Freshness {
    fn default() -> (r: Self)
        ensures
            r == (Freshness { mount_epoch: None, route_epoch: None }),
    {
        Freshness { mount_epoch: None, route_epoch: None }
    }
}

/// A range of a file.
#[derive(Clone, Copy, Debug, PartialEq, Eq, Hash, Structural)]
pub struct FileRange {
    pub offset: u64,
    pub len: u64,
}

/// A successful answer, with the authority that gave it.
#[derive(Debug)]
pub struct FsSuccess<T> {
    pub payload: T,
    pub group_name: Option<GroupName>,
    pub mount_epoch: Option<u64>,
    pub route_epoch: Option<u64>,
    pub state: Vec<GroupStateWatermark>,
}

/// A failed answer, with the authority that gave it.
#[derive(Debug)]
pub struct FsFailure {
    pub error: RpcErrorDetail,
    pub group_name: Option<GroupName>,
    pub mount_epoch: Option<u64>,
    pub route_epoch: Option<u64>,
    pub state: Vec<GroupStateWatermark>,
}

/// The value of an `FsFailure`.
pub struct FsFailureView {
    pub error: RpcErrorDetailView,
    pub group_name: Option<Seq<char>>,
    pub mount_epoch: Option<u64>,
    pub route_epoch: Option<u64>,
    pub state: Seq<GroupStateWatermarkView>,
}

impl View for FsFailure {
    type V = FsFailureView;

    open spec fn view(&self) -> FsFailureView {
        FsFailureView {
            error: self.error@,
            group_name: optional_group(self.group_name),
            mount_epoch: self.mount_epoch,
            route_epoch: self.route_epoch,
            state: watermark_views(self.state@),
        }
    }
}

/// The authority that answers: owner group, mount epoch and route epoch as far as known.
#[derive(Debug)]
pub struct Authority {
    pub group_name: Option<GroupName>,
    pub mount_epoch: Option<u64>,
    pub route_epoch: Option<u64>,
}

/// The value of an `Authority`.
pub struct AuthorityView {
    pub group_name: Option<Seq<char>>,
    pub mount_epoch: Option<u64>,
    pub route_epoch: Option<u64>,
}

impl AuthorityView {
    /// No authority is known.
    pub open spec fn unknown() -> AuthorityView {
        AuthorityView { group_name: None, mount_epoch: None, route_epoch: None }
    }

    /// The authority without its route.
    pub open spec fn without_route(self) -> AuthorityView {
        AuthorityView { route_epoch: None, ..self }
    }
}

impl View for Authority {
    type V = AuthorityView;

    open spec fn view(&self) -> AuthorityView {
        AuthorityView {
            group_name: optional_group(self.group_name),
            mount_epoch: self.mount_epoch,
            route_epoch: self.route_epoch,
        }
    }
}

impl Clone for Authority {
    fn clone(&self) -> (r: Self)
        ensures
            r@ == self@,
    {
        Authority {
            group_name: copy_optional_group(&self.group_name),
            mount_epoch: self.mount_epoch,
            route_epoch: self.route_epoch,
        }
    }
}

impl Authority {
    /// No authority is known.
    pub fn unknown() -> (r: Self)
        ensures
            r@ == AuthorityView::unknown(),
    {
        Authority { group_name: None, mount_epoch: None, route_epoch: None }
    }

    /// Returns the authority without its route.
    pub fn without_route(&self) -> (r: Self)
        ensures
            r@ == self@.without_route(),
    {
        Authority {
            group_name: copy_optional_group(&self.group_name),
            mount_epoch: self.mount_epoch,
            route_epoch: None,
        }
    }
}

/// The failure that tells an RPC error. Where no owner group is known, it keeps the group
/// that the caller asked.
pub open spec fn rpc_failure(
    ctx: RequestContextView,
    error: RpcErrorDetailView,
    authority: AuthorityView,
) -> FsFailureView {
    FsFailureView {
        error,
        group_name: match authority.group_name {
            Some(g) => Some(g),
            None => ctx.caller.group_name,
        },
        mount_epoch: authority.mount_epoch,
        route_epoch: authority.route_epoch,
        state: Seq::empty(),
    }
}

/// The failure that tells a metadata error.
pub open spec fn metadata_failure(
    ctx: RequestContextView,
    error: MetadataErrorView,
    authority: AuthorityView,
) -> FsFailureView {
    rpc_failure(ctx, rpc_error_of(error), authority)
}

/// The failure that asks the caller to refresh its metadata.
pub open spec fn refresh_failure(
    ctx: RequestContextView,
    kind: ErrorKind,
    message: Seq<char>,
    authority: AuthorityView,
    hint: RefreshHintView,
) -> FsFailureView {
    rpc_failure(
        ctx,
        RpcErrorDetailView {
            kind,
            recovery: RecoveryActionView::RefreshMetadata { hint },
            message,
        },
        authority,
    )
}

/// The hint that repeats the authority: whatever of it is known.
pub open spec fn authority_hint(authority: AuthorityView, hint: RefreshHintView) -> RefreshHintView {
    RefreshHintView {
        group_name: match authority.group_name {
            Some(g) => Some(g),
            None => hint.group_name,
        },
        mount_epoch: match authority.mount_epoch {
            Some(e) => Some(e),
            None => hint.mount_epoch,
        },
        route_epoch: match authority.route_epoch {
            Some(e) => Some(e),
            None => hint.route_epoch,
        },
        ..hint
    }
}

/// The failure that asks the caller to open its write session again.
pub open spec fn terminal_failure(
    ctx: RequestContextView,
    kind: ErrorKind,
    message: Seq<char>,
    authority: AuthorityView,
) -> FsFailureView {
    rpc_failure(
        ctx,
        RpcErrorDetailView {
            kind,
            recovery: RecoveryActionView::ReopenWriteSession { hint: RefreshHintView::none() },
            message,
        },
        authority.without_route(),
    )
}

/// Creates the failure that tells an RPC error.
pub fn fs_failure_from_rpc_error(
    ctx: &RequestContext,
    error: RpcErrorDetail,
    authority: &Authority,
) -> (r: FsFailure)
    ensures
        r@ == rpc_failure(ctx@, error@, authority@),
{
    let group_name = match &authority.group_name {
        Some(g) => Some(g.clone()),
        None => copy_optional_group(&ctx.caller.group_name),
    };
    let r = FsFailure {
        error,
        group_name,
        mount_epoch: authority.mount_epoch,
        route_epoch: authority.route_epoch,
        state: Vec::new(),
    };
    assert(r@.state =~= Seq::empty());
    r
}

/// Creates the failure that tells a metadata error.
pub fn fs_failure_from_metadata_error(
    ctx: &RequestContext,
    error: &MetadataError,
    authority: &Authority,
) -> (r: FsFailure)
    ensures
        r@ == metadata_failure(ctx@, error@, authority@),
{
    fs_failure_from_rpc_error(ctx, to_rpc_error(error), authority)
}

/// Creates the failure that asks the caller to refresh its metadata.
pub fn refresh_metadata_fs_failure(
    ctx: &RequestContext,
    kind: ErrorKind,
    message: String,
    authority: &Authority,
    hint: RefreshHint,
) -> (r: FsFailure)
    ensures
        r@ == refresh_failure(ctx@, kind, message@, authority@, hint@),
{
    fs_failure_from_rpc_error(
        ctx,
        RpcErrorDetail::refresh_metadata(kind, hint, message),
        authority,
    )
}

/// Creates the failure that asks the caller to refresh its metadata, with a hint that
/// repeats the authority.
pub fn refresh_metadata_failure_with_hint(
    ctx: &RequestContext,
    kind: ErrorKind,
    message: String,
    authority: &Authority,
    hint: RefreshHint,
) -> (r: FsFailure)
    ensures
        r@ == refresh_failure(
            ctx@,
            kind,
            message@,
            authority@,
            authority_hint(authority@, hint@),
        ),
{
    let mut hint = hint;
    match &authority.group_name {
        Some(g) => {
            hint.group_name = Some(g.to_text());
        },
        None => {},
    }
    if authority.mount_epoch.is_some() {
        hint.mount_epoch = authority.mount_epoch;
    }
    if authority.route_epoch.is_some() {
        hint.route_epoch = authority.route_epoch;
    }
    refresh_metadata_fs_failure(ctx, kind, message, authority, hint)
}

/// Creates the failure that asks the caller to open its write session again.
pub fn session_terminal_failure(
    ctx: &RequestContext,
    kind: ErrorKind,
    message: String,
    authority: &Authority,
) -> (r: FsFailure)
    ensures
        r@ == terminal_failure(ctx@, kind, message@, authority@),
{
    let authority = authority.without_route();
    fs_failure_from_rpc_error(
        ctx,
        RpcErrorDetail::reopen_write_session(kind, RefreshHint::default(), message),
        &authority,
    )
}

/// The applied states that a success tells: the leader's own, where the owner group is
/// known.
pub open spec fn success_state(
    group_name: Option<Seq<char>>,
    leader_state: Option<RaftLogId>,
) -> Seq<GroupStateWatermarkView> {
    match (group_name, leader_state) {
        (Some(group_name), Some(state_id)) => seq![
            GroupStateWatermarkView { group_name, state_id },
        ],
        _ => Seq::empty(),
    }
}

/// Returns the applied states that a success tells. `leader_state` is the applied state of
/// this node if it leads, as far as known.
pub fn response_state_for_success(
    group_name: &Option<GroupName>,
    leader_state: Option<RaftLogId>,
) -> (r: Vec<GroupStateWatermark>)
    ensures
        watermark_views(r@) == success_state(optional_group(*group_name), leader_state),
{
    let mut out: Vec<GroupStateWatermark> = Vec::new();
    match (group_name, leader_state) {
        (Some(g), Some(state_id)) => {
            out.push(GroupStateWatermark::new(g.clone(), state_id));
        },
        _ => {},
    }
    assert(watermark_views(out@) =~= success_state(optional_group(*group_name), leader_state));
    out
}

impl<T> FsSuccess<T> {
    /// Whether the success tells this authority and this applied state.
    pub open spec fn told_by(
        &self,
        authority: AuthorityView,
        leader_state: Option<RaftLogId>,
    ) -> bool {
        &&& optional_group(self.group_name) == authority.group_name
        &&& self.mount_epoch == authority.mount_epoch
        &&& self.route_epoch == authority.route_epoch
        &&& watermark_views(self.state@) == success_state(authority.group_name, leader_state)
    }
}

/// Creates a successful answer.
pub fn success_with_route_epoch<T>(
    payload: T,
    authority: &Authority,
    leader_state: Option<RaftLogId>,
) -> (r: FsSuccess<T>)
    ensures
        r.payload == payload,
        r.told_by(authority@, leader_state),
{
    FsSuccess {
        payload,
        group_name: copy_optional_group(&authority.group_name),
        mount_epoch: authority.mount_epoch,
        route_epoch: authority.route_epoch,
        state: response_state_for_success(&authority.group_name, leader_state),
    }
}

/// A request that was not admitted, with the authority that refused it.
#[derive(Debug)]
pub struct AdmissionFailure {
    pub err: RpcErrorDetail,
    pub group_name: Option<GroupName>,
    pub mount_epoch: Option<u64>,
}

/// Creates the failure of a request that was not admitted. It names only the authority that
/// refused it.
pub fn failure_from_admission(failure: AdmissionFailure) -> (r: FsFailure)
    ensures
        r@ == (FsFailureView {
            error: failure.err@,
            group_name: optional_group(failure.group_name),
            mount_epoch: failure.mount_epoch,
            route_epoch: None,
            state: Seq::empty(),
        }),
{
    let r = FsFailure {
        error: failure.err,
        group_name: failure.group_name,
        mount_epoch: failure.mount_epoch,
        route_epoch: None,
        state: Vec::new(),
    };
    assert(r@.state =~= Seq::empty());
    r
}

/// The authority of a resolved mount.
#[derive(Debug)]
pub struct MountContext {
    pub mount_id: MountId,
    pub mount_epoch: u64,
    pub owner_group_name: GroupName,
    pub root_inode_id: InodeId,
}

/// The value of a `MountContext`.
pub struct MountContextView {
    pub mount_id: MountId,
    pub mount_epoch: u64,
    pub owner_group_name: Seq<char>,
    pub root_inode_id: InodeId,
}

impl View for MountContext {
    type V = MountContextView;

    open spec fn view(&self) -> MountContextView {
        MountContextView {
            mount_id: self.mount_id,
            mount_epoch: self.mount_epoch,
            owner_group_name: self.owner_group_name@,
            root_inode_id: self.root_inode_id,
        }
    }
}

impl MountContextView {
    /// The authority that the mount gives.
    pub open spec fn authority(self) -> AuthorityView {
        AuthorityView {
            group_name: Some(self.owner_group_name),
            mount_epoch: Some(self.mount_epoch),
            route_epoch: None,
        }
    }
}

impl MountContext {
    /// Returns the authority that the mount gives.
    pub fn authority(&self) -> (r: Authority)
        ensures
            r@ == self@.authority(),
    {
        Authority {
            group_name: Some(self.owner_group_name.clone()),
            mount_epoch: Some(self.mount_epoch),
            route_epoch: None,
        }
    }
}

/// The authority that an optional mount gives.
pub open spec fn optional_mount_authority(mount: Option<MountContextView>) -> AuthorityView {
    match mount {
        Some(m) => m.authority(),
        None => AuthorityView::unknown(),
    }
}

/// The value of an optional mount.
pub open spec fn optional_mount_view(mount: Option<MountContext>) -> Option<MountContextView> {
    match mount {
        Some(m) => Some(m@),
        None => None,
    }
}

/// Creates the failure of a path, with the authority of its mount where that is known.
pub fn failure_from_resolved_path_error(
    ctx: &RequestContext,
    error: &MetadataError,
    mount: &Option<MountContext>,
) -> (r: FsFailure)
    ensures
        r@ == metadata_failure(
            ctx@,
            error@,
            optional_mount_authority(optional_mount_view(*mount)),
        ),
{
    let authority = match mount {
        Some(m) => m.authority(),
        None => Authority::unknown(),
    };
    fs_failure_from_metadata_error(ctx, error, &authority)
}

/// A path that was resolved as far as it exists.
#[derive(Debug)]
pub struct ResolvedPath {
    pub mount_ctx: MountContext,
    pub inode_id: Option<InodeId>,
    pub parent_inode_id: Option<InodeId>,
    pub name: Option<String>,
    /// Chain from the mount root to the last inode that exists.
    pub ancestor_inode_ids: Vec<InodeId>,
    pub relative_components: Vec<String>,
}

/// The wording for a resolved path that has no target.
pub open spec fn missing_target_text(parent: Option<InodeId>, name: Option<Seq<char>>) -> Seq<char> {
    match (parent, name) {
        (Some(parent), Some(name)) => "Entry not found: "@ + name + " (parent inode: "@ + decimal(
            parent.0 as nat,
        ) + ")"@,
        _ => "resolved path has no target"@,
    }
}

/// Creates the error for a resolved path that has no target.
pub fn missing_resolved_target_error(resolved: &ResolvedPath) -> (r: MetadataError)
    ensures
        r@ == (MetadataErrorView {
            code: MetadataErrorCode::NotFound,
            text: missing_target_text(
                resolved.parent_inode_id,
                crate::rpc_error::optional_text(resolved.name),
            ),
        }),
{
    match (resolved.parent_inode_id, &resolved.name) {
        (Some(parent), Some(name)) => {
            let mut out = join("Entry not found: ", name.as_str());
            let parent_text = parent.to_text();
            out.append(" (parent inode: ");
            out.append(parent_text.as_str());
            out.append(")");
            MetadataError::NotFound(out)
        },
        _ => MetadataError::NotFound("resolved path has no target".to_owned()),
    }
}

/// The endpoint that persisted worker fields name.
pub open spec fn persisted_endpoint(
    worker_id: WorkerId,
    endpoint: Seq<char>,
    worker_net_protocol: i32,
    worker_run_id: WorkerRunId,
) -> Result<WorkerEndpointInfoView, MetadataErrorView> {
    if worker_net_protocol != 1 {
        Err(
            MetadataErrorView {
                code: MetadataErrorCode::InvalidArgument,
                text: "unsupported persisted worker network protocol "@ + signed_decimal(
                    worker_net_protocol as int,
                ),
            },
        )
    } else if worker_id.0 == 0 {
        Err(
            MetadataErrorView {
                code: MetadataErrorCode::InvalidArgument,
                text: "WorkerEndpointInfoProto.worker_id must be non-zero"@,
            },
        )
    } else if endpoint.len() == 0 {
        Err(
            MetadataErrorView {
                code: MetadataErrorCode::InvalidArgument,
                text: "WorkerEndpointInfoProto.endpoint must not be empty"@,
            },
        )
    } else if worker_run_id.0 == 0 {
        Err(
            MetadataErrorView {
                code: MetadataErrorCode::InvalidArgument,
                text: "WorkerEndpointInfoProto.worker_run_id"@ + " invalid: "@
                    + "worker_run_id must be non-zero"@,
            },
        )
    } else {
        Ok(
            WorkerEndpointInfoView {
                worker_id,
                endpoint,
                worker_net_protocol: WorkerNetProtocol::Grpc,
                worker_run_id,
            },
        )
    }
}

/// Builds an endpoint from persisted worker fields. Only gRPC workers are supported.
pub fn worker_endpoint_from_parts(
    worker_id: WorkerId,
    endpoint: String,
    worker_net_protocol: i32,
    worker_run_id: WorkerRunId,
) -> (r: Result<WorkerEndpointInfo, MetadataError>)
    ensures
        ({
            let built = persisted_endpoint(
                worker_id,
                endpoint@,
                worker_net_protocol,
                worker_run_id,
            );
            match r {
                Ok(v) => built == Ok::<WorkerEndpointInfoView, MetadataErrorView>(v@),
                Err(e) => built == Err::<WorkerEndpointInfoView, MetadataErrorView>(e@),
            }
        }),
{
    if worker_net_protocol != 1 {
        let text = signed_decimal_text(worker_net_protocol);
        return Err(
            MetadataError::InvalidArgument(
                join("unsupported persisted worker network protocol ", text.as_str()),
            ),
        );
    }
    let run_text = worker_run_id.to_text();
    proof {
        lemma_hyphenated_len(worker_run_id.0);
    }
    match worker_endpoint_info_from_parts(worker_id, endpoint, run_text) {
        Ok(endpoint) => Ok(endpoint),
        Err(e) => Err(MetadataError::InvalidArgument(e)),
    }
}

/// Checks the layout of a file that is about to be written.
pub fn validate_active_write_layout(layout: &FileLayout) -> (r: Result<(), MetadataError>)
    ensures
        match layout_error(*layout) {
            None => r is Ok,
            Some(e) => r is Err && (r->Err_0)@ == (MetadataErrorView {
                code: MetadataErrorCode::InvalidArgument,
                text: "invalid file layout: "@ + e.text(),
            }),
        },
{
    match layout.validate() {
        Ok(()) => Ok(()),
        Err(e) => {
            let text = e.message();
            Err(MetadataError::InvalidArgument(join("invalid file layout: ", text.as_str())))
        },
    }
}

/// The error where workers are looked up without a known owner group.
pub open spec fn lookup_group_error(intent: Seq<char>) -> MetadataErrorView {
    MetadataErrorView {
        code: MetadataErrorCode::Internal,
        text: intent + " worker lookup requires authoritative metadata group"@,
    }
}

/// Returns the owner group, without which workers cannot be looked up.
pub fn require_worker_lookup_group(
    ctx: &RequestContext,
    authority: &Authority,
    intent: &str,
) -> (r: Result<GroupName, FsFailure>)
    ensures
        match r {
            Ok(g) => authority@.group_name == Some(g@),
            Err(f) => authority@.group_name is None && f@ == metadata_failure(
                ctx@,
                lookup_group_error(intent@),
                authority@,
            ),
        },
{
    match &authority.group_name {
        Some(g) => Ok(g.clone()),
        None => {
            let error = MetadataError::Internal(
                join(intent, " worker lookup requires authoritative metadata group"),
            );
            Err(fs_failure_from_metadata_error(ctx, &error, authority))
        },
    }
}

} // verus!
