//! Wire messages.

use vstd::prelude::*;

use crate::proto::error_kind::ErrorKindProto;
use crate::rpc_error::optional_text;

verus! {

#[derive(Clone, Copy, Debug, PartialEq, Eq, Hash, Structural)]
pub struct BlockIdProto {
    pub inode_id: u64,
    pub block_index: u32,
}

/// The high and the low half of a client identity.
#[derive(Clone, Copy, Debug, PartialEq, Eq, Hash, Structural)]
pub struct ClientIdProto {
    pub high: u64,
    pub low: u64,
}

#[derive(Clone, Copy, Debug, PartialEq, Eq, Hash, Structural)]
pub struct ByteRangeProto {
    pub offset: u64,
    pub len: u64,
}

#[derive(Clone, Copy, Debug, PartialEq, Eq, Hash, Structural)]
pub struct FileLayoutProto {
    pub block_size: u32,
    pub block_format_id: u32,
}

#[derive(Clone, Copy, Debug, PartialEq, Eq, Hash, Structural)]
pub enum FileTypeProto {
    FileTypeUnspecified,
    FileTypeFile,
    FileTypeDir,
}

#[derive(Clone, Copy, Debug, PartialEq, Eq, Hash, Structural)]
pub enum OpenWriteModeProto {
    OpenWriteModeUnspecified,
    OpenWriteModeWrite,
    OpenWriteModeAppend,
}

#[derive(Clone, Copy, Debug, PartialEq, Eq, Hash, Structural)]
pub enum TierProto {
    TierUnspecified,
    TierMem,
    TierNvme,
    TierSsd,
    TierHdd,
}

#[derive(Clone, Copy, Debug, PartialEq, Eq, Hash, Structural)]
pub struct WriteHandleProto {
    pub inode_id: u64,
    pub write_lease_epoch: u64,
}

#[derive(Clone, Copy, Debug, PartialEq, Eq, Hash, Structural)]
pub struct FencingTokenProto {
    pub block_id: Option<BlockIdProto>,
    pub owner: Option<ClientIdProto>,
    pub epoch: u64,
}

#[derive(Clone, Copy, Debug, PartialEq, Eq, Hash, Structural)]
pub struct CommittedBlockProto {
    pub block_id: Option<BlockIdProto>,
    pub len: u64,
}

#[derive(Clone, Copy, Debug, PartialEq, Eq, Hash, Structural)]
pub struct RaftLogIdProto {
    pub term: u64,
    pub leader_node_id: u64,
    pub index: u64,
}

/// The wire number names no value of the enumeration.
#[derive(Clone, Copy, Debug, PartialEq, Eq, Hash, Structural)]
pub struct UnknownEnumValue(pub i32);

impl FileTypeProto {
    /// The wire number of this value.
    pub open spec fn raw(self) -> i32 {
        match self {
            FileTypeProto::FileTypeUnspecified => 0,
            FileTypeProto::FileTypeFile => 1,
            FileTypeProto::FileTypeDir => 2,
        }
    }

    /// Returns the wire number of this value.
    pub fn as_raw(self) -> (r: i32)
        ensures
            r == self.raw(),
    {
        match self {
            FileTypeProto::FileTypeUnspecified => 0,
            FileTypeProto::FileTypeFile => 1,
            FileTypeProto::FileTypeDir => 2,
        }
    }
}

impl vstd::std_specs::convert::TryFromSpecImpl<i32> for FileTypeProto {
    open spec fn obeys_try_from_spec() -> bool {
        true
    }

    open spec fn try_from_spec(raw: i32) -> Result<Self, UnknownEnumValue> {
        match raw {
            0 => Ok(FileTypeProto::FileTypeUnspecified),
            1 => Ok(FileTypeProto::FileTypeFile),
            2 => Ok(FileTypeProto::FileTypeDir),
            _ => Err(UnknownEnumValue(raw)),
        }
    }
}

impl TryFrom<i32> for FileTypeProto {
    type Error = UnknownEnumValue;

    fn try_from(raw: i32) -> (r: Result<Self, UnknownEnumValue>) {
        match raw {
            0 => Ok(FileTypeProto::FileTypeUnspecified),
            1 => Ok(FileTypeProto::FileTypeFile),
            2 => Ok(FileTypeProto::FileTypeDir),
            _ => Err(UnknownEnumValue(raw)),
        }
    }
}

impl OpenWriteModeProto {
    /// The wire number of this value.
    pub open spec fn raw(self) -> i32 {
        match self {
            OpenWriteModeProto::OpenWriteModeUnspecified => 0,
            OpenWriteModeProto::OpenWriteModeWrite => 1,
            OpenWriteModeProto::OpenWriteModeAppend => 2,
        }
    }

    /// Returns the wire number of this value.
    pub fn as_raw(self) -> (r: i32)
        ensures
            r == self.raw(),
    {
        match self {
            OpenWriteModeProto::OpenWriteModeUnspecified => 0,
            OpenWriteModeProto::OpenWriteModeWrite => 1,
            OpenWriteModeProto::OpenWriteModeAppend => 2,
        }
    }
}

impl vstd::std_specs::convert::TryFromSpecImpl<i32> for OpenWriteModeProto {
    open spec fn obeys_try_from_spec() -> bool {
        true
    }

    open spec fn try_from_spec(raw: i32) -> Result<Self, UnknownEnumValue> {
        match raw {
            0 => Ok(OpenWriteModeProto::OpenWriteModeUnspecified),
            1 => Ok(OpenWriteModeProto::OpenWriteModeWrite),
            2 => Ok(OpenWriteModeProto::OpenWriteModeAppend),
            _ => Err(UnknownEnumValue(raw)),
        }
    }
}

impl TryFrom<i32> for OpenWriteModeProto {
    type Error = UnknownEnumValue;

    fn try_from(raw: i32) -> (r: Result<Self, UnknownEnumValue>) {
        match raw {
            0 => Ok(OpenWriteModeProto::OpenWriteModeUnspecified),
            1 => Ok(OpenWriteModeProto::OpenWriteModeWrite),
            2 => Ok(OpenWriteModeProto::OpenWriteModeAppend),
            _ => Err(UnknownEnumValue(raw)),
        }
    }
}

impl TierProto {
    /// The wire number of this value.
    pub open spec fn raw(self) -> i32 {
        match self {
            TierProto::TierUnspecified => 0,
            TierProto::TierMem => 1,
            TierProto::TierNvme => 2,
            TierProto::TierSsd => 3,
            TierProto::TierHdd => 4,
        }
    }

    /// Returns the wire number of this value.
    pub fn as_raw(self) -> (r: i32)
        ensures
            r == self.raw(),
    {
        match self {
            TierProto::TierUnspecified => 0,
            TierProto::TierMem => 1,
            TierProto::TierNvme => 2,
            TierProto::TierSsd => 3,
            TierProto::TierHdd => 4,
        }
    }
}

impl vstd::std_specs::convert::TryFromSpecImpl<i32> for TierProto {
    open spec fn obeys_try_from_spec() -> bool {
        true
    }

    open spec fn try_from_spec(raw: i32) -> Result<Self, UnknownEnumValue> {
        match raw {
            0 => Ok(TierProto::TierUnspecified),
            1 => Ok(TierProto::TierMem),
            2 => Ok(TierProto::TierNvme),
            3 => Ok(TierProto::TierSsd),
            4 => Ok(TierProto::TierHdd),
            _ => Err(UnknownEnumValue(raw)),
        }
    }
}

impl TryFrom<i32> for TierProto {
    type Error = UnknownEnumValue;

    fn try_from(raw: i32) -> (r: Result<Self, UnknownEnumValue>) {
        match raw {
            0 => Ok(TierProto::TierUnspecified),
            1 => Ok(TierProto::TierMem),
            2 => Ok(TierProto::TierNvme),
            3 => Ok(TierProto::TierSsd),
            4 => Ok(TierProto::TierHdd),
            _ => Err(UnknownEnumValue(raw)),
        }
    }
}

#[derive(Clone, Debug, PartialEq, Eq)]
pub struct WorkerEndpointInfoProto {
    pub worker_id: u64,
    pub endpoint: String,
    pub worker_run_id: String,
}

/// The value of a `WorkerEndpointInfoProto`.
pub struct WorkerEndpointInfoProtoView {
    pub worker_id: u64,
    pub endpoint: Seq<char>,
    pub worker_run_id: Seq<char>,
}

impl View for WorkerEndpointInfoProto {
    type V = WorkerEndpointInfoProtoView;

    open spec fn view(&self) -> WorkerEndpointInfoProtoView {
        WorkerEndpointInfoProtoView {
            worker_id: self.worker_id,
            endpoint: self.endpoint@,
            worker_run_id: self.worker_run_id@,
        }
    }
}

/// The values of a sequence of endpoint messages.
pub open spec fn endpoint_proto_views(endpoints: Seq<WorkerEndpointInfoProto>) -> Seq<
    WorkerEndpointInfoProtoView,
> {
    endpoints.map_values(|e: WorkerEndpointInfoProto| e@)
}

#[derive(Clone, Debug, PartialEq, Eq)]
pub struct LocatedBlockProto {
    pub block_id: Option<BlockIdProto>,
    pub file_offset: u64,
    pub write_offset: u64,
    pub worker_endpoints: Vec<WorkerEndpointInfoProto>,
    pub fencing_token: Option<FencingTokenProto>,
    pub chunk_size: u32,
    pub block_format_id: u32,
    pub block_size: u64,
    pub tier: i32,
}

/// The value of a `LocatedBlockProto`.
pub struct LocatedBlockProtoView {
    pub block_id: Option<BlockIdProto>,
    pub file_offset: u64,
    pub write_offset: u64,
    pub worker_endpoints: Seq<WorkerEndpointInfoProtoView>,
    pub fencing_token: Option<FencingTokenProto>,
    pub chunk_size: u32,
    pub block_format_id: u32,
    pub block_size: u64,
    pub tier: i32,
}

impl View for LocatedBlockProto {
    type V = LocatedBlockProtoView;

    open spec fn view(&self) -> LocatedBlockProtoView {
        LocatedBlockProtoView {
            block_id: self.block_id,
            file_offset: self.file_offset,
            write_offset: self.write_offset,
            worker_endpoints: endpoint_proto_views(self.worker_endpoints@),
            fencing_token: self.fencing_token,
            chunk_size: self.chunk_size,
            block_format_id: self.block_format_id,
            block_size: self.block_size,
            tier: self.tier,
        }
    }
}

#[derive(Clone, Debug, PartialEq, Eq)]
pub struct FileBlockLocationProto {
    pub block_id: Option<BlockIdProto>,
    pub file_offset: u64,
    pub len: u64,
    pub workers: Vec<WorkerEndpointInfoProto>,
    pub block_format_id: u32,
    pub block_size: u64,
    pub chunk_size: u32,
    pub effective_len: u64,
}

/// The value of a `FileBlockLocationProto`.
pub struct FileBlockLocationProtoView {
    pub block_id: Option<BlockIdProto>,
    pub file_offset: u64,
    pub len: u64,
    pub workers: Seq<WorkerEndpointInfoProtoView>,
    pub block_format_id: u32,
    pub block_size: u64,
    pub chunk_size: u32,
    pub effective_len: u64,
}

impl View for FileBlockLocationProto {
    type V = FileBlockLocationProtoView;

    open spec fn view(&self) -> FileBlockLocationProtoView {
        FileBlockLocationProtoView {
            block_id: self.block_id,
            file_offset: self.file_offset,
            len: self.len,
            workers: endpoint_proto_views(self.workers@),
            block_format_id: self.block_format_id,
            block_size: self.block_size,
            chunk_size: self.chunk_size,
            effective_len: self.effective_len,
        }
    }
}

#[derive(Clone, Debug, PartialEq, Eq)]
pub struct GroupStateWatermarkProto {
    pub state_id: Option<RaftLogIdProto>,
    pub group_name: String,
}

/// The value of a `GroupStateWatermarkProto`.
pub struct GroupStateWatermarkProtoView {
    pub state_id: Option<RaftLogIdProto>,
    pub group_name: Seq<char>,
}

impl View for GroupStateWatermarkProto {
    type V = GroupStateWatermarkProtoView;

    open spec fn view(&self) -> GroupStateWatermarkProtoView {
        GroupStateWatermarkProtoView { state_id: self.state_id, group_name: self.group_name@ }
    }
}

/// The values of a sequence of watermark messages.
pub open spec fn watermark_proto_views(marks: Seq<GroupStateWatermarkProto>) -> Seq<
    GroupStateWatermarkProtoView,
> {
    marks.map_values(|m: GroupStateWatermarkProto| m@)
}

#[derive(Clone, Debug, PartialEq, Eq)]
pub struct ClientInfoProto {
    pub call_id: String,
    pub client_id: Option<ClientIdProto>,
    pub client_name: String,
}

/// The value of a `ClientInfoProto`.
pub struct ClientInfoProtoView {
    pub call_id: Seq<char>,
    pub client_id: Option<ClientIdProto>,
    pub client_name: Seq<char>,
}

impl View for ClientInfoProto {
    type V = ClientInfoProtoView;

    open spec fn view(&self) -> ClientInfoProtoView {
        ClientInfoProtoView {
            call_id: self.call_id@,
            client_id: self.client_id,
            client_name: self.client_name@,
        }
    }
}

#[derive(Clone, Debug, PartialEq, Eq)]
pub struct TraceContextProto {
    pub traceparent: Option<String>,
    pub tracestate: Option<String>,
    pub baggage: Option<String>,
}

/// The value of a `TraceContextProto`.
pub struct TraceContextProtoView {
    pub traceparent: Option<Seq<char>>,
    pub tracestate: Option<Seq<char>>,
    pub baggage: Option<Seq<char>>,
}

impl View for TraceContextProto {
    type V = TraceContextProtoView;

    open spec fn view(&self) -> TraceContextProtoView {
        TraceContextProtoView {
            traceparent: optional_text(self.traceparent),
            tracestate: optional_text(self.tracestate),
            baggage: optional_text(self.baggage),
        }
    }
}

#[derive(Clone, Debug, PartialEq, Eq)]
pub struct CallerContextProto {
    pub context: String,
}

#[derive(Clone, Debug, PartialEq, Eq)]
pub struct RequestHeaderProto {
    pub client: Option<ClientInfoProto>,
    pub trace_context: Option<TraceContextProto>,
    pub group_name: String,
    pub mount_epoch: Option<u64>,
    pub state: Vec<GroupStateWatermarkProto>,
    pub route_epoch: Option<u64>,
    pub deadline_ms: i64,
    pub caller_context: Option<CallerContextProto>,
}

/// The value of a `RequestHeaderProto`.
pub struct RequestHeaderProtoView {
    pub client: Option<ClientInfoProtoView>,
    pub trace_context: Option<TraceContextProtoView>,
    pub group_name: Seq<char>,
    pub mount_epoch: Option<u64>,
    pub state: Seq<GroupStateWatermarkProtoView>,
    pub route_epoch: Option<u64>,
    pub deadline_ms: i64,
    pub caller_context: Option<Seq<char>>,
}

/// The value of an optional client message.
pub open spec fn optional_client_view(client: Option<ClientInfoProto>) -> Option<
    ClientInfoProtoView,
> {
    match client {
        Some(c) => Some(c@),
        None => None,
    }
}

/// The value of an optional trace message.
pub open spec fn optional_trace_view(trace: Option<TraceContextProto>) -> Option<
    TraceContextProtoView,
> {
    match trace {
        Some(t) => Some(t@),
        None => None,
    }
}

impl View for RequestHeaderProto {
    type V = RequestHeaderProtoView;

    open spec fn view(&self) -> RequestHeaderProtoView {
        RequestHeaderProtoView {
            client: optional_client_view(self.client),
            trace_context: optional_trace_view(self.trace_context),
            group_name: self.group_name@,
            mount_epoch: self.mount_epoch,
            state: watermark_proto_views(self.state@),
            route_epoch: self.route_epoch,
            deadline_ms: self.deadline_ms,
            caller_context: match self.caller_context {
                Some(c) => Some(c.context@),
                None => None,
            },
        }
    }
}

#[derive(Clone, Debug, PartialEq, Eq)]
pub struct RefreshHintProto {
    pub leader_endpoint: Option<String>,
    pub group_name: Option<String>,
    pub mount_epoch: Option<u64>,
    pub mount_prefix: Option<String>,
    pub route_epoch: Option<u64>,
    pub worker_endpoints: Vec<WorkerEndpointInfoProto>,
    pub worker_resolve_required: bool,
}

/// The value of a `RefreshHintProto`.
pub struct RefreshHintProtoView {
    pub leader_endpoint: Option<Seq<char>>,
    pub group_name: Option<Seq<char>>,
    pub mount_epoch: Option<u64>,
    pub mount_prefix: Option<Seq<char>>,
    pub route_epoch: Option<u64>,
    pub worker_endpoints: Seq<WorkerEndpointInfoProtoView>,
    pub worker_resolve_required: bool,
}

impl View for RefreshHintProto {
    type V = RefreshHintProtoView;

    open spec fn view(&self) -> RefreshHintProtoView {
        RefreshHintProtoView {
            leader_endpoint: optional_text(self.leader_endpoint),
            group_name: optional_text(self.group_name),
            mount_epoch: self.mount_epoch,
            mount_prefix: optional_text(self.mount_prefix),
            route_epoch: self.route_epoch,
            worker_endpoints: endpoint_proto_views(self.worker_endpoints@),
            worker_resolve_required: self.worker_resolve_required,
        }
    }
}

impl Default for RefreshHintProto {
    fn default() -> (r: Self)
        ensures
            r@ == (RefreshHintProtoView {
                leader_endpoint: None,
                group_name: None,
                mount_epoch: None,
                mount_prefix: None,
                route_epoch: None,
                worker_endpoints: Seq::empty(),
                worker_resolve_required: false,
            }),
    {
        let r = RefreshHintProto {
            leader_endpoint: None,
            group_name: None,
            mount_epoch: None,
            mount_prefix: None,
            route_epoch: None,
            worker_endpoints: Vec::new(),
            worker_resolve_required: false,
        };
        assert(r@.worker_endpoints =~= Seq::empty());
        r
    }
}

#[derive(Clone, Copy, Debug, PartialEq, Eq, Hash, Structural)]
pub struct RetryRecoveryProto {
    pub after_ms: Option<u64>,
}

#[derive(Clone, Debug, PartialEq, Eq)]
pub struct RefreshMetadataRecoveryProto {
    pub hint: Option<RefreshHintProto>,
}

#[derive(Clone, Debug, PartialEq, Eq)]
pub struct ReopenWriteSessionRecoveryProto {
    pub hint: Option<RefreshHintProto>,
}

/// Which recovery a wire error asks for.
#[derive(Clone, Debug, PartialEq, Eq)]
pub enum Action {
    Fail,
    Retry(RetryRecoveryProto),
    RefreshMetadata(RefreshMetadataRecoveryProto),
    ReopenWriteSession(ReopenWriteSessionRecoveryProto),
    RegisterWorker,
    SendFullBlockReport,
}

/// The value of an `Action`.
pub enum ActionView {
    Fail,
    Retry(Option<u64>),
    RefreshMetadata(Option<RefreshHintProtoView>),
    ReopenWriteSession(Option<RefreshHintProtoView>),
    RegisterWorker,
    SendFullBlockReport,
}

/// The value of an optional hint message.
pub open spec fn optional_hint_view(hint: Option<RefreshHintProto>) -> Option<
    RefreshHintProtoView,
> {
    match hint {
        Some(h) => Some(h@),
        None => None,
    }
}

impl View for Action {
    type V = ActionView;

    open spec fn view(&self) -> ActionView {
        match self {
            Action::Fail => ActionView::Fail,
            Action::Retry(retry) => ActionView::Retry(retry.after_ms),
            Action::RefreshMetadata(refresh) => ActionView::RefreshMetadata(
                optional_hint_view(refresh.hint),
            ),
            Action::ReopenWriteSession(reopen) => ActionView::ReopenWriteSession(
                optional_hint_view(reopen.hint),
            ),
            Action::RegisterWorker => ActionView::RegisterWorker,
            Action::SendFullBlockReport => ActionView::SendFullBlockReport,
        }
    }
}

#[derive(Clone, Debug, PartialEq, Eq)]
pub struct RecoveryActionProto {
    pub action: Option<Action>,
}

#[derive(Clone, Debug, PartialEq, Eq)]
pub struct ErrorDetailProto {
    pub kind: Option<ErrorKindProto>,
    pub recovery: Option<RecoveryActionProto>,
    pub message: String,
}

/// The value of an `ErrorDetailProto`.
pub struct ErrorDetailProtoView {
    pub kind: Option<ErrorKindProto>,
    /// The recovery, where both of its layers are present.
    pub recovery: Option<ActionView>,
    pub message: Seq<char>,
}

/// The action that an optional recovery message holds.
pub open spec fn optional_action_view(recovery: Option<RecoveryActionProto>) -> Option<ActionView> {
    match recovery {
        Some(r) => match r.action {
            Some(a) => Some(a@),
            None => None,
        },
        None => None,
    }
}

impl View for ErrorDetailProto {
    type V = ErrorDetailProtoView;

    open spec fn view(&self) -> ErrorDetailProtoView {
        ErrorDetailProtoView {
            kind: self.kind,
            recovery: optional_action_view(self.recovery),
            message: self.message@,
        }
    }
}

#[derive(Clone, Debug, PartialEq, Eq)]
pub struct ResponseHeaderProto {
    pub client: Option<ClientInfoProto>,
    pub error: Option<ErrorDetailProto>,
    pub state: Vec<GroupStateWatermarkProto>,
    pub mount_epoch: Option<u64>,
    pub route_epoch: Option<u64>,
    pub group_name: String,
}

/// The value of a `ResponseHeaderProto`.
pub struct ResponseHeaderProtoView {
    pub client: Option<ClientInfoProtoView>,
    pub error: Option<ErrorDetailProtoView>,
    pub state: Seq<GroupStateWatermarkProtoView>,
    pub mount_epoch: Option<u64>,
    pub route_epoch: Option<u64>,
    pub group_name: Seq<char>,
}

impl ResponseHeaderProtoView {
    /// The header that says nothing.
    pub open spec fn none() -> ResponseHeaderProtoView {
        ResponseHeaderProtoView {
            client: None,
            error: None,
            state: Seq::empty(),
            mount_epoch: None,
            route_epoch: None,
            group_name: Seq::empty(),
        }
    }
}

/// The value of an optional error message.
pub open spec fn optional_error_view(error: Option<ErrorDetailProto>) -> Option<
    ErrorDetailProtoView,
> {
    match error {
        Some(e) => Some(e@),
        None => None,
    }
}

impl View for ResponseHeaderProto {
    type V = ResponseHeaderProtoView;

    open spec fn view(&self) -> ResponseHeaderProtoView {
        ResponseHeaderProtoView {
            client: optional_client_view(self.client),
            error: optional_error_view(self.error),
            state: watermark_proto_views(self.state@),
            mount_epoch: self.mount_epoch,
            route_epoch: self.route_epoch,
            group_name: self.group_name@,
        }
    }
}

impl Default for ResponseHeaderProto {
    fn default() -> (r: Self)
        ensures
            r@ == ResponseHeaderProtoView::none(),
    {
        let r = ResponseHeaderProto {
            client: None,
            error: None,
            state: Vec::new(),
            mount_epoch: None,
            route_epoch: None,
            group_name: String::new(),
        };
        assert(r@.state =~= Seq::empty());
        r
    }
}

} // verus!
