//! Decisions of the service that workers talk to.

use vstd::prelude::*;

use crate::error::{rpc_error_of, to_rpc_error, MetadataError, MetadataErrorCode, MetadataErrorView};
use crate::filesystem::command::{ApplySuccess, Command, RaftReply};
use crate::filesystem::context::{response_state_for_success, success_state};
use crate::group_watermark::RaftLogId;
use crate::header::optional_group;
use crate::ids::{group_name_parse, group_name_parse_optional, BlockId, GroupName, WorkerId};
use crate::outside_uuid::{hyphenated_text, uuid_parse};
use crate::proto::convert::{
    block_id_encode, encode_watermarks, require_worker_run_id, watermarks_encode,
    worker_run_id_required,
};
use crate::proto::message::{
    BlockIdProto, RequestHeaderProto, RequestHeaderProtoView, ResponseHeaderProto,
    ResponseHeaderProtoView, TraceContextProto, TraceContextProtoView,
};
use crate::rpc_error::{
    copy_optional_text, optional_text, ErrorKind, MetadataErrorKind, RecoveryActionView,
    RpcErrorDetail, RpcErrorDetailView, WorkerErrorKind,
};
use crate::text::{decimal, decimal_text, join, same_text, trim, trimmed};
use crate::wire::{
    extract_and_inject_context, header_from_rpc_error, ok_header_from_request,
    optional_request_view, request_context_decode, request_response_header,
};
use crate::worker::message::{
    Batch, BlockCleanupCommandProto, BlockReportKindProto, BlockReportRequestProto,
    BlockReportResponseProto, EndpointProto, HeartbeatRequestProto, HeartbeatResponseProto,
    RegisterWorkerRequestProto, RegisterWorkerResponseProto,
};
use crate::worker::report::{
    decode_delta_batch, decode_full_batch, delta_batch_error, delta_batch_reaches_valid_ids,
    full_batch_error, full_batch_reaches_valid_ids, parse_tier_free, reaches_valid_entry_ids,
    reaches_valid_ids, tells_blocks, tells_changes, tells_free_space,
    tier_free_error, BlockReportBlock, BlockReportChange,
};
use crate::worker_info::{TierFree, WorkerRunId, MAX_REPORT_ENTRIES};

verus! {

/// The wire number of the one protocol that workers speak.
pub const WORKER_NET_PROTOCOL_GRPC: i32 = 1;

/// The service that workers of one metadata group talk to.
#[derive(Debug)]
pub struct MetadataWorkerServiceImpl {
    pub served_group_name: GroupName,
    /// How long a worker counts as alive without a heartbeat.
    pub liveness_timeout_ms: u32,
}

// ---- transport context ----

/// Trace context that came with the transport.
#[derive(Debug)]
pub struct ExtractedContext {
    pub traceparent: Option<String>,
    pub tracestate: Option<String>,
    pub baggage: Option<String>,
}

/// The value of an `ExtractedContext`.
pub open spec fn extracted_view(context: ExtractedContext) -> TraceContextProtoView {
    TraceContextProtoView {
        traceparent: optional_text(context.traceparent),
        tracestate: optional_text(context.tracestate),
        baggage: optional_text(context.baggage),
    }
}

/// Whether a trace context names nothing.
pub open spec fn is_empty_trace(context: TraceContextProtoView) -> bool {
    context.traceparent is None && context.tracestate is None && context.baggage is None
}

/// Returns whether a trace context names nothing.
pub fn trace_context_proto_is_empty(context: &TraceContextProto) -> (r: bool)
    ensures
        r == is_empty_trace(context@),
{
    context.traceparent.is_none() && context.tracestate.is_none() && context.baggage.is_none()
}

/// The first of two optional texts that is there.
pub open spec fn first_known(a: Option<Seq<char>>, b: Option<Seq<char>>) -> Option<Seq<char>> {
    if a is Some {
        a
    } else {
        b
    }
}

/// The trace context of a request: what its header names, and otherwise what came with the
/// transport.
pub open spec fn merged_trace(
    header: Option<TraceContextProtoView>,
    transport: TraceContextProtoView,
) -> Option<TraceContextProtoView> {
    let kept = match header {
        Some(t) if !is_empty_trace(t) => Some(t),
        _ => None,
    };
    if is_empty_trace(transport) {
        kept
    } else {
        match kept {
            None => Some(transport),
            Some(t) => Some(
                TraceContextProtoView {
                    traceparent: first_known(t.traceparent, transport.traceparent),
                    tracestate: first_known(t.tracestate, transport.tracestate),
                    baggage: first_known(t.baggage, transport.baggage),
                },
            ),
        }
    }
}

/// Completes the trace context of a request header from the transport. What the header
/// names stays.
pub fn merge_request_header_transport_context(
    header: &mut Option<RequestHeaderProto>,
    context: &ExtractedContext,
)
    ensures
        optional_request_view(*final(header)) == match optional_request_view(*old(header)) {
            None => None,
            Some(h) => Some(
                RequestHeaderProtoView {
                    trace_context: merged_trace(h.trace_context, extracted_view(*context)),
                    ..h
                },
            ),
        },
{
    let taken = header.take();
    match taken {
        None => {},
        Some(request) => {
            let mut request = request;
            let ghost before = request@;
            let known = match request.trace_context {
                Some(trace) => if trace_context_proto_is_empty(&trace) {
                    None
                } else {
                    Some(trace)
                },
                None => None,
            };
            let empty = context.traceparent.is_none() && context.tracestate.is_none()
                && context.baggage.is_none();
            request.trace_context = if empty {
                known
            } else {
                match known {
                    None => Some(
                        TraceContextProto {
                            traceparent: copy_optional_text(&context.traceparent),
                            tracestate: copy_optional_text(&context.tracestate),
                            baggage: copy_optional_text(&context.baggage),
                        },
                    ),
                    Some(trace) => {
                        let mut trace = trace;
                        if trace.traceparent.is_none() {
                            trace.traceparent = copy_optional_text(&context.traceparent);
                        }
                        if trace.tracestate.is_none() {
                            trace.tracestate = copy_optional_text(&context.tracestate);
                        }
                        if trace.baggage.is_none() {
                            trace.baggage = copy_optional_text(&context.baggage);
                        }
                        Some(trace)
                    },
                }
            };
            assert(request@ == (RequestHeaderProtoView {
                trace_context: merged_trace(before.trace_context, extracted_view(*context)),
                ..before
            }));
            *header = Some(request);
        },
    }
}

// ---- endpoints ----

/// What a host is, read as an IP address.
#[derive(Clone, Copy, Debug, PartialEq, Eq, Structural)]
pub enum HostKind {
    /// Not an address.
    Name,
    Address { is_v6: bool, is_unspecified: bool },
}

/// The address that an endpoint advertises, or why it is not valid.
pub open spec fn advertised_address(endpoint: EndpointProto, host: HostKind) -> Result<
    Seq<char>,
    Seq<char>,
> {
    if trimmed(endpoint.host@).len() == 0 {
        Err("advertised_endpoint host must not be empty"@)
    } else if endpoint.port == 0 || endpoint.port > 65535 {
        Err("advertised_endpoint port must be between 1 and 65535"@)
    } else {
        match host {
            HostKind::Address { is_unspecified: true, .. } => Err(
                "advertised_endpoint must not use a wildcard host"@,
            ),
            HostKind::Address { is_v6: true, .. } => Ok(
                "["@ + endpoint.host@ + "]:"@ + decimal(endpoint.port as nat),
            ),
            _ => Ok(endpoint.host@ + ":"@ + decimal(endpoint.port as nat)),
        }
    }
}

/// Returns the address that an endpoint advertises. `host` says what its host is, read as
/// an IP address.
pub fn validate_advertised_endpoint(endpoint: &EndpointProto, host: HostKind) -> (r: Result<
    String,
    String,
>)
    ensures
        match r {
            Ok(address) => advertised_address(*endpoint, host) == Ok::<Seq<char>, Seq<char>>(
                address@,
            ),
            Err(e) => advertised_address(*endpoint, host) == Err::<Seq<char>, Seq<char>>(e@),
        },
{
    if trim(endpoint.host.as_str()).is_empty() {
        return Err("advertised_endpoint host must not be empty".to_owned());
    }
    if endpoint.port == 0 || endpoint.port > 65535 {
        return Err("advertised_endpoint port must be between 1 and 65535".to_owned());
    }
    let (is_v6, is_unspecified) = match host {
        HostKind::Name => (false, false),
        HostKind::Address { is_v6, is_unspecified } => (is_v6, is_unspecified),
    };
    if is_unspecified {
        return Err("advertised_endpoint must not use a wildcard host".to_owned());
    }
    let port = decimal_text(endpoint.port as u128);
    if is_v6 {
        let mut out = join("[", endpoint.host.as_str());
        out.append("]:");
        out.append(port.as_str());
        Ok(out)
    } else {
        let mut out = join(endpoint.host.as_str(), ":");
        out.append(port.as_str());
        Ok(out)
    }
}

// ---- answers ----

/// The header of an answer to a worker. The leader also tells its applied state.
pub open spec fn worker_response_header(
    header: Option<RequestHeaderProtoView>,
    group_name: Option<Seq<char>>,
    leader_state: Option<RaftLogId>,
    error: Option<RpcErrorDetailView>,
) -> ResponseHeaderProtoView {
    ResponseHeaderProtoView {
        state: watermarks_encode(success_state(group_name, leader_state)),
        ..request_response_header(header, group_name, None, error)
    }
}

/// Returns the header of a successful answer. `leader_state` is the applied state of this
/// node if it leads, as far as known.
pub fn create_response_header_from_request(
    req_header: &Option<RequestHeaderProto>,
    group_name: &Option<GroupName>,
    leader_state: Option<RaftLogId>,
) -> (r: ResponseHeaderProto)
    ensures
        r@ == worker_response_header(
            optional_request_view(*req_header),
            optional_group(*group_name),
            leader_state,
            None,
        ),
{
    let mut header = ok_header_from_request(req_header, group_name, None);
    let state = response_state_for_success(group_name, leader_state);
    header.state = encode_watermarks(&state);
    header
}

/// The group that a request header names, as far as it names one.
pub open spec fn header_group(header: Option<RequestHeaderProtoView>) -> Option<Seq<char>> {
    match header {
        None => None,
        Some(h) => match group_name_parse_optional(h.group_name) {
            Ok(group) => group,
            Err(_) => None,
        },
    }
}

/// Returns the group that a request header names, as far as it names one.
pub fn group_name_from_request_header(req_header: &Option<RequestHeaderProto>) -> (r: Option<
    GroupName,
>)
    ensures
        optional_group(r) == header_group(optional_request_view(*req_header)),
{
    match req_header {
        None => None,
        Some(header) => match GroupName::parse_optional(header.group_name.as_str()) {
            Ok(group) => group,
            Err(_) => None,
        },
    }
}

/// Returns the header of an answer that refuses a request.
pub fn error_response_header_from_request(
    req_header: &Option<RequestHeaderProto>,
    error: &RpcErrorDetail,
    leader_state: Option<RaftLogId>,
) -> (r: ResponseHeaderProto)
    ensures
        r@ == worker_response_header(
            optional_request_view(*req_header),
            header_group(optional_request_view(*req_header)),
            leader_state,
            Some(error@),
        ),
{
    let group_name = group_name_from_request_header(req_header);
    let mut header = header_from_rpc_error(req_header, &group_name, None, error);
    let state = response_state_for_success(&group_name, leader_state);
    header.state = encode_watermarks(&state);
    header
}

/// A refusal reaches the worker with its kind, its recovery and its message.
pub proof fn refusals_reach_the_worker(
    header: Option<RequestHeaderProtoView>,
    leader_state: Option<RaftLogId>,
    error: RpcErrorDetailView,
)
    ensures
        ({
            let answer = worker_response_header(
                header,
                header_group(header),
                leader_state,
                Some(error),
            );
            answer.error is Some && crate::proto::header::rpc_error_decode(answer.error->0)
                == error
        }),
{
    crate::proto::header::rpc_error_round_trip(error);
}

/// Returns the answer that refuses a registration.
pub fn register_worker_response_with_header(header: ResponseHeaderProto) -> (r:
    RegisterWorkerResponseProto)
    ensures
        r.header == Some(header),
        r.worker_id == 0,
        r.accepted_worker_run_id@.len() == 0,
{
    RegisterWorkerResponseProto {
        header: Some(header),
        worker_id: 0,
        accepted_worker_run_id: String::new(),
    }
}

/// Returns the answer that refuses a heartbeat.
pub fn heartbeat_response_with_header(header: ResponseHeaderProto) -> (r: HeartbeatResponseProto)
    ensures
        r.header == Some(header),
        r.worker_id == 0,
        r.accepted_worker_run_id@.len() == 0,
        r.liveness_timeout_ms == 0,
        r.cleanup_commands@.len() == 0,
{
    HeartbeatResponseProto {
        header: Some(header),
        worker_id: 0,
        accepted_worker_run_id: String::new(),
        liveness_timeout_ms: 0,
        cleanup_commands: Vec::new(),
    }
}

/// Returns the answer that refuses a block report.
pub fn block_report_response_with_header(header: ResponseHeaderProto) -> (r:
    BlockReportResponseProto)
    ensures
        r.header == Some(header),
        r.report_kind == BlockReportKindProto::BlockReportKindUnspecified,
        r.baseline_seq == 0,
        r.next_batch_seq == 0,
        !r.baseline_published,
{
    BlockReportResponseProto {
        header: Some(header),
        report_kind: BlockReportKindProto::BlockReportKindUnspecified,
        baseline_seq: 0,
        next_batch_seq: 0,
        baseline_published: false,
    }
}

// ---- refusals ----

/// The error for a request that is not valid.
pub open spec fn invalid_request(message: Seq<char>) -> RpcErrorDetailView {
    rpc_error_of(MetadataErrorView { code: MetadataErrorCode::InvalidArgument, text: message })
}

/// Creates the error for a request that is not valid.
pub fn invalid_request_error(message: String) -> (r: RpcErrorDetail)
    ensures
        r@ == invalid_request(message@),
{
    to_rpc_error(&MetadataError::InvalidArgument(message))
}

/// The error for a request to another group.
pub open spec fn group_mismatch(message: Seq<char>) -> RpcErrorDetailView {
    RpcErrorDetailView {
        kind: ErrorKind::Metadata(MetadataErrorKind::GroupMismatch),
        recovery: RecoveryActionView::Fail,
        message,
    }
}

/// Creates the error for a request to another group.
pub fn group_mismatch_error(message: String) -> (r: RpcErrorDetail)
    ensures
        r@ == group_mismatch(message@),
{
    RpcErrorDetail::fail(ErrorKind::Metadata(MetadataErrorKind::GroupMismatch), message)
}

/// The error that asks a worker to register, for the given reason.
pub open spec fn must_register(kind: WorkerErrorKind, message: Seq<char>) -> RpcErrorDetailView {
    RpcErrorDetailView {
        kind: ErrorKind::Worker(kind),
        recovery: RecoveryActionView::RegisterWorker,
        message,
    }
}

/// Creates the error for a worker that is not registered.
pub fn need_register_error(message: String) -> (r: RpcErrorDetail)
    ensures
        r@ == must_register(WorkerErrorKind::NotRegistered, message@),
{
    RpcErrorDetail::register_worker(ErrorKind::Worker(WorkerErrorKind::NotRegistered), message)
}

/// Creates the error for a process start that is not the registered one.
pub fn worker_run_mismatch_error(message: String) -> (r: RpcErrorDetail)
    ensures
        r@ == must_register(WorkerErrorKind::RunMismatch, message@),
{
    RpcErrorDetail::register_worker(ErrorKind::Worker(WorkerErrorKind::RunMismatch), message)
}

/// Creates the error for an endpoint that is not the registered one.
pub fn worker_descriptor_mismatch_error(message: String) -> (r: RpcErrorDetail)
    ensures
        r@ == must_register(WorkerErrorKind::DescriptorMismatch, message@),
{
    RpcErrorDetail::register_worker(
        ErrorKind::Worker(WorkerErrorKind::DescriptorMismatch),
        message,
    )
}

/// The error that asks a worker for a full block report.
pub open spec fn must_report(message: Seq<char>) -> RpcErrorDetailView {
    RpcErrorDetailView {
        kind: ErrorKind::Worker(WorkerErrorKind::FullReportRequired),
        recovery: RecoveryActionView::SendFullBlockReport,
        message,
    }
}

/// Creates the error that asks a worker for a full block report.
pub fn full_report_required_error(message: String) -> (r: RpcErrorDetail)
    ensures
        r@ == must_report(message@),
{
    RpcErrorDetail::send_full_block_report(
        ErrorKind::Worker(WorkerErrorKind::FullReportRequired),
        message,
    )
}

// ---- identity ----

/// What a worker asks for.
#[derive(Clone, Copy, Debug, PartialEq, Eq, Structural)]
pub enum WorkerOperation {
    Register,
    Heartbeat,
    BlockReport,
}

impl WorkerOperation {
    /// The name of the operation in messages.
    pub open spec fn text(self) -> Seq<char> {
        match self {
            WorkerOperation::Register => "register"@,
            WorkerOperation::Heartbeat => "heartbeat"@,
            WorkerOperation::BlockReport => "block report"@,
        }
    }

    /// The field of the operation's message that names the process start.
    pub open spec fn run_field(self) -> Seq<char> {
        match self {
            WorkerOperation::Register => "RegisterWorkerRequest.worker_run_id"@,
            WorkerOperation::Heartbeat => "HeartbeatRequest.worker_run_id"@,
            WorkerOperation::BlockReport => "BlockReportRequest.worker_run_id"@,
        }
    }

    /// Returns the name of the operation in messages.
    pub fn name(self) -> (r: &'static str)
        ensures
            r@ == self.text(),
    {
        match self {
            WorkerOperation::Register => "register",
            WorkerOperation::Heartbeat => "heartbeat",
            WorkerOperation::BlockReport => "block report",
        }
    }

    /// Returns the field of the operation's message that names the process start.
    pub fn run_field_name(self) -> (r: &'static str)
        ensures
            r@ == self.run_field(),
    {
        match self {
            WorkerOperation::Register => "RegisterWorkerRequest.worker_run_id",
            WorkerOperation::Heartbeat => "HeartbeatRequest.worker_run_id",
            WorkerOperation::BlockReport => "BlockReportRequest.worker_run_id",
        }
    }
}

/// Which start of which worker of which group asks.
#[derive(Debug)]
pub struct WorkerIdentity {
    pub group_name: GroupName,
    pub worker_id: WorkerId,
    pub worker_run_id: WorkerRunId,
}

/// The value of a `WorkerIdentity`.
pub struct WorkerIdentityView {
    pub group_name: Seq<char>,
    pub worker_id: WorkerId,
    pub worker_run_id: WorkerRunId,
}

impl View for WorkerIdentity {
    type V = WorkerIdentityView;

    open spec fn view(&self) -> WorkerIdentityView {
        WorkerIdentityView {
            group_name: self.group_name@,
            worker_id: self.worker_id,
            worker_run_id: self.worker_run_id,
        }
    }
}

/// The group that a worker's request names, or why it names none.
pub open spec fn worker_group(header: Option<RequestHeaderProtoView>) -> Result<
    Seq<char>,
    Seq<char>,
> {
    match header {
        None => Err("request header is required"@),
        Some(h) => match group_name_parse(h.group_name) {
            Ok(group) => Ok(group),
            Err(e) => Err("header group_name is invalid: "@ + e.text()),
        },
    }
}

/// Returns the group that a worker's request names.
pub fn parse_worker_request_group_name(req_header: &Option<RequestHeaderProto>) -> (r: Result<
    GroupName,
    String,
>)
    ensures
        match r {
            Ok(g) => worker_group(optional_request_view(*req_header)) == Ok::<
                Seq<char>,
                Seq<char>,
            >(g@),
            Err(e) => worker_group(optional_request_view(*req_header)) == Err::<
                Seq<char>,
                Seq<char>,
            >(e@),
        },
{
    match req_header {
        None => Err("request header is required".to_owned()),
        Some(header) => match GroupName::parse(header.group_name.as_str()) {
            Ok(group) => Ok(group),
            Err(e) => {
                let text = e.message();
                Err(join("header group_name is invalid: ", text.as_str()))
            },
        },
    }
}

/// The wording for a request to another group.
pub open spec fn other_group_text(
    operation: WorkerOperation,
    group: Seq<char>,
    served: Seq<char>,
) -> Seq<char> {
    operation.text() + " group_name "@ + group + " does not match served metadata group "@ + served
}

/// Who asks, or the first reason why that is not clear.
pub open spec fn worker_identity(
    served: Seq<char>,
    operation: WorkerOperation,
    header: Option<RequestHeaderProtoView>,
    worker_id: u64,
    worker_run_id: Seq<char>,
) -> Result<WorkerIdentityView, RpcErrorDetailView> {
    match worker_group(header) {
        Err(e) => Err(invalid_request(e)),
        Ok(group) => if group != served {
            if operation == WorkerOperation::Register {
                Err(invalid_request(other_group_text(operation, group, served)))
            } else {
                Err(group_mismatch(other_group_text(operation, group, served)))
            }
        } else if worker_id == 0 {
            Err(invalid_request("worker_id must be non-zero"@))
        } else {
            match worker_run_id_required(worker_run_id, operation.run_field()) {
                Err(e) => Err(invalid_request(e)),
                Ok(run) => Ok(
                    WorkerIdentityView {
                        group_name: group,
                        worker_id: WorkerId(worker_id),
                        worker_run_id: run,
                    },
                ),
            }
        },
    }
}

fn identify_worker(
    served: &GroupName,
    operation: WorkerOperation,
    header: &Option<RequestHeaderProto>,
    worker_id: u64,
    worker_run_id: &String,
) -> (r: Result<WorkerIdentity, RpcErrorDetail>)
    ensures
        ({
            let identity = worker_identity(
                served@,
                operation,
                optional_request_view(*header),
                worker_id,
                worker_run_id@,
            );
            match r {
                Ok(i) => identity == Ok::<WorkerIdentityView, RpcErrorDetailView>(i@),
                Err(e) => identity == Err::<WorkerIdentityView, RpcErrorDetailView>(e@),
            }
        }),
{
    let group_name = match parse_worker_request_group_name(header) {
        Ok(group_name) => group_name,
        Err(e) => return Err(invalid_request_error(e)),
    };
    if !group_name.same(served) {
        let mut out = join(operation.name(), " group_name ");
        out.append(group_name.as_str());
        out.append(" does not match served metadata group ");
        out.append(served.as_str());
        return match operation {
            WorkerOperation::Register => Err(invalid_request_error(out)),
            _ => Err(group_mismatch_error(out)),
        };
    }
    if worker_id == 0 {
        return Err(invalid_request_error("worker_id must be non-zero".to_owned()));
    }
    match require_worker_run_id(worker_run_id.as_str(), operation.run_field_name()) {
        Ok(worker_run_id) => Ok(
            WorkerIdentity { group_name, worker_id: WorkerId(worker_id), worker_run_id },
        ),
        Err(e) => Err(invalid_request_error(e)),
    }
}

/// The address of a required endpoint, or why there is none.
pub open spec fn required_address(endpoint: Option<EndpointProto>, host: HostKind) -> Result<
    Seq<char>,
    RpcErrorDetailView,
> {
    match endpoint {
        None => Err(invalid_request("Missing advertised_endpoint"@)),
        Some(endpoint) => match advertised_address(endpoint, host) {
            Ok(address) => Ok(address),
            Err(e) => Err(invalid_request(e)),
        },
    }
}

fn require_address(endpoint: &Option<EndpointProto>, host: HostKind) -> (r: Result<
    String,
    RpcErrorDetail,
>)
    ensures
        match r {
            Ok(a) => required_address(*endpoint, host) == Ok::<Seq<char>, RpcErrorDetailView>(
                a@,
            ),
            Err(e) => required_address(*endpoint, host) == Err::<Seq<char>, RpcErrorDetailView>(
                e@,
            ),
        },
{
    match endpoint {
        None => Err(invalid_request_error("Missing advertised_endpoint".to_owned())),
        Some(endpoint) => match validate_advertised_endpoint(endpoint, host) {
            Ok(address) => Ok(address),
            Err(e) => Err(invalid_request_error(e)),
        },
    }
}

// ---- registration ----

/// A registration that may be proposed.
#[derive(Debug)]
pub struct WorkerRegistration {
    pub identity: WorkerIdentity,
    pub address: String,
}

/// The value of a `WorkerRegistration`.
pub struct WorkerRegistrationView {
    pub identity: WorkerIdentityView,
    pub address: Seq<char>,
}

impl View for WorkerRegistration {
    type V = WorkerRegistrationView;

    open spec fn view(&self) -> WorkerRegistrationView {
        WorkerRegistrationView { identity: self.identity@, address: self.address@ }
    }
}

/// The registration that a request asks for, or the first reason why it is refused. Only
/// the leader registers.
pub open spec fn registration_admitted(
    served: Seq<char>,
    req: RegisterWorkerRequestProto,
    is_leader: bool,
    host: HostKind,
) -> Result<WorkerRegistrationView, RpcErrorDetailView> {
    let header = optional_request_view(req.header);
    if request_context_decode(header) is Err {
        Err(request_context_decode(header)->Err_0)
    } else if !is_leader {
        Err(
            rpc_error_of(
                MetadataErrorView {
                    code: MetadataErrorCode::LeaderChanged,
                    text: "worker registration must be sent to the metadata group leader"@,
                },
            ),
        )
    } else {
        match worker_identity(
            served,
            WorkerOperation::Register,
            header,
            req.worker_id,
            req.worker_run_id@,
        ) {
            Err(e) => Err(e),
            Ok(identity) => match required_address(req.advertised_endpoint, host) {
                Err(e) => Err(e),
                Ok(address) => Ok(WorkerRegistrationView { identity, address }),
            },
        }
    }
}

/// What proposing a registration returned, or why it is not accepted.
pub open spec fn registration_reply(reply: RaftReply, worker_id: WorkerId) -> Result<
    (),
    MetadataErrorView,
> {
    match reply {
        Err(e) => Err(e@),
        Ok(ApplySuccess::WorkerUpserted(accepted)) => if accepted == worker_id {
            Ok(())
        } else {
            Err(
                MetadataErrorView {
                    code: MetadataErrorCode::Internal,
                    text: "RegisterWorker returned worker_id "@ + decimal(accepted.0 as nat)
                        + ", expected "@ + decimal(worker_id.0 as nat),
                },
            )
        },
        Ok(other) => Err(
            MetadataErrorView {
                code: MetadataErrorCode::Internal,
                text: "RegisterWorker returned unexpected Raft response: "@ + other.text(),
            },
        ),
    }
}

/// Accepts only the registration of the worker that asked.
pub fn decode_registration(reply: RaftReply, worker_id: WorkerId) -> (r: Result<(), MetadataError>)
    ensures
        match r {
            Ok(()) => registration_reply(reply, worker_id) == Ok::<(), MetadataErrorView>(()),
            Err(e) => registration_reply(reply, worker_id) == Err::<(), MetadataErrorView>(e@),
        },
{
    match reply {
        Err(e) => Err(e),
        Ok(success) => match success {
            ApplySuccess::WorkerUpserted(accepted) => {
                if accepted == worker_id {
                    return Ok(());
                }
                let accepted_text = decimal_text(accepted.0 as u128);
                let wanted_text = decimal_text(worker_id.0 as u128);
                let mut out = join(
                    "RegisterWorker returned worker_id ",
                    accepted_text.as_str(),
                );
                out.append(", expected ");
                out.append(wanted_text.as_str());
                Err(MetadataError::Internal(out))
            },
            _ => {
                let text = success.describe();
                Err(
                    MetadataError::Internal(
                        join(
                            "RegisterWorker returned unexpected Raft response: ",
                            text.as_str(),
                        ),
                    ),
                )
            },
        },
    }
}

/// Whether the command makes the registration durable.
pub open spec fn registers(command: Command, registration: WorkerRegistrationView) -> bool {
    match command {
        Command::RegisterWorkerDescriptor {
            group_name,
            worker_id,
            address,
            worker_net_protocol,
        } => {
            &&& group_name@ == registration.identity.group_name
            &&& worker_id == registration.identity.worker_id
            &&& address@ == registration.address
            &&& worker_net_protocol == WORKER_NET_PROTOCOL_GRPC
        },
        _ => false,
    }
}

/// A start of a worker whose registration is durable. Only such a run is made live.
#[derive(Debug)]
pub struct LiveRun {
    registration: WorkerRegistration,
}

impl View for LiveRun {
    type V = WorkerRegistrationView;

    closed spec fn view(&self) -> WorkerRegistrationView {
        self.registration@
    }
}

impl LiveRun {
    /// Returns the registration of the run.
    pub fn registration(&self) -> (r: &WorkerRegistration)
        ensures
            r@ == self@,
    {
        &self.registration
    }
}

/// The registration that may be proposed once the worker tables have looked at it.
pub open spec fn registration_proposed(
    registration: WorkerRegistrationView,
    preflight: Result<(), MetadataErrorView>,
) -> Result<WorkerRegistrationView, RpcErrorDetailView> {
    match preflight {
        Ok(()) => Ok(registration),
        Err(e) => Err(rpc_error_of(e)),
    }
}

/// The run that becomes live once proposing its registration returned `reply`.
pub open spec fn run_confirmed(registration: WorkerRegistrationView, reply: RaftReply) -> Result<
    WorkerRegistrationView,
    RpcErrorDetailView,
> {
    match registration_reply(reply, registration.identity.worker_id) {
        Ok(()) => Ok(registration),
        Err(e) => Err(rpc_error_of(e)),
    }
}

/// The worker that is told to be registered once making its run live returned `published`.
pub open spec fn run_published(
    registration: WorkerRegistrationView,
    published: Result<(), MetadataErrorView>,
) -> Result<WorkerIdentityView, RpcErrorDetailView> {
    match published {
        Ok(()) => Ok(registration.identity),
        Err(e) => Err(rpc_error_of(e)),
    }
}

/// The value of a `Result` that has an error or nothing to tell.
pub open spec fn result_view(result: Result<(), MetadataError>) -> Result<(), MetadataErrorView> {
    match result {
        Ok(()) => Ok(()),
        Err(e) => Err(e@),
    }
}

/// Makes a run of a registration whose proposal was accepted. `reply` is what proposing it
/// returned.
pub fn confirm_registration(registration: WorkerRegistration, reply: RaftReply) -> (r: Result<
    LiveRun,
    RpcErrorDetail,
>)
    ensures
        match r {
            Ok(run) => run_confirmed(registration@, reply) == Ok::<
                WorkerRegistrationView,
                RpcErrorDetailView,
            >(run@),
            Err(e) => run_confirmed(registration@, reply) == Err::<
                WorkerRegistrationView,
                RpcErrorDetailView,
            >(e@),
        },
{
    match decode_registration(reply, registration.identity.worker_id) {
        Ok(()) => Ok(LiveRun { registration }),
        Err(e) => Err(to_rpc_error(&e)),
    }
}

/// Returns the worker that is told to be registered. `published` is what making its run live
/// returned.
pub fn publish_registration(run: LiveRun, published: Result<(), MetadataError>) -> (r: Result<
    WorkerIdentity,
    RpcErrorDetail,
>)
    ensures
        match r {
            Ok(identity) => run_published(run@, result_view(published)) == Ok::<
                WorkerIdentityView,
                RpcErrorDetailView,
            >(identity@),
            Err(e) => run_published(run@, result_view(published)) == Err::<
                WorkerIdentityView,
                RpcErrorDetailView,
            >(e@),
        },
{
    match published {
        Ok(()) => Ok(run.registration.identity),
        Err(e) => Err(to_rpc_error(&e)),
    }
}

/// The value of an answer to a registration.
pub struct RegisterWorkerResponseView {
    pub header: ResponseHeaderProtoView,
    pub worker_id: u64,
    pub accepted_worker_run_id: Seq<char>,
}

/// What a worker is told of its registration. A refusal names neither a worker nor a run.
pub open spec fn registration_answered(
    header: Option<RequestHeaderProtoView>,
    outcome: Result<WorkerIdentityView, RpcErrorDetailView>,
    leader_state: Option<RaftLogId>,
) -> RegisterWorkerResponseView {
    match outcome {
        Ok(identity) => RegisterWorkerResponseView {
            header: worker_response_header(
                header,
                Some(identity.group_name),
                leader_state,
                None,
            ),
            worker_id: identity.worker_id.0,
            accepted_worker_run_id: hyphenated_text(identity.worker_run_id.0),
        },
        Err(e) => RegisterWorkerResponseView {
            header: worker_response_header(header, header_group(header), leader_state, Some(e)),
            worker_id: 0,
            accepted_worker_run_id: Seq::empty(),
        },
    }
}

impl MetadataWorkerServiceImpl {
    /// Decides whether a worker may register. `host` says what the advertised host is, read
    /// as an IP address.
    pub fn admit_registration(
        &self,
        req: &RegisterWorkerRequestProto,
        is_leader: bool,
        host: HostKind,
    ) -> (r: Result<WorkerRegistration, RpcErrorDetail>)
        ensures
            ({
                let admitted = registration_admitted(
                    self.served_group_name@,
                    *req,
                    is_leader,
                    host,
                );
                match r {
                    Ok(v) => admitted == Ok::<WorkerRegistrationView, RpcErrorDetailView>(v@),
                    Err(e) => admitted == Err::<WorkerRegistrationView, RpcErrorDetailView>(e@),
                }
            }),
    {
        match extract_and_inject_context(&req.header) {
            Ok(_) => {},
            Err(e) => return Err(e),
        }
        if !is_leader {
            let error = MetadataError::LeaderChanged(
                "worker registration must be sent to the metadata group leader".to_owned(),
            );
            return Err(to_rpc_error(&error));
        }
        let identity = match identify_worker(
            &self.served_group_name,
            WorkerOperation::Register,
            &req.header,
            req.worker_id,
            &req.worker_run_id,
        ) {
            Ok(identity) => identity,
            Err(e) => return Err(e),
        };
        match require_address(&req.advertised_endpoint, host) {
            Ok(address) => Ok(WorkerRegistration { identity, address }),
            Err(e) => Err(e),
        }
    }

    /// Returns the command that makes a registration durable.
    pub fn registration_command(&self, registration: &WorkerRegistration) -> (r: Command)
        ensures
            registers(r, registration@),
    {
        Command::RegisterWorkerDescriptor {
            group_name: registration.identity.group_name.clone(),
            worker_id: registration.identity.worker_id,
            address: registration.address.clone(),
            worker_net_protocol: WORKER_NET_PROTOCOL_GRPC,
        }
    }

    /// Returns the command of a registration that the worker tables agree to. `preflight` is
    /// what they said.
    pub fn propose_registration(
        &self,
        registration: &WorkerRegistration,
        preflight: Result<(), MetadataError>,
    ) -> (r: Result<Command, RpcErrorDetail>)
        ensures
            match r {
                Ok(command) => {
                    &&& registration_proposed(registration@, result_view(preflight)) is Ok
                    &&& registers(command, registration@)
                },
                Err(e) => registration_proposed(registration@, result_view(preflight)) == Err::<
                    WorkerRegistrationView,
                    RpcErrorDetailView,
                >(e@),
            },
    {
        match preflight {
            Ok(()) => Ok(self.registration_command(registration)),
            Err(e) => Err(to_rpc_error(&e)),
        }
    }

    /// Returns the answer to a registration. The run that it tells reads back as the run that
    /// was registered.
    pub fn registration_response(
        &self,
        req_header: &Option<RequestHeaderProto>,
        outcome: &Result<WorkerIdentity, RpcErrorDetail>,
        leader_state: Option<RaftLogId>,
    ) -> (r: RegisterWorkerResponseProto)
        ensures
            ({
                let answer = registration_answered(
                    optional_request_view(*req_header),
                    match *outcome {
                        Ok(identity) => Ok::<WorkerIdentityView, RpcErrorDetailView>(identity@),
                        Err(e) => Err::<WorkerIdentityView, RpcErrorDetailView>(e@),
                    },
                    leader_state,
                );
                &&& r.header is Some
                &&& (r.header->0)@ == answer.header
                &&& r.worker_id == answer.worker_id
                &&& r.accepted_worker_run_id@ == answer.accepted_worker_run_id
                &&& outcome is Ok ==> uuid_parse(r.accepted_worker_run_id@) == Ok::<u128, Seq<char>>(
                    (outcome->Ok_0).worker_run_id.0,
                )
            }),
    {
        match outcome {
            Ok(identity) => {
                let group_name = Some(identity.group_name.clone());
                RegisterWorkerResponseProto {
                    header: Some(
                        create_response_header_from_request(
                            req_header,
                            &group_name,
                            leader_state,
                        ),
                    ),
                    worker_id: identity.worker_id.0,
                    accepted_worker_run_id: identity.worker_run_id.to_text(),
                }
            },
            Err(error) => register_worker_response_with_header(
                error_response_header_from_request(req_header, error, leader_state),
            ),
        }
    }
}

// ---- heartbeats ----

/// A heartbeat that is well formed.
#[derive(Debug)]
pub struct WorkerHeartbeat {
    pub identity: WorkerIdentity,
    pub heartbeat_seq: u64,
    pub address: String,
    pub tier_free: Vec<TierFree>,
}

/// Why a heartbeat is not well formed, if it is not. The first reason counts.
pub open spec fn heartbeat_error(
    served: Seq<char>,
    req: HeartbeatRequestProto,
    host: HostKind,
) -> Option<RpcErrorDetailView> {
    let header = optional_request_view(req.header);
    let identity = worker_identity(
        served,
        WorkerOperation::Heartbeat,
        header,
        req.worker_id,
        req.worker_run_id@,
    );
    if request_context_decode(header) is Err {
        Some(request_context_decode(header)->Err_0)
    } else if identity is Err {
        Some(identity->Err_0)
    } else if req.capacity is None {
        Some(invalid_request("Missing capacity"@))
    } else if tier_free_error((req.capacity->0).tier_free@) is Some {
        Some(invalid_request(tier_free_error((req.capacity->0).tier_free@)->0))
    } else if req.load is None {
        Some(invalid_request("Missing load"@))
    } else if required_address(req.advertised_endpoint, host) is Err {
        Some(required_address(req.advertised_endpoint, host)->Err_0)
    } else {
        None
    }
}

/// Whether the heartbeat says what the request tells.
pub open spec fn tells_heartbeat(
    served: Seq<char>,
    req: HeartbeatRequestProto,
    host: HostKind,
    heartbeat: WorkerHeartbeat,
) -> bool {
    &&& worker_identity(
        served,
        WorkerOperation::Heartbeat,
        optional_request_view(req.header),
        req.worker_id,
        req.worker_run_id@,
    ) == Ok::<WorkerIdentityView, RpcErrorDetailView>(heartbeat.identity@)
    &&& heartbeat.heartbeat_seq == req.heartbeat_seq
    &&& required_address(req.advertised_endpoint, host) == Ok::<Seq<char>, RpcErrorDetailView>(
        heartbeat.address@,
    )
    &&& tells_free_space((req.capacity->0).tier_free@, heartbeat.tier_free@)
}

/// What is registered of a worker.
#[derive(Debug)]
pub struct WorkerDescriptor {
    pub address: String,
    pub worker_net_protocol: i32,
}

/// What is remembered of a heartbeat that was refused.
#[derive(Clone, Copy, Debug, PartialEq, Eq, Structural)]
pub enum HeartbeatMark {
    Nothing,
    NeedRegister,
    RunMismatch,
}

/// A heartbeat that was refused.
#[derive(Debug)]
pub struct HeartbeatRefusal {
    pub error: RpcErrorDetail,
    pub mark: HeartbeatMark,
}

/// The value of a `HeartbeatRefusal`.
pub struct HeartbeatRefusalView {
    pub error: RpcErrorDetailView,
    pub mark: HeartbeatMark,
}

impl View for HeartbeatRefusal {
    type V = HeartbeatRefusalView;

    open spec fn view(&self) -> HeartbeatRefusalView {
        HeartbeatRefusalView { error: self.error@, mark: self.mark }
    }
}

/// The wording about a worker of a group.
pub open spec fn about_worker(prefix: Seq<char>, identity: WorkerIdentityView) -> Seq<char> {
    prefix + " for group_name="@ + identity.group_name + ", worker_id="@ + decimal(
        identity.worker_id.0 as nat,
    )
}

fn about_worker_message(prefix: &str, identity: &WorkerIdentity) -> (r: String)
    ensures
        r@ == about_worker(prefix@, identity@),
{
    let worker = decimal_text(identity.worker_id.0 as u128);
    let mut out = join(prefix, " for group_name=");
    out.append(identity.group_name.as_str());
    out.append(", worker_id=");
    out.append(worker.as_str());
    out
}

/// Why a heartbeat does not fit what is registered, if it does not: there must be a
/// descriptor and a live registration, of this process start, with this endpoint.
pub open spec fn heartbeat_misfit(
    heartbeat: WorkerHeartbeat,
    descriptor: Option<WorkerDescriptor>,
    registered_run: Option<WorkerRunId>,
) -> Option<HeartbeatRefusalView> {
    let identity = heartbeat.identity@;
    if descriptor is None {
        Some(
            HeartbeatRefusalView {
                error: must_register(
                    WorkerErrorKind::NotRegistered,
                    about_worker("worker descriptor not found"@, identity),
                ),
                mark: HeartbeatMark::NeedRegister,
            },
        )
    } else if registered_run is None {
        Some(
            HeartbeatRefusalView {
                error: must_register(
                    WorkerErrorKind::NotRegistered,
                    about_worker("live worker registration not found"@, identity),
                ),
                mark: HeartbeatMark::NeedRegister,
            },
        )
    } else if registered_run != Some(identity.worker_run_id) {
        Some(
            HeartbeatRefusalView {
                error: must_register(
                    WorkerErrorKind::RunMismatch,
                    about_worker("worker_run_id mismatch"@, identity),
                ),
                mark: HeartbeatMark::RunMismatch,
            },
        )
    } else if (descriptor->0).address@ != heartbeat.address@ || (
    descriptor->0).worker_net_protocol != WORKER_NET_PROTOCOL_GRPC {
        Some(
            HeartbeatRefusalView {
                error: must_register(
                    WorkerErrorKind::DescriptorMismatch,
                    about_worker(
                        "advertised endpoint or protocol does not match registration"@,
                        identity,
                    ),
                ),
                mark: HeartbeatMark::Nothing,
            },
        )
    } else {
        None
    }
}

/// What a worker is told where recording its heartbeat failed.
pub open spec fn heartbeat_record_refusal(error: MetadataErrorView) -> HeartbeatRefusalView {
    match error.code {
        MetadataErrorCode::NotFound => HeartbeatRefusalView {
            error: must_register(WorkerErrorKind::NotRegistered, error.text),
            mark: HeartbeatMark::NeedRegister,
        },
        MetadataErrorCode::StaleState => HeartbeatRefusalView {
            error: must_register(WorkerErrorKind::RunMismatch, error.text),
            mark: HeartbeatMark::RunMismatch,
        },
        MetadataErrorCode::InvalidArgument => HeartbeatRefusalView {
            error: must_register(WorkerErrorKind::DescriptorMismatch, error.text),
            mark: HeartbeatMark::Nothing,
        },
        _ => HeartbeatRefusalView { error: rpc_error_of(error), mark: HeartbeatMark::Nothing },
    }
}

/// Creates what a worker is told where recording its heartbeat failed.
pub fn refuse_recorded_heartbeat(error: &MetadataError) -> (r: HeartbeatRefusal)
    ensures
        r@ == heartbeat_record_refusal(error@),
{
    let message = error.message();
    match error.code() {
        MetadataErrorCode::NotFound => HeartbeatRefusal {
            error: need_register_error(message),
            mark: HeartbeatMark::NeedRegister,
        },
        MetadataErrorCode::StaleState => HeartbeatRefusal {
            error: worker_run_mismatch_error(message),
            mark: HeartbeatMark::RunMismatch,
        },
        MetadataErrorCode::InvalidArgument => HeartbeatRefusal {
            error: worker_descriptor_mismatch_error(message),
            mark: HeartbeatMark::Nothing,
        },
        _ => HeartbeatRefusal { error: to_rpc_error(error), mark: HeartbeatMark::Nothing },
    }
}

/// The wire form of the blocks that a worker is to remove.
pub open spec fn names_blocks(
    commands: Seq<BlockCleanupCommandProto>,
    blocks: Seq<BlockId>,
) -> bool {
    &&& commands.len() == blocks.len()
    &&& forall|i: int|
        0 <= i < blocks.len() ==> (#[trigger] commands[i]).block_id == Some(
            block_id_encode(blocks[i]),
        )
}

impl MetadataWorkerServiceImpl {
    /// Decides whether a heartbeat is well formed.
    pub fn admit_heartbeat(&self, req: &HeartbeatRequestProto, host: HostKind) -> (r: Result<
        WorkerHeartbeat,
        RpcErrorDetail,
    >)
        ensures
            match heartbeat_error(self.served_group_name@, *req, host) {
                Some(e) => r is Err && (r->Err_0)@ == e,
                None => r is Ok && tells_heartbeat(
                    self.served_group_name@,
                    *req,
                    host,
                    r->Ok_0,
                ),
            },
    {
        match extract_and_inject_context(&req.header) {
            Ok(_) => {},
            Err(e) => return Err(e),
        }
        let identity = match identify_worker(
            &self.served_group_name,
            WorkerOperation::Heartbeat,
            &req.header,
            req.worker_id,
            &req.worker_run_id,
        ) {
            Ok(identity) => identity,
            Err(e) => return Err(e),
        };
        let tier_free = match &req.capacity {
            None => return Err(invalid_request_error("Missing capacity".to_owned())),
            Some(capacity) => match parse_tier_free(&capacity.tier_free) {
                Ok(tier_free) => tier_free,
                Err(e) => return Err(invalid_request_error(e)),
            },
        };
        if req.load.is_none() {
            return Err(invalid_request_error("Missing load".to_owned()));
        }
        let address = match require_address(&req.advertised_endpoint, host) {
            Ok(address) => address,
            Err(e) => return Err(e),
        };
        Ok(WorkerHeartbeat { identity, heartbeat_seq: req.heartbeat_seq, address, tier_free })
    }

    /// Decides whether a heartbeat fits what is registered.
    pub fn check_heartbeat(
        &self,
        heartbeat: &WorkerHeartbeat,
        descriptor: &Option<WorkerDescriptor>,
        registered_run: Option<WorkerRunId>,
    ) -> (r: Result<(), HeartbeatRefusal>)
        ensures
            match heartbeat_misfit(*heartbeat, *descriptor, registered_run) {
                Some(refusal) => r is Err && (r->Err_0)@ == refusal,
                None => r is Ok,
            },
    {
        let identity = &heartbeat.identity;
        let descriptor = match descriptor {
            Some(descriptor) => descriptor,
            None => return Err(
                HeartbeatRefusal {
                    error: need_register_error(
                        about_worker_message("worker descriptor not found", identity),
                    ),
                    mark: HeartbeatMark::NeedRegister,
                },
            ),
        };
        let run = match registered_run {
            Some(run) => run,
            None => return Err(
                HeartbeatRefusal {
                    error: need_register_error(
                        about_worker_message("live worker registration not found", identity),
                    ),
                    mark: HeartbeatMark::NeedRegister,
                },
            ),
        };
        if !run.matches(identity.worker_run_id) {
            return Err(
                HeartbeatRefusal {
                    error: worker_run_mismatch_error(
                        about_worker_message("worker_run_id mismatch", identity),
                    ),
                    mark: HeartbeatMark::RunMismatch,
                },
            );
        }
        if !same_text(descriptor.address.as_str(), heartbeat.address.as_str())
            || descriptor.worker_net_protocol != WORKER_NET_PROTOCOL_GRPC {
            return Err(
                HeartbeatRefusal {
                    error: worker_descriptor_mismatch_error(
                        about_worker_message(
                            "advertised endpoint or protocol does not match registration",
                            identity,
                        ),
                    ),
                    mark: HeartbeatMark::Nothing,
                },
            );
        }
        Ok(())
    }

    /// Returns the answer to an accepted heartbeat. `cleanup` names the blocks that the
    /// worker is to remove.
    pub fn heartbeat_response(
        &self,
        req_header: &Option<RequestHeaderProto>,
        identity: &WorkerIdentity,
        cleanup: &Vec<BlockId>,
        leader_state: Option<RaftLogId>,
    ) -> (r: HeartbeatResponseProto)
        ensures
            r.header is Some,
            (r.header->0)@ == worker_response_header(
                optional_request_view(*req_header),
                Some(identity@.group_name),
                leader_state,
                None,
            ),
            r.worker_id == identity.worker_id.0,
            r.accepted_worker_run_id@ == hyphenated_text(identity.worker_run_id.0),
            r.liveness_timeout_ms == self.liveness_timeout_ms,
            names_blocks(r.cleanup_commands@, cleanup@),
    {
        let mut cleanup_commands: Vec<BlockCleanupCommandProto> = Vec::new();
        let mut i: usize = 0;
        while i < cleanup.len()
            invariant
                i <= cleanup@.len(),
                cleanup_commands@.len() == i,
                forall|k: int|
                    0 <= k < i ==> (#[trigger] cleanup_commands@[k]).block_id == Some(
                        block_id_encode(cleanup@[k]),
                    ),
            decreases cleanup.len() - i,
        {
            cleanup_commands.push(
                BlockCleanupCommandProto { block_id: Some(BlockIdProto::from(cleanup[i])) },
            );
            i += 1;
        }
        let group_name = Some(identity.group_name.clone());
        HeartbeatResponseProto {
            header: Some(
                create_response_header_from_request(req_header, &group_name, leader_state),
            ),
            worker_id: identity.worker_id.0,
            accepted_worker_run_id: identity.worker_run_id.to_text(),
            liveness_timeout_ms: self.liveness_timeout_ms,
            cleanup_commands,
        }
    }
}

// ---- block reports ----

/// Why a block report is not well formed, if it is not: the first reason before its batch
/// is looked at.
pub open spec fn block_report_error(served: Seq<char>, req: BlockReportRequestProto) -> Option<
    RpcErrorDetailView,
> {
    let header = optional_request_view(req.header);
    let identity = worker_identity(
        served,
        WorkerOperation::BlockReport,
        header,
        req.worker_id,
        req.worker_run_id@,
    );
    if request_context_decode(header) is Err {
        Some(request_context_decode(header)->Err_0)
    } else if identity is Err {
        Some(identity->Err_0)
    } else if req.baseline_seq == 0 {
        Some(invalid_request("block report baseline_seq must be non-zero"@))
    } else if req.batch is None {
        Some(invalid_request("block report batch is required"@))
    } else {
        None
    }
}

/// What a worker is told where its report could not be applied.
pub open spec fn report_refusal(error: MetadataErrorView) -> RpcErrorDetailView {
    match error.code {
        MetadataErrorCode::NotFound => must_register(WorkerErrorKind::NotRegistered, error.text),
        MetadataErrorCode::StaleState => must_register(WorkerErrorKind::RunMismatch, error.text),
        MetadataErrorCode::FullReportRequired => must_report(error.text),
        _ => rpc_error_of(error),
    }
}

/// Creates what a worker is told where its report could not be applied.
pub fn refuse_report(error: &MetadataError) -> (r: RpcErrorDetail)
    ensures
        r@ == report_refusal(error@),
{
    let message = error.message();
    match error.code() {
        MetadataErrorCode::NotFound => need_register_error(message),
        MetadataErrorCode::StaleState => worker_run_mismatch_error(message),
        MetadataErrorCode::FullReportRequired => full_report_required_error(message),
        _ => to_rpc_error(error),
    }
}

/// A batch whose entries are valid.
#[derive(Debug)]
pub enum ReportBatch {
    Full { batch_seq: u64, final_batch: bool, blocks: Vec<BlockReportBlock> },
    Delta { batch_seq: u64, changes: Vec<BlockReportChange> },
}

/// A block report that may be applied.
#[derive(Debug)]
pub struct BlockReport {
    pub identity: WorkerIdentity,
    pub baseline_seq: u64,
    pub batch: ReportBatch,
}

/// Why a batch is not valid, if it is not.
pub open spec fn batch_error(batch: Batch) -> Option<MetadataErrorView> {
    match batch {
        Batch::FullReport(full) => full_batch_error(full.blocks@),
        Batch::DeltaReport(delta) => delta_batch_error(delta.entries@),
    }
}

/// Whether the identities that are looked at in a batch name blocks.
pub open spec fn batch_reaches_valid_ids(batch: Batch) -> bool {
    match batch {
        Batch::FullReport(full) => full.blocks@.len() <= MAX_REPORT_ENTRIES ==> reaches_valid_ids(
            full.blocks@,
        ),
        Batch::DeltaReport(delta) => delta.entries@.len() <= MAX_REPORT_ENTRIES
            ==> reaches_valid_entry_ids(delta.entries@),
    }
}

/// Whether the batch to apply says what the batch of the request tells.
pub open spec fn tells_batch(batch: Batch, told: ReportBatch) -> bool {
    match (batch, told) {
        (Batch::FullReport(full), ReportBatch::Full { batch_seq, final_batch, blocks }) => {
            &&& batch_seq == full.batch_seq
            &&& final_batch == full.final_batch
            &&& tells_blocks(full.blocks@, blocks@)
        },
        (Batch::DeltaReport(delta), ReportBatch::Delta { batch_seq, changes }) => {
            &&& batch_seq == delta.batch_seq
            &&& tells_changes(delta.entries@, changes@)
        },
        _ => false,
    }
}

/// Why a block report is refused before it is applied, if it is.
pub open spec fn report_error(served: Seq<char>, req: BlockReportRequestProto) -> Option<
    RpcErrorDetailView,
> {
    if block_report_error(served, req) is Some {
        block_report_error(served, req)
    } else {
        match batch_error(req.batch->0) {
            Some(e) => Some(rpc_error_of(e)),
            None => None,
        }
    }
}

/// What applying a block report gave.
#[derive(Clone, Copy, Debug, PartialEq, Eq, Structural)]
pub struct ReportProgress {
    pub next_batch_seq: u64,
    /// Whether the baseline of a full report is complete.
    pub baseline_published: bool,
}

/// The kind of a batch.
pub open spec fn batch_kind(batch: ReportBatch) -> BlockReportKindProto {
    match batch {
        ReportBatch::Full { .. } => BlockReportKindProto::BlockReportKindFull,
        ReportBatch::Delta { .. } => BlockReportKindProto::BlockReportKindDelta,
    }
}

impl MetadataWorkerServiceImpl {
    fn identify_report(&self, req: &BlockReportRequestProto) -> (r: Result<
        WorkerIdentity,
        RpcErrorDetail,
    >)
        ensures
            match block_report_error(self.served_group_name@, *req) {
                Some(e) => r is Err && (r->Err_0)@ == e,
                None => r is Ok && worker_identity(
                    self.served_group_name@,
                    WorkerOperation::BlockReport,
                    optional_request_view(req.header),
                    req.worker_id,
                    req.worker_run_id@,
                ) == Ok::<WorkerIdentityView, RpcErrorDetailView>((r->Ok_0)@),
            },
    {
        match extract_and_inject_context(&req.header) {
            Ok(_) => {},
            Err(e) => return Err(e),
        }
        let identity = match identify_worker(
            &self.served_group_name,
            WorkerOperation::BlockReport,
            &req.header,
            req.worker_id,
            &req.worker_run_id,
        ) {
            Ok(identity) => identity,
            Err(e) => return Err(e),
        };
        if req.baseline_seq == 0 {
            return Err(
                invalid_request_error("block report baseline_seq must be non-zero".to_owned()),
            );
        }
        if req.batch.is_none() {
            return Err(invalid_request_error("block report batch is required".to_owned()));
        }
        Ok(identity)
    }

    /// Returns whether a block report may be handed to `admit_block_report`: where its batch
    /// is looked at, the identities of the blocks name blocks.
    pub fn reaches_valid_blocks(&self, req: &BlockReportRequestProto) -> (r: bool)
        ensures
            r == (block_report_error(self.served_group_name@, *req) is None
                ==> batch_reaches_valid_ids(req.batch->0)),
    {
        if self.identify_report(req).is_err() {
            return true;
        }
        match &req.batch {
            None => true,
            Some(Batch::FullReport(full)) => full.blocks.len() > MAX_REPORT_ENTRIES
                || full_batch_reaches_valid_ids(&full.blocks),
            Some(Batch::DeltaReport(delta)) => delta.entries.len() > MAX_REPORT_ENTRIES
                || delta_batch_reaches_valid_ids(&delta.entries),
        }
    }

    /// Decides whether a block report may be applied, and returns what is to be applied.
    pub fn admit_block_report(&self, req: &BlockReportRequestProto) -> (r: Result<
        BlockReport,
        RpcErrorDetail,
    >)
        requires
            block_report_error(self.served_group_name@, *req) is None ==> batch_reaches_valid_ids(
                req.batch->0,
            ),
        ensures
            match report_error(self.served_group_name@, *req) {
                Some(e) => r is Err && (r->Err_0)@ == e,
                None => {
                    &&& r is Ok
                    &&& worker_identity(
                        self.served_group_name@,
                        WorkerOperation::BlockReport,
                        optional_request_view(req.header),
                        req.worker_id,
                        req.worker_run_id@,
                    ) == Ok::<WorkerIdentityView, RpcErrorDetailView>((r->Ok_0).identity@)
                    &&& (r->Ok_0).baseline_seq == req.baseline_seq
                    &&& tells_batch(req.batch->0, (r->Ok_0).batch)
                },
            },
    {
        let identity = match self.identify_report(req) {
            Ok(identity) => identity,
            Err(e) => return Err(e),
        };
        let batch = match &req.batch {
            None => return Err(invalid_request_error("block report batch is required".to_owned())),
            Some(Batch::FullReport(full)) => match decode_full_batch(&full.blocks) {
                Ok(blocks) => ReportBatch::Full {
                    batch_seq: full.batch_seq,
                    final_batch: full.final_batch,
                    blocks,
                },
                Err(e) => return Err(to_rpc_error(&e)),
            },
            Some(Batch::DeltaReport(delta)) => match decode_delta_batch(&delta.entries) {
                Ok(changes) => ReportBatch::Delta { batch_seq: delta.batch_seq, changes },
                Err(e) => return Err(to_rpc_error(&e)),
            },
        };
        Ok(BlockReport { identity, baseline_seq: req.baseline_seq, batch })
    }

    /// Returns the answer to a report that was handed to the worker tables. A delta report
    /// is always on top of a published baseline.
    pub fn block_report_response(
        &self,
        req_header: &Option<RequestHeaderProto>,
        report: &BlockReport,
        applied: Result<ReportProgress, MetadataError>,
        leader_state: Option<RaftLogId>,
    ) -> (r: BlockReportResponseProto)
        ensures
            r.header is Some,
            match applied {
                Ok(progress) => {
                    &&& (r.header->0)@ == worker_response_header(
                        optional_request_view(*req_header),
                        Some(report.identity@.group_name),
                        leader_state,
                        None,
                    )
                    &&& r.report_kind == batch_kind(report.batch)
                    &&& r.baseline_seq == report.baseline_seq
                    &&& r.next_batch_seq == progress.next_batch_seq
                    &&& r.baseline_published == (report.batch is Delta
                        || progress.baseline_published)
                },
                Err(e) => {
                    &&& (r.header->0)@ == worker_response_header(
                        optional_request_view(*req_header),
                        header_group(optional_request_view(*req_header)),
                        leader_state,
                        Some(report_refusal(e@)),
                    )
                    &&& r.report_kind == BlockReportKindProto::BlockReportKindUnspecified
                    &&& r.baseline_seq == 0
                    &&& r.next_batch_seq == 0
                    &&& !r.baseline_published
                },
            },
    {
        let progress = match applied {
            Ok(progress) => progress,
            Err(e) => {
                let error = refuse_report(&e);
                return block_report_response_with_header(
                    error_response_header_from_request(req_header, &error, leader_state),
                );
            },
        };
        let group_name = Some(report.identity.group_name.clone());
        let (report_kind, is_delta) = match &report.batch {
            ReportBatch::Full { .. } => (BlockReportKindProto::BlockReportKindFull, false),
            ReportBatch::Delta { .. } => (BlockReportKindProto::BlockReportKindDelta, true),
        };
        BlockReportResponseProto {
            header: Some(
                create_response_header_from_request(req_header, &group_name, leader_state),
            ),
            report_kind,
            baseline_seq: report.baseline_seq,
            next_batch_seq: progress.next_batch_seq,
            baseline_published: is_delta || progress.baseline_published,
        }
    }
}

// ---- metric labels ----

/// The label of a gRPC status code.
pub open spec fn status_label(code: i32) -> Seq<char> {
    if code == 0 {
        "none"@
    } else if code == 1 {
        "cancelled"@
    } else if code == 3 {
        "invalid_argument"@
    } else if code == 4 {
        "timeout"@
    } else if code == 5 {
        "not_found"@
    } else if code == 7 {
        "permission_denied"@
    } else if code == 8 {
        "resource_exhausted"@
    } else if code == 9 {
        "failed_precondition"@
    } else if code == 12 {
        "unimplemented"@
    } else if code == 13 {
        "internal"@
    } else if code == 14 {
        "unavailable"@
    } else {
        "rpc_status"@
    }
}

/// Returns the label of a gRPC status code.
pub fn tonic_status_error_kind(code: i32) -> (r: &'static str)
    ensures
        r@ == status_label(code),
{
    match code {
        0 => "none",
        1 => "cancelled",
        3 => "invalid_argument",
        4 => "timeout",
        5 => "not_found",
        7 => "permission_denied",
        8 => "resource_exhausted",
        9 => "failed_precondition",
        12 => "unimplemented",
        13 => "internal",
        14 => "unavailable",
        _ => "rpc_status",
    }
}

/// Returns the status and the error label of an RPC for metrics. `outcome` is the label of
/// the error that the answer tells, if it tells one, or the gRPC code of a call that failed.
pub fn metadata_worker_outcome_labels<'a>(outcome: Result<Option<&'a str>, i32>) -> (r: (
    &'static str,
    &'a str,
))
    ensures
        match outcome {
            Ok(None) => r.0@ == "ok"@ && r.1@ == "none"@,
            Ok(Some(label)) => r.0@ == "error"@ && r.1@ == label@,
            Err(code) => r.0@ == "error"@ && r.1@ == status_label(code),
        },
{
    match outcome {
        Ok(None) => ("ok", "none"),
        Ok(Some(label)) => ("error", label),
        Err(code) => ("error", tonic_status_error_kind(code)),
    }
}

// ---- laws ----

/// Every refusal that asks a worker to register names one of the three reasons for it, and
/// a heartbeat of another process start is always refused.
pub proof fn another_run_is_never_accepted(
    heartbeat: WorkerHeartbeat,
    descriptor: Option<WorkerDescriptor>,
    registered_run: Option<WorkerRunId>,
)
    requires
        registered_run != Some(heartbeat.identity@.worker_run_id),
    ensures
        ({
            let misfit = heartbeat_misfit(heartbeat, descriptor, registered_run);
            &&& misfit is Some
            &&& (misfit->0).error.recovery is RegisterWorker
        }),
{
}

/// Only the leader admits a registration, and only for the group that it serves.
pub proof fn registrations_go_to_the_leader(
    served: Seq<char>,
    req: RegisterWorkerRequestProto,
    is_leader: bool,
    host: HostKind,
)
    requires
        registration_admitted(served, req, is_leader, host) is Ok,
    ensures
        is_leader,
        (registration_admitted(served, req, is_leader, host)->Ok_0).identity.group_name == served,
        (registration_admitted(served, req, is_leader, host)->Ok_0).identity.worker_id.0 != 0,
        (registration_admitted(served, req, is_leader, host)->Ok_0).identity.worker_run_id.0 != 0,
{
}

/// The run that a request makes live, or why it makes none live.
pub open spec fn run_of_request(
    served: Seq<char>,
    req: RegisterWorkerRequestProto,
    is_leader: bool,
    host: HostKind,
    preflight: Result<(), MetadataErrorView>,
    reply: RaftReply,
) -> Result<WorkerRegistrationView, RpcErrorDetailView> {
    match registration_admitted(served, req, is_leader, host) {
        Err(e) => Err(e),
        Ok(admitted) => match registration_proposed(admitted, preflight) {
            Err(e) => Err(e),
            Ok(proposed) => run_confirmed(proposed, reply),
        },
    }
}

/// A run is made live only once proposing its registration returned the worker that asked,
/// and such a proposal makes live the run that was asked for. The worker is told that it is
/// registered if and only if its run was made live, with its own number and the run that it
/// named. Every other request is answered with an error, and makes nothing live: one to a
/// node that does not lead, one that is not valid, and one whose proposal ended otherwise.
pub proof fn a_run_is_live_only_after_its_proposal(
    served: Seq<char>,
    req: RegisterWorkerRequestProto,
    is_leader: bool,
    host: HostKind,
    preflight: Result<(), MetadataErrorView>,
    reply: RaftReply,
    published: Result<(), MetadataErrorView>,
    leader_state: Option<RaftLogId>,
)
    ensures
        ({
            let run = run_of_request(served, req, is_leader, host, preflight, reply);
            let outcome = match run {
                Ok(registration) => run_published(registration, published),
                Err(e) => Err(e),
            };
            let answer = registration_answered(
                optional_request_view(req.header),
                outcome,
                leader_state,
            );
            let named = worker_run_id_required(
                req.worker_run_id@,
                WorkerOperation::Register.run_field(),
            );
            &&& run is Ok <==> registration_admitted(served, req, is_leader, host) is Ok
                && preflight is Ok && reply == Ok::<ApplySuccess, MetadataError>(
                ApplySuccess::WorkerUpserted(WorkerId(req.worker_id)),
            )
            &&& run is Ok ==> {
                let live = run->Ok_0;
                &&& is_leader
                &&& live.identity.group_name == served
                &&& live.identity.worker_id.0 == req.worker_id
                &&& named == Ok::<WorkerRunId, Seq<char>>(live.identity.worker_run_id)
                &&& required_address(req.advertised_endpoint, host) == Ok::<
                    Seq<char>,
                    RpcErrorDetailView,
                >(live.address)
            }
            &&& answer.header.error is None <==> run is Ok && published is Ok
            &&& answer.header.error is None ==> {
                &&& answer.worker_id == req.worker_id
                &&& answer.accepted_worker_run_id == hyphenated_text((named->Ok_0).0)
            }
            &&& answer.header.error is Some ==> {
                &&& answer.worker_id == 0
                &&& answer.accepted_worker_run_id.len() == 0
            }
        }),
{
}

/// An address that is advertised is never the wildcard, and always has a port.
pub proof fn advertised_addresses_can_be_reached(endpoint: EndpointProto, host: HostKind)
    requires
        advertised_address(endpoint, host) is Ok,
    ensures
        0 < endpoint.port <= 65535,
        !(host matches HostKind::Address { is_unspecified: true, .. }),
{
}

} // verus!
