//! Conversions of request and response headers, and of RPC errors.

use vstd::prelude::*;

use crate::header::{
    optional_group, CallerContext, ClientInfo, ClientInfoView, Deadline, RequestHeader,
    RequestHeaderView, ResponseHeader, ResponseHeaderView, TraceContext, TraceContextView,
};
use crate::ids::{group_name_parse_is_idempotent, group_name_parse_optional, GroupName};
use crate::outside_uuid::hyphenated_text;
use crate::proto::convert::{
    call_id_required, client_id_encode, client_id_required, client_id_round_trip,
    decode_watermarks, encode_watermarks, lemma_hyphenated_len, require_call_id,
    required_client_id, watermarks_decode, watermarks_encode,
};
use crate::proto::error_kind::{
    error_kind_decode, error_kind_encode, error_kind_proto_to_kind, error_kind_round_trip,
    error_kind_to_proto,
};
use crate::proto::message::{
    endpoint_proto_views, optional_action_view, optional_hint_view, optional_trace_view, Action,
    ActionView, CallerContextProto, ClientIdProto, ClientInfoProto, ClientInfoProtoView,
    ErrorDetailProto, ErrorDetailProtoView, RecoveryActionProto, RefreshHintProto,
    RefreshHintProtoView, RefreshMetadataRecoveryProto, ReopenWriteSessionRecoveryProto,
    RequestHeaderProto, RequestHeaderProtoView, ResponseHeaderProto, ResponseHeaderProtoView,
    RetryRecoveryProto, TraceContextProto, TraceContextProtoView, WorkerEndpointInfoProto,
    WorkerEndpointInfoProtoView,
};
use crate::rpc_error::{
    copy_optional_text, endpoint_hint_views, optional_text, ErrorKind, ProtocolErrorKind,
    RecoveryAction, RecoveryActionView, RefreshHint, RefreshHintView, RpcErrorDetail,
    RpcErrorDetailView, WorkerEndpointHint, WorkerEndpointHintView,
};
use crate::text::join;

verus! {

// ---- client and trace ----

/// The caller that a message names. An empty name means none.
pub open spec fn client_info_decode(proto: ClientInfoProtoView) -> Result<
    ClientInfoView,
    Seq<char>,
> {
    match call_id_required(proto.call_id, "call_id"@) {
        Err(e) => Err(e),
        Ok(call_id) => match client_id_required(proto.client_id, "client_id"@) {
            Err(e) => Err(e),
            Ok(client_id) => Ok(
                ClientInfoView {
                    call_id,
                    client_id,
                    client_name: if proto.client_name.len() == 0 {
                        None
                    } else {
                        Some(proto.client_name)
                    },
                },
            ),
        },
    }
}

/// The wire form of a caller.
pub open spec fn client_info_encode(info: ClientInfoView) -> ClientInfoProtoView {
    ClientInfoProtoView {
        call_id: hyphenated_text(info.call_id.0),
        client_id: Some(client_id_encode(info.client_id)),
        client_name: match info.client_name {
            Some(name) => name,
            None => Seq::empty(),
        },
    }
}

/// Whether a caller can be told on the wire.
pub open spec fn client_info_ok(info: ClientInfoView) -> bool {
    &&& info.call_id.0 != 0
    &&& info.client_id.0 != 0
    &&& info.client_name is Some ==> (info.client_name->0).len() > 0
}

/// Decodes a caller.
pub fn decode_client_info(proto: &ClientInfoProto) -> (r: Result<ClientInfo, String>)
    ensures
        match r {
            Ok(v) => client_info_decode(proto@) == Ok::<ClientInfoView, Seq<char>>(v@),
            Err(e) => client_info_decode(proto@) == Err::<ClientInfoView, Seq<char>>(e@),
        },
{
    let call_id = match require_call_id(proto.call_id.as_str(), "call_id") {
        Ok(call_id) => call_id,
        Err(e) => return Err(e),
    };
    let client_id = match required_client_id(proto.client_id, "client_id") {
        Ok(client_id) => client_id,
        Err(e) => return Err(e),
    };
    let client_name = if proto.client_name.as_str().is_empty() {
        None
    } else {
        Some(proto.client_name.clone())
    };
    Ok(ClientInfo { call_id, client_id, client_name })
}

impl vstd::std_specs::convert::TryFromSpecImpl<ClientInfoProto> for ClientInfo {
    open spec fn obeys_try_from_spec() -> bool {
        false
    }

    open spec fn try_from_spec(proto: ClientInfoProto) -> Result<Self, String> {
        arbitrary()
    }
}

impl TryFrom<ClientInfoProto> for ClientInfo {
    type Error = String;

    fn try_from(proto: ClientInfoProto) -> (r: Result<Self, String>)
        ensures
            match r {
                Ok(v) => client_info_decode(proto@) == Ok::<ClientInfoView, Seq<char>>(v@),
                Err(e) => client_info_decode(proto@) == Err::<ClientInfoView, Seq<char>>(e@),
            },
    {
        decode_client_info(&proto)
    }
}

impl<'a> vstd::std_specs::convert::FromSpecImpl<&'a ClientInfo> for ClientInfoProto {
    open spec fn obeys_from_spec() -> bool {
        false
    }

    open spec fn from_spec(info: &'a ClientInfo) -> Self {
        arbitrary()
    }
}

impl<'a> From<&'a ClientInfo> for ClientInfoProto {
    /// A caller that can be told on the wire reads back as itself.
    fn from(info: &'a ClientInfo) -> (r: Self)
        ensures
            r@ == client_info_encode(info@),
            client_info_ok(info@) ==> client_info_decode(r@) == Ok::<ClientInfoView, Seq<char>>(
                info@,
            ),
    {
        let call_id = info.call_id.to_text();
        proof {
            lemma_hyphenated_len(info.call_id.0);
            if info.client_id.0 != 0 {
                client_id_round_trip(info.client_id);
            }
        }
        let client_name = match &info.client_name {
            Some(name) => name.clone(),
            None => String::new(),
        };
        ClientInfoProto {
            call_id,
            client_id: Some(ClientIdProto::from(info.client_id)),
            client_name,
        }
    }
}

/// A text that is present and not empty.
pub open spec fn non_empty(text: Option<Seq<char>>) -> Option<Seq<char>> {
    match text {
        Some(t) => if t.len() == 0 {
            None
        } else {
            Some(t)
        },
        None => None,
    }
}

fn keep_non_empty(text: &Option<String>) -> (r: Option<String>)
    ensures
        optional_text(r) == non_empty(optional_text(*text)),
{
    match text {
        Some(t) => if t.as_str().is_empty() {
            None
        } else {
            Some(t.clone())
        },
        None => None,
    }
}

/// The trace context of a message. Empty fields are absent.
pub open spec fn trace_context_decode(proto: TraceContextProtoView) -> TraceContextView {
    TraceContextView {
        traceparent: non_empty(proto.traceparent),
        tracestate: non_empty(proto.tracestate),
        baggage: non_empty(proto.baggage),
    }
}

/// The trace context of an optional message.
pub open spec fn optional_trace_decode(proto: Option<TraceContextProtoView>) -> TraceContextView {
    match proto {
        Some(p) => trace_context_decode(p),
        None => TraceContextView::none(),
    }
}

/// The wire form of a trace context. One without fields is absent.
pub open spec fn trace_context_encode(context: TraceContextView) -> Option<TraceContextProtoView> {
    if context == TraceContextView::none() {
        None
    } else {
        Some(
            TraceContextProtoView {
                traceparent: context.traceparent,
                tracestate: context.tracestate,
                baggage: context.baggage,
            },
        )
    }
}

/// A trace context whose present fields are not empty survives the wire.
pub proof fn trace_context_round_trip(context: TraceContextView)
    requires
        context.traceparent == non_empty(context.traceparent),
        context.tracestate == non_empty(context.tracestate),
        context.baggage == non_empty(context.baggage),
    ensures
        optional_trace_decode(trace_context_encode(context)) == context,
{
}

fn optional_trace_context(proto: &Option<TraceContextProto>) -> (r: TraceContext)
    ensures
        r@ == optional_trace_decode(optional_trace_view(*proto)),
{
    match proto {
        Some(p) => TraceContext {
            traceparent: keep_non_empty(&p.traceparent),
            tracestate: keep_non_empty(&p.tracestate),
            baggage: keep_non_empty(&p.baggage),
        },
        None => TraceContext::default(),
    }
}

fn proto_trace_context(context: &TraceContext) -> (r: Option<TraceContextProto>)
    ensures
        optional_trace_view(r) == trace_context_encode(context@),
{
    if context.traceparent.is_none() && context.tracestate.is_none() && context.baggage.is_none() {
        None
    } else {
        Some(
            TraceContextProto {
                traceparent: copy_optional_text(&context.traceparent),
                tracestate: copy_optional_text(&context.tracestate),
                baggage: copy_optional_text(&context.baggage),
            },
        )
    }
}

// ---- request header ----

/// The request header that a message names: the first field that is wrong decides the
/// error.
pub open spec fn request_header_decode(proto: RequestHeaderProtoView) -> Result<
    RequestHeaderView,
    Seq<char>,
> {
    match proto.client {
        None => Err("missing client"@),
        Some(client) => match client_info_decode(client) {
            Err(e) => Err(e),
            Ok(client) => match watermarks_decode(proto.state) {
                Err(e) => Err(e),
                Ok(state) => match group_name_parse_optional(proto.group_name) {
                    Err(e) => Err("invalid header group_name: "@ + e.text()),
                    Ok(group_name) => Ok(
                        RequestHeaderView {
                            client,
                            trace_context: optional_trace_decode(proto.trace_context),
                            group_name,
                            mount_epoch: proto.mount_epoch,
                            state,
                            route_epoch: proto.route_epoch,
                            deadline: Deadline(proto.deadline_ms),
                            caller_context: proto.caller_context,
                        },
                    ),
                },
            },
        },
    }
}

/// The wire form of an optional group name.
pub open spec fn group_text(group: Option<Seq<char>>) -> Seq<char> {
    match group {
        Some(g) => g,
        None => Seq::empty(),
    }
}

/// The wire form of a request header.
pub open spec fn request_header_encode(header: RequestHeaderView) -> RequestHeaderProtoView {
    RequestHeaderProtoView {
        client: Some(client_info_encode(header.client)),
        trace_context: trace_context_encode(header.trace_context),
        group_name: group_text(header.group_name),
        mount_epoch: header.mount_epoch,
        state: watermarks_encode(header.state),
        route_epoch: header.route_epoch,
        deadline_ms: header.deadline.0,
        caller_context: header.caller_context,
    }
}

/// Whether a request header can be told on the wire.
pub open spec fn request_header_ok(header: RequestHeaderView) -> bool {
    &&& client_info_ok(header.client)
    &&& header.trace_context.traceparent == non_empty(header.trace_context.traceparent)
    &&& header.trace_context.tracestate == non_empty(header.trace_context.tracestate)
    &&& header.trace_context.baggage == non_empty(header.trace_context.baggage)
}

/// Decodes a request header.
pub fn decode_request_header(proto: &RequestHeaderProto) -> (r: Result<RequestHeader, String>)
    ensures
        match r {
            Ok(v) => request_header_decode(proto@) == Ok::<RequestHeaderView, Seq<char>>(v@),
            Err(e) => request_header_decode(proto@) == Err::<RequestHeaderView, Seq<char>>(e@),
        },
{
    let client = match &proto.client {
        None => return Err("missing client".to_owned()),
        Some(client) => match decode_client_info(client) {
            Ok(client) => client,
            Err(e) => return Err(e),
        },
    };
    let deadline = Deadline::from_unix_ms(proto.deadline_ms);
    let trace_context = optional_trace_context(&proto.trace_context);
    let caller_context = match &proto.caller_context {
        Some(c) => Some(CallerContext { context: c.context.clone() }),
        None => None,
    };
    let state = match decode_watermarks(&proto.state) {
        Ok(state) => state,
        Err(e) => return Err(e),
    };
    let group_name = match GroupName::parse_optional(proto.group_name.as_str()) {
        Ok(group_name) => group_name,
        Err(e) => {
            let text = e.message();
            return Err(join("invalid header group_name: ", text.as_str()));
        },
    };
    Ok(
        RequestHeader {
            client,
            trace_context,
            group_name,
            mount_epoch: proto.mount_epoch,
            state,
            route_epoch: proto.route_epoch,
            deadline,
            caller_context,
        },
    )
}

impl vstd::std_specs::convert::TryFromSpecImpl<RequestHeaderProto> for RequestHeader {
    open spec fn obeys_try_from_spec() -> bool {
        false
    }

    open spec fn try_from_spec(proto: RequestHeaderProto) -> Result<Self, String> {
        arbitrary()
    }
}

impl TryFrom<RequestHeaderProto> for RequestHeader {
    type Error = String;

    fn try_from(proto: RequestHeaderProto) -> (r: Result<Self, String>)
        ensures
            match r {
                Ok(v) => request_header_decode(proto@) == Ok::<RequestHeaderView, Seq<char>>(v@),
                Err(e) => request_header_decode(proto@) == Err::<RequestHeaderView, Seq<char>>(
                    e@,
                ),
            },
    {
        decode_request_header(&proto)
    }
}

/// Returns the wire form of an optional group name, which reads back as itself.
pub fn optional_group_text(group: &Option<GroupName>) -> (r: String)
    ensures
        r@ == group_text(optional_group(*group)),
        group_name_parse_optional(r@) == Ok::<Option<Seq<char>>, crate::ids::GroupNameError>(
            optional_group(*group),
        ),
{
    match group {
        Some(g) => {
            let text = g.to_text();
            proof {
                group_name_parse_is_idempotent(text@);
            }
            text
        },
        None => String::new(),
    }
}

impl<'a> vstd::std_specs::convert::FromSpecImpl<&'a RequestHeader> for RequestHeaderProto {
    open spec fn obeys_from_spec() -> bool {
        false
    }

    open spec fn from_spec(header: &'a RequestHeader) -> Self {
        arbitrary()
    }
}

impl<'a> From<&'a RequestHeader> for RequestHeaderProto {
    /// A request header that can be told on the wire reads back as itself.
    fn from(header: &'a RequestHeader) -> (r: Self)
        ensures
            r@ == request_header_encode(header@),
            request_header_ok(header@) ==> request_header_decode(r@) == Ok::<
                RequestHeaderView,
                Seq<char>,
            >(header@),
    {
        let caller_context = match &header.caller_context {
            Some(c) => Some(CallerContextProto { context: c.context.clone() }),
            None => None,
        };
        RequestHeaderProto {
            client: Some(ClientInfoProto::from(&header.client)),
            trace_context: proto_trace_context(&header.trace_context),
            group_name: optional_group_text(&header.group_name),
            mount_epoch: header.mount_epoch,
            state: encode_watermarks(&header.state),
            route_epoch: header.route_epoch,
            deadline_ms: header.deadline.as_unix_ms(),
            caller_context,
        }
    }
}

// ---- RPC errors ----

/// The wire form of an endpoint hint. It names no process start.
pub open spec fn endpoint_hint_encode(hint: WorkerEndpointHintView) -> WorkerEndpointInfoProtoView {
    WorkerEndpointInfoProtoView {
        worker_id: hint.worker_id,
        endpoint: hint.endpoint,
        worker_run_id: Seq::empty(),
    }
}

/// The endpoint hint of a message. A process start that it names is dropped.
pub open spec fn endpoint_hint_decode(proto: WorkerEndpointInfoProtoView) -> WorkerEndpointHintView {
    WorkerEndpointHintView { worker_id: proto.worker_id, endpoint: proto.endpoint }
}

/// The refresh hint of a message. A missing one names nothing.
pub open spec fn refresh_hint_decode(hint: Option<RefreshHintProtoView>) -> RefreshHintView {
    match hint {
        None => RefreshHintView::none(),
        Some(h) => RefreshHintView {
            leader_endpoint: h.leader_endpoint,
            group_name: h.group_name,
            mount_epoch: h.mount_epoch,
            mount_prefix: h.mount_prefix,
            route_epoch: h.route_epoch,
            worker_endpoints: h.worker_endpoints.map_values(
                |e: WorkerEndpointInfoProtoView| endpoint_hint_decode(e),
            ),
            worker_resolve_required: h.worker_resolve_required,
        },
    }
}

/// The wire form of a refresh hint.
pub open spec fn refresh_hint_encode(hint: RefreshHintView) -> RefreshHintProtoView {
    RefreshHintProtoView {
        leader_endpoint: hint.leader_endpoint,
        group_name: hint.group_name,
        mount_epoch: hint.mount_epoch,
        mount_prefix: hint.mount_prefix,
        route_epoch: hint.route_epoch,
        worker_endpoints: hint.worker_endpoints.map_values(
            |e: WorkerEndpointHintView| endpoint_hint_encode(e),
        ),
        worker_resolve_required: hint.worker_resolve_required,
    }
}

/// Every refresh hint survives the wire.
pub proof fn refresh_hint_round_trip(hint: RefreshHintView)
    ensures
        refresh_hint_decode(Some(refresh_hint_encode(hint))) == hint,
{
    assert(refresh_hint_decode(Some(refresh_hint_encode(hint))).worker_endpoints
        =~= hint.worker_endpoints);
}

fn refresh_hint_proto_to_hint(hint: &Option<RefreshHintProto>) -> (r: RefreshHint)
    ensures
        r@ == refresh_hint_decode(optional_hint_view(*hint)),
{
    match hint {
        None => RefreshHint::default(),
        Some(h) => {
            let mut worker_endpoints: Vec<WorkerEndpointHint> = Vec::new();
            let mut i: usize = 0;
            while i < h.worker_endpoints.len()
                invariant
                    i <= h.worker_endpoints@.len(),
                    worker_endpoints@.len() == i,
                    forall|k: int|
                        0 <= k < i ==> #[trigger] worker_endpoints@[k]@ == endpoint_hint_decode(
                            h.worker_endpoints@[k]@,
                        ),
                decreases h.worker_endpoints.len() - i,
            {
                let endpoint = &h.worker_endpoints[i];
                worker_endpoints.push(
                    WorkerEndpointHint {
                        worker_id: endpoint.worker_id,
                        endpoint: endpoint.endpoint.clone(),
                    },
                );
                i += 1;
            }
            assert(endpoint_hint_views(worker_endpoints@) =~= endpoint_proto_views(
                h.worker_endpoints@,
            ).map_values(|e: WorkerEndpointInfoProtoView| endpoint_hint_decode(e)));
            RefreshHint {
                leader_endpoint: copy_optional_text(&h.leader_endpoint),
                group_name: copy_optional_text(&h.group_name),
                mount_epoch: h.mount_epoch,
                mount_prefix: copy_optional_text(&h.mount_prefix),
                route_epoch: h.route_epoch,
                worker_endpoints,
                worker_resolve_required: h.worker_resolve_required,
            }
        },
    }
}

fn refresh_hint_to_proto(hint: &RefreshHint) -> (r: RefreshHintProto)
    ensures
        r@ == refresh_hint_encode(hint@),
{
    let mut worker_endpoints: Vec<WorkerEndpointInfoProto> = Vec::new();
    let mut i: usize = 0;
    while i < hint.worker_endpoints.len()
        invariant
            i <= hint.worker_endpoints@.len(),
            worker_endpoints@.len() == i,
            forall|k: int|
                0 <= k < i ==> #[trigger] worker_endpoints@[k]@ == endpoint_hint_encode(
                    hint.worker_endpoints@[k]@,
                ),
        decreases hint.worker_endpoints.len() - i,
    {
        let endpoint = &hint.worker_endpoints[i];
        worker_endpoints.push(
            WorkerEndpointInfoProto {
                worker_id: endpoint.worker_id,
                endpoint: endpoint.endpoint.clone(),
                worker_run_id: String::new(),
            },
        );
        i += 1;
    }
    assert(endpoint_proto_views(worker_endpoints@) =~= endpoint_hint_views(
        hint.worker_endpoints@,
    ).map_values(|e: WorkerEndpointHintView| endpoint_hint_encode(e)));
    RefreshHintProto {
        leader_endpoint: copy_optional_text(&hint.leader_endpoint),
        group_name: copy_optional_text(&hint.group_name),
        mount_epoch: hint.mount_epoch,
        mount_prefix: copy_optional_text(&hint.mount_prefix),
        route_epoch: hint.route_epoch,
        worker_endpoints,
        worker_resolve_required: hint.worker_resolve_required,
    }
}

/// The recovery that a message asks for, if it asks for one.
pub open spec fn recovery_decode(action: Option<ActionView>) -> Option<RecoveryActionView> {
    match action {
        None => None,
        Some(ActionView::Fail) => Some(RecoveryActionView::Fail),
        Some(ActionView::Retry(after_ms)) => Some(RecoveryActionView::Retry { after_ms }),
        Some(ActionView::RefreshMetadata(hint)) => Some(
            RecoveryActionView::RefreshMetadata { hint: refresh_hint_decode(hint) },
        ),
        Some(ActionView::ReopenWriteSession(hint)) => Some(
            RecoveryActionView::ReopenWriteSession { hint: refresh_hint_decode(hint) },
        ),
        Some(ActionView::RegisterWorker) => Some(RecoveryActionView::RegisterWorker),
        Some(ActionView::SendFullBlockReport) => Some(RecoveryActionView::SendFullBlockReport),
    }
}

/// The wire form of a recovery.
pub open spec fn recovery_encode(action: RecoveryActionView) -> ActionView {
    match action {
        RecoveryActionView::Fail => ActionView::Fail,
        RecoveryActionView::Retry { after_ms } => ActionView::Retry(after_ms),
        RecoveryActionView::RefreshMetadata { hint } => ActionView::RefreshMetadata(
            Some(refresh_hint_encode(hint)),
        ),
        RecoveryActionView::ReopenWriteSession { hint } => ActionView::ReopenWriteSession(
            Some(refresh_hint_encode(hint)),
        ),
        RecoveryActionView::RegisterWorker => ActionView::RegisterWorker,
        RecoveryActionView::SendFullBlockReport => ActionView::SendFullBlockReport,
    }
}

fn recovery_proto_to_action(recovery: &Option<RecoveryActionProto>) -> (r: Option<RecoveryAction>)
    ensures
        (match r {
            Some(a) => Some(a@),
            None => None,
        }) == recovery_decode(optional_action_view(*recovery)),
{
    match recovery {
        None => None,
        Some(proto) => match &proto.action {
            None => None,
            Some(Action::Fail) => Some(RecoveryAction::Fail),
            Some(Action::Retry(retry)) => Some(RecoveryAction::Retry { after_ms: retry.after_ms }),
            Some(Action::RefreshMetadata(refresh)) => Some(
                RecoveryAction::RefreshMetadata { hint: refresh_hint_proto_to_hint(&refresh.hint) },
            ),
            Some(Action::ReopenWriteSession(reopen)) => Some(
                RecoveryAction::ReopenWriteSession {
                    hint: refresh_hint_proto_to_hint(&reopen.hint),
                },
            ),
            Some(Action::RegisterWorker) => Some(RecoveryAction::RegisterWorker),
            Some(Action::SendFullBlockReport) => Some(RecoveryAction::SendFullBlockReport),
        },
    }
}

fn recovery_action_to_proto(action: &RecoveryAction) -> (r: RecoveryActionProto)
    ensures
        optional_action_view(Some(r)) == Some(recovery_encode(action@)),
{
    let action = match action {
        RecoveryAction::Fail => Action::Fail,
        RecoveryAction::Retry { after_ms } => Action::Retry(
            RetryRecoveryProto { after_ms: *after_ms },
        ),
        RecoveryAction::RefreshMetadata { hint } => Action::RefreshMetadata(
            RefreshMetadataRecoveryProto { hint: Some(refresh_hint_to_proto(hint)) },
        ),
        RecoveryAction::ReopenWriteSession { hint } => Action::ReopenWriteSession(
            ReopenWriteSessionRecoveryProto { hint: Some(refresh_hint_to_proto(hint)) },
        ),
        RecoveryAction::RegisterWorker => Action::RegisterWorker,
        RecoveryAction::SendFullBlockReport => Action::SendFullBlockReport,
    };
    RecoveryActionProto { action: Some(action) }
}

/// The error that stands for a message without a known kind or recovery.
pub open spec fn malformed_error() -> RpcErrorDetailView {
    RpcErrorDetailView {
        kind: ErrorKind::Protocol(ProtocolErrorKind::InvalidHeader),
        recovery: RecoveryActionView::Fail,
        message: "malformed RPC error detail"@,
    }
}

/// The error that a message names. Where the kind or the recovery is missing or unknown,
/// nothing of what the message asks for is kept.
pub open spec fn rpc_error_decode(proto: ErrorDetailProtoView) -> RpcErrorDetailView {
    match (error_kind_decode(proto.kind), recovery_decode(proto.recovery)) {
        (Some(kind), Some(recovery)) => RpcErrorDetailView {
            kind,
            recovery,
            message: proto.message,
        },
        _ => malformed_error(),
    }
}

/// The wire form of an error.
pub open spec fn rpc_error_encode(err: RpcErrorDetailView) -> ErrorDetailProtoView {
    ErrorDetailProtoView {
        kind: Some(error_kind_encode(err.kind)),
        recovery: Some(recovery_encode(err.recovery)),
        message: err.message,
    }
}

/// Every error survives the wire.
pub proof fn rpc_error_round_trip(err: RpcErrorDetailView)
    ensures
        rpc_error_decode(rpc_error_encode(err)) == err,
{
    error_kind_round_trip(err.kind);
    match err.recovery {
        RecoveryActionView::RefreshMetadata { hint } => refresh_hint_round_trip(hint),
        RecoveryActionView::ReopenWriteSession { hint } => refresh_hint_round_trip(hint),
        _ => {},
    }
}

/// A malformed error fails closed: it never keeps a retry or a refresh that the message
/// asks for.
pub proof fn malformed_errors_fail_closed(proto: ErrorDetailProtoView)
    requires
        error_kind_decode(proto.kind) is None || proto.recovery is None,
    ensures
        rpc_error_decode(proto) == malformed_error(),
{
}

/// Converts a wire error into an RPC error.
pub fn rpc_error_from_proto(err_detail: &ErrorDetailProto) -> (r: RpcErrorDetail)
    ensures
        r@ == rpc_error_decode(err_detail@),
{
    let kind = error_kind_proto_to_kind(err_detail.kind);
    let recovery = recovery_proto_to_action(&err_detail.recovery);
    match (kind, recovery) {
        (Some(kind), Some(recovery)) => RpcErrorDetail {
            kind,
            recovery,
            message: err_detail.message.clone(),
        },
        _ => RpcErrorDetail::fail(
            ErrorKind::Protocol(ProtocolErrorKind::InvalidHeader),
            "malformed RPC error detail".to_owned(),
        ),
    }
}

/// Converts an RPC error into a wire error, which reads back as the RPC error.
pub fn rpc_error_to_proto(err: &RpcErrorDetail) -> (r: ErrorDetailProto)
    ensures
        r@ == rpc_error_encode(err@),
        rpc_error_decode(r@) == err@,
{
    proof {
        rpc_error_round_trip(err@);
    }
    ErrorDetailProto {
        kind: Some(error_kind_to_proto(err.kind)),
        recovery: Some(recovery_action_to_proto(&err.recovery)),
        message: err.message.clone(),
    }
}

// ---- response header ----

/// The response header that a message names.
pub open spec fn response_header_decode(proto: ResponseHeaderProtoView) -> Result<
    ResponseHeaderView,
    Seq<char>,
> {
    match proto.client {
        None => Err("missing client"@),
        Some(client) => match client_info_decode(client) {
            Err(e) => Err(e),
            Ok(client) => match watermarks_decode(proto.state) {
                Err(e) => Err(e),
                Ok(state) => match group_name_parse_optional(proto.group_name) {
                    Err(e) => Err("invalid header group_name: "@ + e.text()),
                    Ok(group_name) => Ok(
                        ResponseHeaderView {
                            client,
                            rpc_error: match proto.error {
                                Some(e) => Some(rpc_error_decode(e)),
                                None => None,
                            },
                            state,
                            mount_epoch: proto.mount_epoch,
                            route_epoch: proto.route_epoch,
                            group_name,
                        },
                    ),
                },
            },
        },
    }
}

/// The wire form of a response header.
pub open spec fn response_header_encode(header: ResponseHeaderView) -> ResponseHeaderProtoView {
    ResponseHeaderProtoView {
        client: Some(client_info_encode(header.client)),
        error: match header.rpc_error {
            Some(e) => Some(rpc_error_encode(e)),
            None => None,
        },
        state: watermarks_encode(header.state),
        mount_epoch: header.mount_epoch,
        route_epoch: header.route_epoch,
        group_name: group_text(header.group_name),
    }
}

impl vstd::std_specs::convert::TryFromSpecImpl<ResponseHeaderProto> for ResponseHeader {
    open spec fn obeys_try_from_spec() -> bool {
        false
    }

    open spec fn try_from_spec(proto: ResponseHeaderProto) -> Result<Self, String> {
        arbitrary()
    }
}

impl TryFrom<ResponseHeaderProto> for ResponseHeader {
    type Error = String;

    fn try_from(proto: ResponseHeaderProto) -> (r: Result<Self, String>)
        ensures
            match r {
                Ok(v) => response_header_decode(proto@) == Ok::<ResponseHeaderView, Seq<char>>(
                    v@,
                ),
                Err(e) => response_header_decode(proto@) == Err::<ResponseHeaderView, Seq<char>>(
                    e@,
                ),
            },
    {
        let client = match &proto.client {
            None => return Err("missing client".to_owned()),
            Some(client) => match decode_client_info(client) {
                Ok(client) => client,
                Err(e) => return Err(e),
            },
        };
        let rpc_error = match &proto.error {
            Some(e) => Some(rpc_error_from_proto(e)),
            None => None,
        };
        let state = match decode_watermarks(&proto.state) {
            Ok(state) => state,
            Err(e) => return Err(e),
        };
        let group_name = match GroupName::parse_optional(proto.group_name.as_str()) {
            Ok(group_name) => group_name,
            Err(e) => {
                let text = e.message();
                return Err(join("invalid header group_name: ", text.as_str()));
            },
        };
        Ok(
            ResponseHeader {
                client,
                rpc_error,
                state,
                mount_epoch: proto.mount_epoch,
                route_epoch: proto.route_epoch,
                group_name,
            },
        )
    }
}

impl<'a> vstd::std_specs::convert::FromSpecImpl<&'a ResponseHeader> for ResponseHeaderProto {
    open spec fn obeys_from_spec() -> bool {
        false
    }

    open spec fn from_spec(header: &'a ResponseHeader) -> Self {
        arbitrary()
    }
}

impl<'a> From<&'a ResponseHeader> for ResponseHeaderProto {
    /// A response header to a caller that can be told on the wire reads back as itself.
    fn from(header: &'a ResponseHeader) -> (r: Self)
        ensures
            r@ == response_header_encode(header@),
            client_info_ok(header@.client) ==> response_header_decode(r@) == Ok::<
                ResponseHeaderView,
                Seq<char>,
            >(header@),
    {
        let error = match &header.rpc_error {
            Some(e) => Some(rpc_error_to_proto(e)),
            None => None,
        };
        ResponseHeaderProto {
            client: Some(ClientInfoProto::from(&header.client)),
            error,
            state: encode_watermarks(&header.state),
            mount_epoch: header.mount_epoch,
            route_epoch: header.route_epoch,
            group_name: optional_group_text(&header.group_name),
        }
    }
}

} // verus!
