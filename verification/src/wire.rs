//! Request contexts and response headers at the wire.

use vstd::prelude::*;

use crate::filesystem::context::{FsFailure, FsSuccess, RequestContext, RequestContextView};
use crate::group_watermark::{
    copy_watermarks, watermark_views, GroupStateWatermark, GroupStateWatermarkView,
};
use crate::header::{
    copy_optional_group, optional_group, ClientInfo, ClientInfoView, RequestHeader, ResponseHeader,
    ResponseHeaderView,
};
use crate::ids::GroupName;
use crate::location::{FileBlockLocation, LocatedBlock};
use crate::proto::convert::{location_encode, located_block_encode};
use crate::proto::header::{
    client_info_decode, client_info_encode, decode_client_info, decode_request_header,
    group_text, request_header_decode, response_header_encode, rpc_error_encode,
    rpc_error_to_proto,
};
use crate::proto::message::{
    ErrorDetailProto, FileBlockLocationProto, LocatedBlockProto, RequestHeaderProto,
    RequestHeaderProtoView, ResponseHeaderProto, ResponseHeaderProtoView,
};
use crate::rpc_error::{
    ErrorKind, ProtocolErrorKind, RecoveryActionView, RpcErrorDetail, RpcErrorDetailView,
};
use crate::text::join;

verus! {

/// The value of an optional request header message.
pub open spec fn optional_request_view(header: Option<RequestHeaderProto>) -> Option<
    RequestHeaderProtoView,
> {
    match header {
        Some(h) => Some(h@),
        None => None,
    }
}

/// The error for a header that is not valid.
pub open spec fn invalid_header_error(message: Seq<char>) -> RpcErrorDetailView {
    RpcErrorDetailView {
        kind: ErrorKind::Protocol(ProtocolErrorKind::InvalidHeader),
        recovery: RecoveryActionView::Fail,
        message,
    }
}

/// Creates the error for a header that is not valid.
pub fn invalid_header_rpc_error(message: String) -> (r: RpcErrorDetail)
    ensures
        r@ == invalid_header_error(message@),
{
    RpcErrorDetail::fail(ErrorKind::Protocol(ProtocolErrorKind::InvalidHeader), message)
}

/// The context of a request with the given header message.
pub open spec fn request_context_decode(header: Option<RequestHeaderProtoView>) -> Result<
    RequestContextView,
    RpcErrorDetailView,
> {
    match header {
        None => Err(invalid_header_error("external request requires RequestHeader"@)),
        Some(h) => match request_header_decode(h) {
            Err(e) => Err(invalid_header_error("invalid RequestHeader: "@ + e)),
            Ok(caller) => Ok(RequestContextView { caller, route_epoch: h.route_epoch }),
        },
    }
}

/// Returns the context of a request with the given header message.
pub fn request_context_from_proto(req_header: &Option<RequestHeaderProto>) -> (r: Result<
    RequestContext,
    RpcErrorDetail,
>)
    ensures
        ({
            let decoded = request_context_decode(optional_request_view(*req_header));
            match r {
                Ok(v) => decoded == Ok::<RequestContextView, RpcErrorDetailView>(v@),
                Err(e) => decoded == Err::<RequestContextView, RpcErrorDetailView>(e@),
            }
        }),
{
    match req_header {
        None => Err(
            invalid_header_rpc_error("external request requires RequestHeader".to_owned()),
        ),
        Some(header) => match decode_request_header(header) {
            Err(e) => Err(invalid_header_rpc_error(join("invalid RequestHeader: ", e.as_str()))),
            Ok(caller) => Ok(RequestContext { caller, route_epoch: header.route_epoch }),
        },
    }
}

/// Returns the caller of a request with the given header message.
pub fn extract_and_inject_context(req_header: &Option<RequestHeaderProto>) -> (r: Result<
    RequestHeader,
    RpcErrorDetail,
>)
    ensures
        ({
            let decoded = request_context_decode(optional_request_view(*req_header));
            match r {
                Ok(v) => decoded is Ok && (decoded->Ok_0).caller == v@,
                Err(e) => decoded == Err::<RequestContextView, RpcErrorDetailView>(e@),
            }
        }),
{
    match request_context_from_proto(req_header) {
        Ok(ctx) => Ok(ctx.caller),
        Err(e) => Err(e),
    }
}

/// The header of an answer to a known caller.
pub open spec fn base_response_header(
    ctx: RequestContextView,
    group_name: Option<Seq<char>>,
    mount_epoch: Option<u64>,
    route_epoch: Option<u64>,
    state: Seq<GroupStateWatermarkView>,
) -> ResponseHeaderProtoView {
    response_header_encode(
        ResponseHeaderView {
            client: ctx.caller.client,
            rpc_error: None,
            state,
            mount_epoch,
            route_epoch,
            group_name,
        },
    )
}

fn build_base_response_header(
    ctx: &RequestContext,
    group_name: &Option<GroupName>,
    mount_epoch: Option<u64>,
    route_epoch: Option<u64>,
    state: &Vec<GroupStateWatermark>,
) -> (r: ResponseHeaderProto)
    ensures
        r@ == base_response_header(
            ctx@,
            optional_group(*group_name),
            mount_epoch,
            route_epoch,
            watermark_views(state@),
        ),
{
    let mut header = ResponseHeader::ok(ctx.caller.client.clone());
    header.group_name = copy_optional_group(group_name);
    header.state = copy_watermarks(state);
    header.mount_epoch = mount_epoch;
    header.route_epoch = route_epoch;
    ResponseHeaderProto::from(&header)
}

/// The caller that a header message names, as far as it names one.
pub open spec fn request_client(header: Option<RequestHeaderProtoView>) -> Option<ClientInfoView> {
    match header {
        None => None,
        Some(h) => match h.client {
            None => None,
            Some(c) => match client_info_decode(c) {
                Ok(client) => Some(client),
                Err(_) => None,
            },
        },
    }
}

fn client_from_request_header(req_header: &Option<RequestHeaderProto>) -> (r: Option<ClientInfo>)
    ensures
        (match r {
            Some(c) => Some(c@),
            None => None,
        }) == request_client(optional_request_view(*req_header)),
{
    match req_header {
        None => None,
        Some(header) => match &header.client {
            None => None,
            Some(client) => match decode_client_info(client) {
                Ok(client) => Some(client),
                Err(_) => None,
            },
        },
    }
}

/// Returns the header of a successful answer.
pub fn ok_header_from_fs_success<T>(ctx: &RequestContext, success: &FsSuccess<T>) -> (r:
    ResponseHeaderProto)
    ensures
        r@ == base_response_header(
            ctx@,
            optional_group(success.group_name),
            success.mount_epoch,
            success.route_epoch,
            watermark_views(success.state@),
        ),
{
    build_base_response_header(
        ctx,
        &success.group_name,
        success.mount_epoch,
        success.route_epoch,
        &success.state,
    )
}

/// Returns the header of a failed answer.
pub fn header_from_fs_failure(ctx: &RequestContext, failure: &FsFailure) -> (r:
    ResponseHeaderProto)
    ensures
        r@ == (ResponseHeaderProtoView {
            error: Some(rpc_error_encode(failure@.error)),
            ..base_response_header(
                ctx@,
                failure@.group_name,
                failure@.mount_epoch,
                failure@.route_epoch,
                failure@.state,
            )
        }),
{
    let mut header = build_base_response_header(
        ctx,
        &failure.group_name,
        failure.mount_epoch,
        failure.route_epoch,
        &failure.state,
    );
    header.error = Some(rpc_error_to_proto(&failure.error));
    header
}

/// The header of an answer to a request whose header may not be valid: it names the caller
/// only where the request does.
pub open spec fn request_response_header(
    header: Option<RequestHeaderProtoView>,
    group_name: Option<Seq<char>>,
    mount_epoch: Option<u64>,
    error: Option<RpcErrorDetailView>,
) -> ResponseHeaderProtoView {
    ResponseHeaderProtoView {
        client: match request_client(header) {
            Some(client) => Some(client_info_encode(client)),
            None => None,
        },
        error: match error {
            Some(e) => Some(rpc_error_encode(e)),
            None => None,
        },
        state: Seq::empty(),
        mount_epoch,
        route_epoch: None,
        group_name: group_text(group_name),
    }
}

fn response_header_for_request(
    req_header: &Option<RequestHeaderProto>,
    group_name: &Option<GroupName>,
    mount_epoch: Option<u64>,
    error: Option<ErrorDetailProto>,
) -> (r: ResponseHeaderProto)
    ensures
        r@ == (ResponseHeaderProtoView {
            error: crate::proto::message::optional_error_view(error),
            ..request_response_header(
                optional_request_view(*req_header),
                optional_group(*group_name),
                mount_epoch,
                None,
            )
        }),
{
    let mut header = match client_from_request_header(req_header) {
        Some(client) => {
            let header = ResponseHeader::ok(client);
            let proto = ResponseHeaderProto::from(&header);
            assert(proto@.state =~= Seq::empty());
            proto
        },
        None => ResponseHeaderProto::default(),
    };
    header.group_name = crate::proto::header::optional_group_text(group_name);
    header.mount_epoch = mount_epoch;
    header.error = error;
    header
}

/// Returns the header of a successful answer to a request that may have no valid header.
pub fn ok_header_from_request(
    req_header: &Option<RequestHeaderProto>,
    group_name: &Option<GroupName>,
    mount_epoch: Option<u64>,
) -> (r: ResponseHeaderProto)
    ensures
        r@ == request_response_header(
            optional_request_view(*req_header),
            optional_group(*group_name),
            mount_epoch,
            None,
        ),
{
    response_header_for_request(req_header, group_name, mount_epoch, None)
}

/// Returns the header of a failed answer to a request that may have no valid header.
pub fn header_from_rpc_error(
    req_header: &Option<RequestHeaderProto>,
    group_name: &Option<GroupName>,
    mount_epoch: Option<u64>,
    err: &RpcErrorDetail,
) -> (r: ResponseHeaderProto)
    ensures
        r@ == request_response_header(
            optional_request_view(*req_header),
            optional_group(*group_name),
            mount_epoch,
            Some(err@),
        ),
{
    response_header_for_request(
        req_header,
        group_name,
        mount_epoch,
        Some(rpc_error_to_proto(err)),
    )
}

/// A failure always reaches the caller with its kind, its recovery and its message,
/// whatever the request's header was.
pub proof fn failures_reach_the_caller(
    header: Option<RequestHeaderProtoView>,
    group_name: Option<Seq<char>>,
    mount_epoch: Option<u64>,
    error: RpcErrorDetailView,
)
    ensures
        ({
            let answer = request_response_header(header, group_name, mount_epoch, Some(error));
            answer.error is Some && crate::proto::header::rpc_error_decode(answer.error->0)
                == error
        }),
{
    crate::proto::header::rpc_error_round_trip(error);
}

/// Returns the wire form of a located block.
pub fn located_block_to_proto(target: &LocatedBlock) -> (r: LocatedBlockProto)
    ensures
        r@ == located_block_encode(target@),
{
    LocatedBlockProto::from(target)
}

/// Returns the wire form of a readable location.
pub fn location_to_proto(location: &FileBlockLocation) -> (r: FileBlockLocationProto)
    ensures
        r@ == location_encode(location@),
{
    FileBlockLocationProto::from(location)
}

} // verus!
