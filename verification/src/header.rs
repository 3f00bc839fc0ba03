//! Request and response headers.

use vstd::prelude::*;

use crate::group_watermark::{watermark_views, GroupStateWatermark, GroupStateWatermarkView};
use crate::ids::{CallId, ClientId, GroupName};
use crate::rpc_error::{copy_optional_text, optional_text, RpcErrorDetail, RpcErrorDetailView};

verus! {

/// Who makes a call.
#[derive(Debug)]
pub struct ClientInfo {
    pub call_id: CallId,
    pub client_id: ClientId,
    pub client_name: Option<String>,
}

/// The value of a `ClientInfo`.
pub struct ClientInfoView {
    pub call_id: CallId,
    pub client_id: ClientId,
    pub client_name: Option<Seq<char>>,
}

impl View for ClientInfo {
    type V = ClientInfoView;

    open spec fn view(&self) -> ClientInfoView {
        ClientInfoView {
            call_id: self.call_id,
            client_id: self.client_id,
            client_name: optional_text(self.client_name),
        }
    }
}

impl Clone for ClientInfo {
    fn clone(&self) -> (r: Self)
        ensures
            r@ == self@,
    {
        ClientInfo {
            call_id: self.call_id,
            client_id: self.client_id,
            client_name: copy_optional_text(&self.client_name),
        }
    }
}

/// Trace propagation fields.
#[derive(Debug)]
pub struct TraceContext {
    pub traceparent: Option<String>,
    pub tracestate: Option<String>,
    pub baggage: Option<String>,
}

/// The value of a `TraceContext`.
pub struct TraceContextView {
    pub traceparent: Option<Seq<char>>,
    pub tracestate: Option<Seq<char>>,
    pub baggage: Option<Seq<char>>,
}

impl TraceContextView {
    /// The context without fields.
    pub open spec fn none() -> TraceContextView {
        TraceContextView { traceparent: None, tracestate: None, baggage: None }
    }
}

impl View for TraceContext {
    type V = TraceContextView;

    open spec fn view(&self) -> TraceContextView {
        TraceContextView {
            traceparent: optional_text(self.traceparent),
            tracestate: optional_text(self.tracestate),
            baggage: optional_text(self.baggage),
        }
    }
}

impl Default for TraceContext {
    fn default() -> (r: Self)
        ensures
            r@ == TraceContextView::none(),
    {
        TraceContext { traceparent: None, tracestate: None, baggage: None }
    }
}

/// Free-form context that the caller attaches.
#[derive(Debug)]
pub struct CallerContext {
    pub context: String,
}

/// Wall-clock deadline of a request, in milliseconds of Unix time.
#[derive(Clone, Copy, Debug, PartialEq, Eq, Hash, Structural)]
pub struct Deadline(pub i64);

impl Deadline {
    /// Creates a deadline.
    pub fn from_unix_ms(ms: i64) -> (r: Self)
        ensures
            r.0 == ms,
    {
        Self(ms)
    }

    /// Returns the deadline in milliseconds of Unix time.
    pub fn as_unix_ms(self) -> (r: i64)
        ensures
            r == self.0,
    {
        self.0
    }

    /// Returns how many milliseconds are left at `now_ms`.
    pub fn remaining_ms(self, now_ms: u64) -> (r: u64)
        ensures
            r == if now_ms >= self.0 {
                0
            } else {
                self.0 - now_ms
            },
    {
        if self.has_passed(now_ms) {
            0
        } else {
            self.0 as u64 - now_ms
        }
    }

    /// Returns whether the deadline has passed at `now_ms`.
    pub fn has_passed(self, now_ms: u64) -> (r: bool)
        ensures
            r == (now_ms >= self.0),
    {
        self.0 < 0 || now_ms >= self.0 as u64
    }
}

/// Header of a request.
#[derive(Debug)]
pub struct RequestHeader {
    pub client: ClientInfo,
    pub trace_context: TraceContext,
    pub group_name: Option<GroupName>,
    pub mount_epoch: Option<u64>,
    /// Applied states that the caller requires.
    pub state: Vec<GroupStateWatermark>,
    pub route_epoch: Option<u64>,
    pub deadline: Deadline,
    pub caller_context: Option<CallerContext>,
}

/// The value of a `RequestHeader`.
pub struct RequestHeaderView {
    pub client: ClientInfoView,
    pub trace_context: TraceContextView,
    pub group_name: Option<Seq<char>>,
    pub mount_epoch: Option<u64>,
    pub state: Seq<GroupStateWatermarkView>,
    pub route_epoch: Option<u64>,
    pub deadline: Deadline,
    pub caller_context: Option<Seq<char>>,
}

/// The value of an optional group name.
pub open spec fn optional_group(group: Option<GroupName>) -> Option<Seq<char>> {
    match group {
        Some(g) => Some(g@),
        None => None,
    }
}

/// Returns a copy of an optional group name.
pub fn copy_optional_group(group: &Option<GroupName>) -> (r: Option<GroupName>)
    ensures
        optional_group(r) == optional_group(*group),
{
    match group {
        Some(g) => Some(g.clone()),
        None => None,
    }
}

impl View for RequestHeader {
    type V = RequestHeaderView;

    open spec fn view(&self) -> RequestHeaderView {
        RequestHeaderView {
            client: self.client@,
            trace_context: self.trace_context@,
            group_name: optional_group(self.group_name),
            mount_epoch: self.mount_epoch,
            state: watermark_views(self.state@),
            route_epoch: self.route_epoch,
            deadline: self.deadline,
            caller_context: match self.caller_context {
                Some(c) => Some(c.context@),
                None => None,
            },
        }
    }
}

/// Header of a response.
#[derive(Debug)]
pub struct ResponseHeader {
    pub client: ClientInfo,
    pub rpc_error: Option<RpcErrorDetail>,
    pub state: Vec<GroupStateWatermark>,
    pub mount_epoch: Option<u64>,
    pub route_epoch: Option<u64>,
    pub group_name: Option<GroupName>,
}

/// The value of a `ResponseHeader`.
pub struct ResponseHeaderView {
    pub client: ClientInfoView,
    pub rpc_error: Option<RpcErrorDetailView>,
    pub state: Seq<GroupStateWatermarkView>,
    pub mount_epoch: Option<u64>,
    pub route_epoch: Option<u64>,
    pub group_name: Option<Seq<char>>,
}

impl View for ResponseHeader {
    type V = ResponseHeaderView;

    open spec fn view(&self) -> ResponseHeaderView {
        ResponseHeaderView {
            client: self.client@,
            rpc_error: match self.rpc_error {
                Some(e) => Some(e@),
                None => None,
            },
            state: watermark_views(self.state@),
            mount_epoch: self.mount_epoch,
            route_epoch: self.route_epoch,
            group_name: optional_group(self.group_name),
        }
    }
}

impl ResponseHeader {
    /// Creates the header of a successful response.
    pub fn ok(client: ClientInfo) -> (r: Self)
        ensures
            r@ == (ResponseHeaderView {
                client: client@,
                rpc_error: None,
                state: Seq::empty(),
                mount_epoch: None,
                route_epoch: None,
                group_name: None,
            }),
    {
        let r = ResponseHeader {
            client,
            rpc_error: None,
            state: Vec::new(),
            mount_epoch: None,
            route_epoch: None,
            group_name: None,
        };
        assert(r@.state =~= Seq::empty());
        r
    }
}

} // verus!
