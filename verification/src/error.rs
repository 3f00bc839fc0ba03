//! Errors of the metadata service.

use vstd::prelude::*;

use crate::lease::LeaseEpoch;
use crate::rpc_error::{
    ErrorKind, InternalErrorKind, MetadataErrorKind, ProtocolErrorKind, RecoveryAction,
    RecoveryActionView, RefreshHint, RefreshHintView, RpcErrorDetail, RpcErrorDetailView,
    WorkerErrorKind,
};
use crate::text::{decimal, decimal_text, join};

verus! {

/// What kind of error a `MetadataError` is.
#[derive(Clone, Copy, Debug, PartialEq, Eq, Hash, Structural)]
pub enum MetadataErrorCode {
    NotFound,
    InvalidArgument,
    NotSupported,
    PermissionDenied,
    Internal,
    Busy,
    IsDir,
    CrossMountRename,
    ResourceExhausted,
    Again,
    WriteSessionLimitExceeded,
    GlobalWriteTargetLimitExceeded,
    ServiceUnavailable,
    LeaderChanged,
    StaleState,
    FullReportRequired,
    LeaseFenced,
}

/// An error of the metadata service.
#[derive(Debug)]
pub enum MetadataError {
    /// A named object does not exist.
    NotFound(String),
    /// The request is not valid.
    InvalidArgument(String),
    /// The request asks for something that is not supported.
    NotSupported(String),
    /// The caller is not authorized.
    PermissionDenied(String),
    /// Stored or replicated state is not what it must be.
    Internal(String),
    /// A live writer excludes the request.
    Busy(String),
    /// A file was expected.
    IsDir(String),
    /// The request spans two mounts.
    CrossMountRename(String),
    /// A resource is used up.
    ResourceExhausted(String),
    /// The request met another one and may be tried again.
    Again(String),
    /// No write session is left.
    WriteSessionLimitExceeded(String),
    /// No write target is left in the process.
    GlobalWriteTargetLimitExceeded(String),
    /// Something that the request needs is not available now.
    ServiceUnavailable(String),
    /// This node does not lead the group.
    LeaderChanged(String),
    /// The caller acts on an older state.
    StaleState(String),
    /// A full block report is needed first.
    FullReportRequired(String),
    /// A later writer has fenced this one.
    LeaseFenced { expected: LeaseEpoch, got: LeaseEpoch },
}

/// The value of a `MetadataError`: its kind and its wording.
pub struct MetadataErrorView {
    pub code: MetadataErrorCode,
    pub text: Seq<char>,
}

/// The wording of a fenced lease.
pub open spec fn lease_fenced_text(expected: LeaseEpoch, got: LeaseEpoch) -> Seq<char> {
    "write lease fenced: expected epoch "@ + decimal(expected.0 as nat) + ", got "@ + decimal(
        got.0 as nat,
    )
}

impl View for MetadataError {
    type V = MetadataErrorView;

    open spec fn view(&self) -> MetadataErrorView {
        match self {
            MetadataError::NotFound(m) => MetadataErrorView {
                code: MetadataErrorCode::NotFound,
                text: m@,
            },
            MetadataError::InvalidArgument(m) => MetadataErrorView {
                code: MetadataErrorCode::InvalidArgument,
                text: m@,
            },
            MetadataError::NotSupported(m) => MetadataErrorView {
                code: MetadataErrorCode::NotSupported,
                text: m@,
            },
            MetadataError::PermissionDenied(m) => MetadataErrorView {
                code: MetadataErrorCode::PermissionDenied,
                text: m@,
            },
            MetadataError::Internal(m) => MetadataErrorView {
                code: MetadataErrorCode::Internal,
                text: m@,
            },
            MetadataError::Busy(m) => MetadataErrorView {
                code: MetadataErrorCode::Busy,
                text: m@,
            },
            MetadataError::IsDir(m) => MetadataErrorView {
                code: MetadataErrorCode::IsDir,
                text: m@,
            },
            MetadataError::CrossMountRename(m) => MetadataErrorView {
                code: MetadataErrorCode::CrossMountRename,
                text: m@,
            },
            MetadataError::ResourceExhausted(m) => MetadataErrorView {
                code: MetadataErrorCode::ResourceExhausted,
                text: m@,
            },
            MetadataError::Again(m) => MetadataErrorView {
                code: MetadataErrorCode::Again,
                text: m@,
            },
            MetadataError::WriteSessionLimitExceeded(m) => MetadataErrorView {
                code: MetadataErrorCode::WriteSessionLimitExceeded,
                text: m@,
            },
            MetadataError::GlobalWriteTargetLimitExceeded(m) => MetadataErrorView {
                code: MetadataErrorCode::GlobalWriteTargetLimitExceeded,
                text: m@,
            },
            MetadataError::ServiceUnavailable(m) => MetadataErrorView {
                code: MetadataErrorCode::ServiceUnavailable,
                text: m@,
            },
            MetadataError::LeaderChanged(m) => MetadataErrorView {
                code: MetadataErrorCode::LeaderChanged,
                text: m@,
            },
            MetadataError::StaleState(m) => MetadataErrorView {
                code: MetadataErrorCode::StaleState,
                text: m@,
            },
            MetadataError::FullReportRequired(m) => MetadataErrorView {
                code: MetadataErrorCode::FullReportRequired,
                text: m@,
            },
            MetadataError::LeaseFenced { expected, got } => MetadataErrorView {
                code: MetadataErrorCode::LeaseFenced,
                text: lease_fenced_text(*expected, *got),
            },
        }
    }
}

impl Clone for MetadataError {
    fn clone(&self) -> (r: Self)
        ensures
            r@ == self@,
    {
        match self {
            MetadataError::NotFound(m) => MetadataError::NotFound(m.clone()),
            MetadataError::InvalidArgument(m) => MetadataError::InvalidArgument(m.clone()),
            MetadataError::NotSupported(m) => MetadataError::NotSupported(m.clone()),
            MetadataError::PermissionDenied(m) => MetadataError::PermissionDenied(m.clone()),
            MetadataError::Internal(m) => MetadataError::Internal(m.clone()),
            MetadataError::Busy(m) => MetadataError::Busy(m.clone()),
            MetadataError::IsDir(m) => MetadataError::IsDir(m.clone()),
            MetadataError::CrossMountRename(m) => MetadataError::CrossMountRename(m.clone()),
            MetadataError::ResourceExhausted(m) => MetadataError::ResourceExhausted(m.clone()),
            MetadataError::Again(m) => MetadataError::Again(m.clone()),
            MetadataError::WriteSessionLimitExceeded(m) => MetadataError::WriteSessionLimitExceeded(m.clone()),
            MetadataError::GlobalWriteTargetLimitExceeded(m) => MetadataError::GlobalWriteTargetLimitExceeded(m.clone()),
            MetadataError::ServiceUnavailable(m) => MetadataError::ServiceUnavailable(m.clone()),
            MetadataError::LeaderChanged(m) => MetadataError::LeaderChanged(m.clone()),
            MetadataError::StaleState(m) => MetadataError::StaleState(m.clone()),
            MetadataError::FullReportRequired(m) => MetadataError::FullReportRequired(m.clone()),
            MetadataError::LeaseFenced { expected, got } => MetadataError::LeaseFenced {
                expected: *expected,
                got: *got,
            },
        }
    }
}

impl MetadataError {
    /// Returns the kind of this error.
    pub fn code(&self) -> (r: MetadataErrorCode)
        ensures
            r == self@.code,
    {
        match self {
            MetadataError::NotFound(_) => MetadataErrorCode::NotFound,
            MetadataError::InvalidArgument(_) => MetadataErrorCode::InvalidArgument,
            MetadataError::NotSupported(_) => MetadataErrorCode::NotSupported,
            MetadataError::PermissionDenied(_) => MetadataErrorCode::PermissionDenied,
            MetadataError::Internal(_) => MetadataErrorCode::Internal,
            MetadataError::Busy(_) => MetadataErrorCode::Busy,
            MetadataError::IsDir(_) => MetadataErrorCode::IsDir,
            MetadataError::CrossMountRename(_) => MetadataErrorCode::CrossMountRename,
            MetadataError::ResourceExhausted(_) => MetadataErrorCode::ResourceExhausted,
            MetadataError::Again(_) => MetadataErrorCode::Again,
            MetadataError::WriteSessionLimitExceeded(_) => MetadataErrorCode::WriteSessionLimitExceeded,
            MetadataError::GlobalWriteTargetLimitExceeded(_) => MetadataErrorCode::GlobalWriteTargetLimitExceeded,
            MetadataError::ServiceUnavailable(_) => MetadataErrorCode::ServiceUnavailable,
            MetadataError::LeaderChanged(_) => MetadataErrorCode::LeaderChanged,
            MetadataError::StaleState(_) => MetadataErrorCode::StaleState,
            MetadataError::FullReportRequired(_) => MetadataErrorCode::FullReportRequired,
            MetadataError::LeaseFenced { .. } => MetadataErrorCode::LeaseFenced,
        }
    }

    /// Returns the wording of this error.
    pub fn message(&self) -> (r: String)
        ensures
            r@ == self@.text,
    {
        match self {
            MetadataError::NotFound(m) => m.clone(),
            MetadataError::InvalidArgument(m) => m.clone(),
            MetadataError::NotSupported(m) => m.clone(),
            MetadataError::PermissionDenied(m) => m.clone(),
            MetadataError::Internal(m) => m.clone(),
            MetadataError::Busy(m) => m.clone(),
            MetadataError::IsDir(m) => m.clone(),
            MetadataError::CrossMountRename(m) => m.clone(),
            MetadataError::ResourceExhausted(m) => m.clone(),
            MetadataError::Again(m) => m.clone(),
            MetadataError::WriteSessionLimitExceeded(m) => m.clone(),
            MetadataError::GlobalWriteTargetLimitExceeded(m) => m.clone(),
            MetadataError::ServiceUnavailable(m) => m.clone(),
            MetadataError::LeaderChanged(m) => m.clone(),
            MetadataError::StaleState(m) => m.clone(),
            MetadataError::FullReportRequired(m) => m.clone(),
            MetadataError::LeaseFenced { expected, got } => {
                let expected_text = decimal_text(expected.0 as u128);
                let got_text = decimal_text(got.0 as u128);
                let mut out = join("write lease fenced: expected epoch ", expected_text.as_str());
                out.append(", got ");
                out.append(got_text.as_str());
                out
            },
        }
    }
}

/// What a caller is told about an error of each kind.
pub open spec fn error_kind_of(code: MetadataErrorCode) -> ErrorKind {
    match code {
        MetadataErrorCode::NotFound => ErrorKind::Metadata(MetadataErrorKind::NotFound),
        MetadataErrorCode::InvalidArgument => ErrorKind::Protocol(ProtocolErrorKind::InvalidArgument),
        MetadataErrorCode::NotSupported => ErrorKind::Protocol(ProtocolErrorKind::Unsupported),
        MetadataErrorCode::PermissionDenied => ErrorKind::Protocol(ProtocolErrorKind::PermissionDenied),
        MetadataErrorCode::Internal => ErrorKind::Internal(InternalErrorKind::Internal),
        MetadataErrorCode::Busy => ErrorKind::Metadata(MetadataErrorKind::Busy),
        MetadataErrorCode::IsDir => ErrorKind::Metadata(MetadataErrorKind::IsDirectory),
        MetadataErrorCode::CrossMountRename => ErrorKind::Metadata(MetadataErrorKind::CrossMountRename),
        MetadataErrorCode::ResourceExhausted => ErrorKind::Metadata(MetadataErrorKind::ResourceExhausted),
        MetadataErrorCode::Again => ErrorKind::Metadata(MetadataErrorKind::Conflict),
        MetadataErrorCode::WriteSessionLimitExceeded => ErrorKind::Metadata(MetadataErrorKind::ResourceExhausted),
        MetadataErrorCode::GlobalWriteTargetLimitExceeded => ErrorKind::Metadata(MetadataErrorKind::ResourceExhausted),
        MetadataErrorCode::ServiceUnavailable => ErrorKind::Internal(InternalErrorKind::NodeUnavailable),
        MetadataErrorCode::LeaderChanged => ErrorKind::Metadata(MetadataErrorKind::NotLeader),
        MetadataErrorCode::StaleState => ErrorKind::Metadata(MetadataErrorKind::StaleState),
        MetadataErrorCode::FullReportRequired => ErrorKind::Worker(WorkerErrorKind::FullReportRequired),
        MetadataErrorCode::LeaseFenced => ErrorKind::Metadata(MetadataErrorKind::Fencing),
    }
}

/// What a caller is to do about an error of each kind.
pub open spec fn recovery_of(code: MetadataErrorCode) -> RecoveryActionView {
    match code {
        MetadataErrorCode::NotFound => RecoveryActionView::Fail,
        MetadataErrorCode::InvalidArgument => RecoveryActionView::Fail,
        MetadataErrorCode::NotSupported => RecoveryActionView::Fail,
        MetadataErrorCode::PermissionDenied => RecoveryActionView::Fail,
        MetadataErrorCode::Internal => RecoveryActionView::Fail,
        MetadataErrorCode::Busy => RecoveryActionView::Fail,
        MetadataErrorCode::IsDir => RecoveryActionView::Fail,
        MetadataErrorCode::CrossMountRename => RecoveryActionView::Fail,
        MetadataErrorCode::ResourceExhausted => RecoveryActionView::Fail,
        MetadataErrorCode::Again => RecoveryActionView::Retry { after_ms: None },
        MetadataErrorCode::WriteSessionLimitExceeded => RecoveryActionView::Retry { after_ms: None },
        MetadataErrorCode::GlobalWriteTargetLimitExceeded => RecoveryActionView::Retry { after_ms: None },
        MetadataErrorCode::ServiceUnavailable => RecoveryActionView::Retry { after_ms: None },
        MetadataErrorCode::LeaderChanged => RecoveryActionView::RefreshMetadata { hint: RefreshHintView::none() },
        MetadataErrorCode::StaleState => RecoveryActionView::RefreshMetadata { hint: RefreshHintView::none() },
        MetadataErrorCode::FullReportRequired => RecoveryActionView::SendFullBlockReport,
        MetadataErrorCode::LeaseFenced => RecoveryActionView::ReopenWriteSession { hint: RefreshHintView::none() },
    }
}

/// The RPC error that tells a metadata error.
pub open spec fn rpc_error_of(error: MetadataErrorView) -> RpcErrorDetailView {
    RpcErrorDetailView {
        kind: error_kind_of(error.code),
        recovery: recovery_of(error.code),
        message: error.text,
    }
}

/// Returns the RPC error that tells a metadata error.
pub fn to_rpc_error(error: &MetadataError) -> (r: RpcErrorDetail)
    ensures
        r@ == rpc_error_of(error@),
{
    let message = error.message();
    let (kind, recovery) = match error.code() {
        MetadataErrorCode::NotFound => (
            ErrorKind::Metadata(MetadataErrorKind::NotFound),
            RecoveryAction::Fail,
        ),
        MetadataErrorCode::InvalidArgument => (
            ErrorKind::Protocol(ProtocolErrorKind::InvalidArgument),
            RecoveryAction::Fail,
        ),
        MetadataErrorCode::NotSupported => (
            ErrorKind::Protocol(ProtocolErrorKind::Unsupported),
            RecoveryAction::Fail,
        ),
        MetadataErrorCode::PermissionDenied => (
            ErrorKind::Protocol(ProtocolErrorKind::PermissionDenied),
            RecoveryAction::Fail,
        ),
        MetadataErrorCode::Internal => (
            ErrorKind::Internal(InternalErrorKind::Internal),
            RecoveryAction::Fail,
        ),
        MetadataErrorCode::Busy => (
            ErrorKind::Metadata(MetadataErrorKind::Busy),
            RecoveryAction::Fail,
        ),
        MetadataErrorCode::IsDir => (
            ErrorKind::Metadata(MetadataErrorKind::IsDirectory),
            RecoveryAction::Fail,
        ),
        MetadataErrorCode::CrossMountRename => (
            ErrorKind::Metadata(MetadataErrorKind::CrossMountRename),
            RecoveryAction::Fail,
        ),
        MetadataErrorCode::ResourceExhausted => (
            ErrorKind::Metadata(MetadataErrorKind::ResourceExhausted),
            RecoveryAction::Fail,
        ),
        MetadataErrorCode::Again => (
            ErrorKind::Metadata(MetadataErrorKind::Conflict),
            RecoveryAction::Retry { after_ms: None },
        ),
        MetadataErrorCode::WriteSessionLimitExceeded => (
            ErrorKind::Metadata(MetadataErrorKind::ResourceExhausted),
            RecoveryAction::Retry { after_ms: None },
        ),
        MetadataErrorCode::GlobalWriteTargetLimitExceeded => (
            ErrorKind::Metadata(MetadataErrorKind::ResourceExhausted),
            RecoveryAction::Retry { after_ms: None },
        ),
        MetadataErrorCode::ServiceUnavailable => (
            ErrorKind::Internal(InternalErrorKind::NodeUnavailable),
            RecoveryAction::Retry { after_ms: None },
        ),
        MetadataErrorCode::LeaderChanged => (
            ErrorKind::Metadata(MetadataErrorKind::NotLeader),
            RecoveryAction::RefreshMetadata { hint: RefreshHint::default() },
        ),
        MetadataErrorCode::StaleState => (
            ErrorKind::Metadata(MetadataErrorKind::StaleState),
            RecoveryAction::RefreshMetadata { hint: RefreshHint::default() },
        ),
        MetadataErrorCode::FullReportRequired => (
            ErrorKind::Worker(WorkerErrorKind::FullReportRequired),
            RecoveryAction::SendFullBlockReport,
        ),
        MetadataErrorCode::LeaseFenced => (
            ErrorKind::Metadata(MetadataErrorKind::Fencing),
            RecoveryAction::ReopenWriteSession { hint: RefreshHint::default() },
        ),
    };
    RpcErrorDetail { kind, recovery, message }
}

} // verus!
