//! Wire numbers of the failure kinds.

use vstd::prelude::*;

use crate::rpc_error::{
    ErrorKind, InternalErrorKind, MetadataErrorKind, ProtocolErrorKind, WorkerErrorKind,
};

verus! {

/// Wire enumeration of `MetadataErrorKind`.
#[derive(Clone, Copy, Debug, PartialEq, Eq, Hash, Structural)]
pub enum MetadataErrorKindProto {
    MetadataErrorKindUnspecified,
    MetadataErrorKindNotFound,
    MetadataErrorKindAlreadyExists,
    MetadataErrorKindNotDirectory,
    MetadataErrorKindIsDirectory,
    MetadataErrorKindDirectoryNotEmpty,
    MetadataErrorKindCrossMountRename,
    MetadataErrorKindBusy,
    MetadataErrorKindConflict,
    MetadataErrorKindNotLeader,
    MetadataErrorKindStaleState,
    MetadataErrorKindMountEpochMismatch,
    MetadataErrorKindRouteEpochMismatch,
    MetadataErrorKindOwnerGroupMismatch,
    MetadataErrorKindGroupMismatch,
    MetadataErrorKindFencing,
    MetadataErrorKindSessionInvalid,
    MetadataErrorKindSessionExpired,
    MetadataErrorKindEpochMismatch,
    MetadataErrorKindResourceExhausted,
}

impl MetadataErrorKindProto {
    /// The wire number of this value.
    pub open spec fn raw(self) -> i32 {
        match self {
            MetadataErrorKindProto::MetadataErrorKindUnspecified => 0,
            MetadataErrorKindProto::MetadataErrorKindNotFound => 1,
            MetadataErrorKindProto::MetadataErrorKindAlreadyExists => 2,
            MetadataErrorKindProto::MetadataErrorKindNotDirectory => 3,
            MetadataErrorKindProto::MetadataErrorKindIsDirectory => 4,
            MetadataErrorKindProto::MetadataErrorKindDirectoryNotEmpty => 5,
            MetadataErrorKindProto::MetadataErrorKindCrossMountRename => 6,
            MetadataErrorKindProto::MetadataErrorKindBusy => 7,
            MetadataErrorKindProto::MetadataErrorKindConflict => 8,
            MetadataErrorKindProto::MetadataErrorKindNotLeader => 9,
            MetadataErrorKindProto::MetadataErrorKindStaleState => 10,
            MetadataErrorKindProto::MetadataErrorKindMountEpochMismatch => 11,
            MetadataErrorKindProto::MetadataErrorKindRouteEpochMismatch => 12,
            MetadataErrorKindProto::MetadataErrorKindOwnerGroupMismatch => 13,
            MetadataErrorKindProto::MetadataErrorKindGroupMismatch => 14,
            MetadataErrorKindProto::MetadataErrorKindFencing => 15,
            MetadataErrorKindProto::MetadataErrorKindSessionInvalid => 16,
            MetadataErrorKindProto::MetadataErrorKindSessionExpired => 17,
            MetadataErrorKindProto::MetadataErrorKindEpochMismatch => 18,
            MetadataErrorKindProto::MetadataErrorKindResourceExhausted => 19,
        }
    }

    /// The value with this wire number, if there is one.
    pub open spec fn of_raw(raw: i32) -> Option<MetadataErrorKindProto> {
        match raw {
            0 => Some(MetadataErrorKindProto::MetadataErrorKindUnspecified),
            1 => Some(MetadataErrorKindProto::MetadataErrorKindNotFound),
            2 => Some(MetadataErrorKindProto::MetadataErrorKindAlreadyExists),
            3 => Some(MetadataErrorKindProto::MetadataErrorKindNotDirectory),
            4 => Some(MetadataErrorKindProto::MetadataErrorKindIsDirectory),
            5 => Some(MetadataErrorKindProto::MetadataErrorKindDirectoryNotEmpty),
            6 => Some(MetadataErrorKindProto::MetadataErrorKindCrossMountRename),
            7 => Some(MetadataErrorKindProto::MetadataErrorKindBusy),
            8 => Some(MetadataErrorKindProto::MetadataErrorKindConflict),
            9 => Some(MetadataErrorKindProto::MetadataErrorKindNotLeader),
            10 => Some(MetadataErrorKindProto::MetadataErrorKindStaleState),
            11 => Some(MetadataErrorKindProto::MetadataErrorKindMountEpochMismatch),
            12 => Some(MetadataErrorKindProto::MetadataErrorKindRouteEpochMismatch),
            13 => Some(MetadataErrorKindProto::MetadataErrorKindOwnerGroupMismatch),
            14 => Some(MetadataErrorKindProto::MetadataErrorKindGroupMismatch),
            15 => Some(MetadataErrorKindProto::MetadataErrorKindFencing),
            16 => Some(MetadataErrorKindProto::MetadataErrorKindSessionInvalid),
            17 => Some(MetadataErrorKindProto::MetadataErrorKindSessionExpired),
            18 => Some(MetadataErrorKindProto::MetadataErrorKindEpochMismatch),
            19 => Some(MetadataErrorKindProto::MetadataErrorKindResourceExhausted),
            _ => None,
        }
    }

    /// Returns the wire number of this value.
    pub fn as_raw(self) -> (r: i32)
        ensures
            r == self.raw(),
    {
        match self {
            MetadataErrorKindProto::MetadataErrorKindUnspecified => 0,
            MetadataErrorKindProto::MetadataErrorKindNotFound => 1,
            MetadataErrorKindProto::MetadataErrorKindAlreadyExists => 2,
            MetadataErrorKindProto::MetadataErrorKindNotDirectory => 3,
            MetadataErrorKindProto::MetadataErrorKindIsDirectory => 4,
            MetadataErrorKindProto::MetadataErrorKindDirectoryNotEmpty => 5,
            MetadataErrorKindProto::MetadataErrorKindCrossMountRename => 6,
            MetadataErrorKindProto::MetadataErrorKindBusy => 7,
            MetadataErrorKindProto::MetadataErrorKindConflict => 8,
            MetadataErrorKindProto::MetadataErrorKindNotLeader => 9,
            MetadataErrorKindProto::MetadataErrorKindStaleState => 10,
            MetadataErrorKindProto::MetadataErrorKindMountEpochMismatch => 11,
            MetadataErrorKindProto::MetadataErrorKindRouteEpochMismatch => 12,
            MetadataErrorKindProto::MetadataErrorKindOwnerGroupMismatch => 13,
            MetadataErrorKindProto::MetadataErrorKindGroupMismatch => 14,
            MetadataErrorKindProto::MetadataErrorKindFencing => 15,
            MetadataErrorKindProto::MetadataErrorKindSessionInvalid => 16,
            MetadataErrorKindProto::MetadataErrorKindSessionExpired => 17,
            MetadataErrorKindProto::MetadataErrorKindEpochMismatch => 18,
            MetadataErrorKindProto::MetadataErrorKindResourceExhausted => 19,
        }
    }

    /// Returns the value with this wire number, if there is one.
    pub fn from_raw(raw: i32) -> (r: Option<MetadataErrorKindProto>)
        ensures
            r == Self::of_raw(raw),
    {
        match raw {
            0 => Some(MetadataErrorKindProto::MetadataErrorKindUnspecified),
            1 => Some(MetadataErrorKindProto::MetadataErrorKindNotFound),
            2 => Some(MetadataErrorKindProto::MetadataErrorKindAlreadyExists),
            3 => Some(MetadataErrorKindProto::MetadataErrorKindNotDirectory),
            4 => Some(MetadataErrorKindProto::MetadataErrorKindIsDirectory),
            5 => Some(MetadataErrorKindProto::MetadataErrorKindDirectoryNotEmpty),
            6 => Some(MetadataErrorKindProto::MetadataErrorKindCrossMountRename),
            7 => Some(MetadataErrorKindProto::MetadataErrorKindBusy),
            8 => Some(MetadataErrorKindProto::MetadataErrorKindConflict),
            9 => Some(MetadataErrorKindProto::MetadataErrorKindNotLeader),
            10 => Some(MetadataErrorKindProto::MetadataErrorKindStaleState),
            11 => Some(MetadataErrorKindProto::MetadataErrorKindMountEpochMismatch),
            12 => Some(MetadataErrorKindProto::MetadataErrorKindRouteEpochMismatch),
            13 => Some(MetadataErrorKindProto::MetadataErrorKindOwnerGroupMismatch),
            14 => Some(MetadataErrorKindProto::MetadataErrorKindGroupMismatch),
            15 => Some(MetadataErrorKindProto::MetadataErrorKindFencing),
            16 => Some(MetadataErrorKindProto::MetadataErrorKindSessionInvalid),
            17 => Some(MetadataErrorKindProto::MetadataErrorKindSessionExpired),
            18 => Some(MetadataErrorKindProto::MetadataErrorKindEpochMismatch),
            19 => Some(MetadataErrorKindProto::MetadataErrorKindResourceExhausted),
            _ => None,
        }
    }
}

/// The kind that a wire value names. The unspecified value names none.
pub open spec fn metadata_kind_decode(kind: MetadataErrorKindProto) -> Option<MetadataErrorKind> {
    match kind {
        MetadataErrorKindProto::MetadataErrorKindUnspecified => None,
        MetadataErrorKindProto::MetadataErrorKindNotFound => Some(MetadataErrorKind::NotFound),
        MetadataErrorKindProto::MetadataErrorKindAlreadyExists => Some(MetadataErrorKind::AlreadyExists),
        MetadataErrorKindProto::MetadataErrorKindNotDirectory => Some(MetadataErrorKind::NotDirectory),
        MetadataErrorKindProto::MetadataErrorKindIsDirectory => Some(MetadataErrorKind::IsDirectory),
        MetadataErrorKindProto::MetadataErrorKindDirectoryNotEmpty => Some(MetadataErrorKind::DirectoryNotEmpty),
        MetadataErrorKindProto::MetadataErrorKindCrossMountRename => Some(MetadataErrorKind::CrossMountRename),
        MetadataErrorKindProto::MetadataErrorKindBusy => Some(MetadataErrorKind::Busy),
        MetadataErrorKindProto::MetadataErrorKindConflict => Some(MetadataErrorKind::Conflict),
        MetadataErrorKindProto::MetadataErrorKindNotLeader => Some(MetadataErrorKind::NotLeader),
        MetadataErrorKindProto::MetadataErrorKindStaleState => Some(MetadataErrorKind::StaleState),
        MetadataErrorKindProto::MetadataErrorKindMountEpochMismatch => Some(MetadataErrorKind::MountEpochMismatch),
        MetadataErrorKindProto::MetadataErrorKindRouteEpochMismatch => Some(MetadataErrorKind::RouteEpochMismatch),
        MetadataErrorKindProto::MetadataErrorKindOwnerGroupMismatch => Some(MetadataErrorKind::OwnerGroupMismatch),
        MetadataErrorKindProto::MetadataErrorKindGroupMismatch => Some(MetadataErrorKind::GroupMismatch),
        MetadataErrorKindProto::MetadataErrorKindFencing => Some(MetadataErrorKind::Fencing),
        MetadataErrorKindProto::MetadataErrorKindSessionInvalid => Some(MetadataErrorKind::SessionInvalid),
        MetadataErrorKindProto::MetadataErrorKindSessionExpired => Some(MetadataErrorKind::SessionExpired),
        MetadataErrorKindProto::MetadataErrorKindEpochMismatch => Some(MetadataErrorKind::EpochMismatch),
        MetadataErrorKindProto::MetadataErrorKindResourceExhausted => Some(MetadataErrorKind::ResourceExhausted),
    }
}

/// The wire value of a kind.
pub open spec fn metadata_kind_encode(kind: MetadataErrorKind) -> MetadataErrorKindProto {
    match kind {
        MetadataErrorKind::NotFound => MetadataErrorKindProto::MetadataErrorKindNotFound,
        MetadataErrorKind::AlreadyExists => MetadataErrorKindProto::MetadataErrorKindAlreadyExists,
        MetadataErrorKind::NotDirectory => MetadataErrorKindProto::MetadataErrorKindNotDirectory,
        MetadataErrorKind::IsDirectory => MetadataErrorKindProto::MetadataErrorKindIsDirectory,
        MetadataErrorKind::DirectoryNotEmpty => MetadataErrorKindProto::MetadataErrorKindDirectoryNotEmpty,
        MetadataErrorKind::CrossMountRename => MetadataErrorKindProto::MetadataErrorKindCrossMountRename,
        MetadataErrorKind::Busy => MetadataErrorKindProto::MetadataErrorKindBusy,
        MetadataErrorKind::Conflict => MetadataErrorKindProto::MetadataErrorKindConflict,
        MetadataErrorKind::NotLeader => MetadataErrorKindProto::MetadataErrorKindNotLeader,
        MetadataErrorKind::StaleState => MetadataErrorKindProto::MetadataErrorKindStaleState,
        MetadataErrorKind::MountEpochMismatch => MetadataErrorKindProto::MetadataErrorKindMountEpochMismatch,
        MetadataErrorKind::RouteEpochMismatch => MetadataErrorKindProto::MetadataErrorKindRouteEpochMismatch,
        MetadataErrorKind::OwnerGroupMismatch => MetadataErrorKindProto::MetadataErrorKindOwnerGroupMismatch,
        MetadataErrorKind::GroupMismatch => MetadataErrorKindProto::MetadataErrorKindGroupMismatch,
        MetadataErrorKind::Fencing => MetadataErrorKindProto::MetadataErrorKindFencing,
        MetadataErrorKind::SessionInvalid => MetadataErrorKindProto::MetadataErrorKindSessionInvalid,
        MetadataErrorKind::SessionExpired => MetadataErrorKindProto::MetadataErrorKindSessionExpired,
        MetadataErrorKind::EpochMismatch => MetadataErrorKindProto::MetadataErrorKindEpochMismatch,
        MetadataErrorKind::ResourceExhausted => MetadataErrorKindProto::MetadataErrorKindResourceExhausted,
    }
}

/// Returns the kind that a wire value names.
pub fn metadata_kind_proto_to_kind(kind: MetadataErrorKindProto) -> (r: Option<MetadataErrorKind>)
    ensures
        r == metadata_kind_decode(kind),
{
    match kind {
        MetadataErrorKindProto::MetadataErrorKindUnspecified => None,
        MetadataErrorKindProto::MetadataErrorKindNotFound => Some(MetadataErrorKind::NotFound),
        MetadataErrorKindProto::MetadataErrorKindAlreadyExists => Some(MetadataErrorKind::AlreadyExists),
        MetadataErrorKindProto::MetadataErrorKindNotDirectory => Some(MetadataErrorKind::NotDirectory),
        MetadataErrorKindProto::MetadataErrorKindIsDirectory => Some(MetadataErrorKind::IsDirectory),
        MetadataErrorKindProto::MetadataErrorKindDirectoryNotEmpty => Some(MetadataErrorKind::DirectoryNotEmpty),
        MetadataErrorKindProto::MetadataErrorKindCrossMountRename => Some(MetadataErrorKind::CrossMountRename),
        MetadataErrorKindProto::MetadataErrorKindBusy => Some(MetadataErrorKind::Busy),
        MetadataErrorKindProto::MetadataErrorKindConflict => Some(MetadataErrorKind::Conflict),
        MetadataErrorKindProto::MetadataErrorKindNotLeader => Some(MetadataErrorKind::NotLeader),
        MetadataErrorKindProto::MetadataErrorKindStaleState => Some(MetadataErrorKind::StaleState),
        MetadataErrorKindProto::MetadataErrorKindMountEpochMismatch => Some(MetadataErrorKind::MountEpochMismatch),
        MetadataErrorKindProto::MetadataErrorKindRouteEpochMismatch => Some(MetadataErrorKind::RouteEpochMismatch),
        MetadataErrorKindProto::MetadataErrorKindOwnerGroupMismatch => Some(MetadataErrorKind::OwnerGroupMismatch),
        MetadataErrorKindProto::MetadataErrorKindGroupMismatch => Some(MetadataErrorKind::GroupMismatch),
        MetadataErrorKindProto::MetadataErrorKindFencing => Some(MetadataErrorKind::Fencing),
        MetadataErrorKindProto::MetadataErrorKindSessionInvalid => Some(MetadataErrorKind::SessionInvalid),
        MetadataErrorKindProto::MetadataErrorKindSessionExpired => Some(MetadataErrorKind::SessionExpired),
        MetadataErrorKindProto::MetadataErrorKindEpochMismatch => Some(MetadataErrorKind::EpochMismatch),
        MetadataErrorKindProto::MetadataErrorKindResourceExhausted => Some(MetadataErrorKind::ResourceExhausted),
    }
}

/// Returns the wire value of a kind.
pub fn metadata_kind_to_proto(kind: MetadataErrorKind) -> (r: MetadataErrorKindProto)
    ensures
        r == metadata_kind_encode(kind),
{
    match kind {
        MetadataErrorKind::NotFound => MetadataErrorKindProto::MetadataErrorKindNotFound,
        MetadataErrorKind::AlreadyExists => MetadataErrorKindProto::MetadataErrorKindAlreadyExists,
        MetadataErrorKind::NotDirectory => MetadataErrorKindProto::MetadataErrorKindNotDirectory,
        MetadataErrorKind::IsDirectory => MetadataErrorKindProto::MetadataErrorKindIsDirectory,
        MetadataErrorKind::DirectoryNotEmpty => MetadataErrorKindProto::MetadataErrorKindDirectoryNotEmpty,
        MetadataErrorKind::CrossMountRename => MetadataErrorKindProto::MetadataErrorKindCrossMountRename,
        MetadataErrorKind::Busy => MetadataErrorKindProto::MetadataErrorKindBusy,
        MetadataErrorKind::Conflict => MetadataErrorKindProto::MetadataErrorKindConflict,
        MetadataErrorKind::NotLeader => MetadataErrorKindProto::MetadataErrorKindNotLeader,
        MetadataErrorKind::StaleState => MetadataErrorKindProto::MetadataErrorKindStaleState,
        MetadataErrorKind::MountEpochMismatch => MetadataErrorKindProto::MetadataErrorKindMountEpochMismatch,
        MetadataErrorKind::RouteEpochMismatch => MetadataErrorKindProto::MetadataErrorKindRouteEpochMismatch,
        MetadataErrorKind::OwnerGroupMismatch => MetadataErrorKindProto::MetadataErrorKindOwnerGroupMismatch,
        MetadataErrorKind::GroupMismatch => MetadataErrorKindProto::MetadataErrorKindGroupMismatch,
        MetadataErrorKind::Fencing => MetadataErrorKindProto::MetadataErrorKindFencing,
        MetadataErrorKind::SessionInvalid => MetadataErrorKindProto::MetadataErrorKindSessionInvalid,
        MetadataErrorKind::SessionExpired => MetadataErrorKindProto::MetadataErrorKindSessionExpired,
        MetadataErrorKind::EpochMismatch => MetadataErrorKindProto::MetadataErrorKindEpochMismatch,
        MetadataErrorKind::ResourceExhausted => MetadataErrorKindProto::MetadataErrorKindResourceExhausted,
    }
}

/// Wire enumeration of `WorkerErrorKind`.
#[derive(Clone, Copy, Debug, PartialEq, Eq, Hash, Structural)]
pub enum WorkerErrorKindProto {
    WorkerErrorKindUnspecified,
    WorkerErrorKindNotRegistered,
    WorkerErrorKindRunMismatch,
    WorkerErrorKindDescriptorMismatch,
    WorkerErrorKindFullReportRequired,
    WorkerErrorKindBlockLocationUnavailable,
    WorkerErrorKindNodeUnavailable,
    WorkerErrorKindTimeout,
    WorkerErrorKindResourceExhausted,
    WorkerErrorKindConflict,
    WorkerErrorKindCorrupt,
    WorkerErrorKindFencing,
    WorkerErrorKindCancelled,
    WorkerErrorKindIo,
    WorkerErrorKindNotFound,
}

impl WorkerErrorKindProto {
    /// The wire number of this value.
    pub open spec fn raw(self) -> i32 {
        match self {
            WorkerErrorKindProto::WorkerErrorKindUnspecified => 0,
            WorkerErrorKindProto::WorkerErrorKindNotRegistered => 1,
            WorkerErrorKindProto::WorkerErrorKindRunMismatch => 2,
            WorkerErrorKindProto::WorkerErrorKindDescriptorMismatch => 3,
            WorkerErrorKindProto::WorkerErrorKindFullReportRequired => 4,
            WorkerErrorKindProto::WorkerErrorKindBlockLocationUnavailable => 5,
            WorkerErrorKindProto::WorkerErrorKindNodeUnavailable => 6,
            WorkerErrorKindProto::WorkerErrorKindTimeout => 7,
            WorkerErrorKindProto::WorkerErrorKindResourceExhausted => 8,
            WorkerErrorKindProto::WorkerErrorKindConflict => 9,
            WorkerErrorKindProto::WorkerErrorKindCorrupt => 10,
            WorkerErrorKindProto::WorkerErrorKindFencing => 11,
            WorkerErrorKindProto::WorkerErrorKindCancelled => 12,
            WorkerErrorKindProto::WorkerErrorKindIo => 13,
            WorkerErrorKindProto::WorkerErrorKindNotFound => 14,
        }
    }

    /// The value with this wire number, if there is one.
    pub open spec fn of_raw(raw: i32) -> Option<WorkerErrorKindProto> {
        match raw {
            0 => Some(WorkerErrorKindProto::WorkerErrorKindUnspecified),
            1 => Some(WorkerErrorKindProto::WorkerErrorKindNotRegistered),
            2 => Some(WorkerErrorKindProto::WorkerErrorKindRunMismatch),
            3 => Some(WorkerErrorKindProto::WorkerErrorKindDescriptorMismatch),
            4 => Some(WorkerErrorKindProto::WorkerErrorKindFullReportRequired),
            5 => Some(WorkerErrorKindProto::WorkerErrorKindBlockLocationUnavailable),
            6 => Some(WorkerErrorKindProto::WorkerErrorKindNodeUnavailable),
            7 => Some(WorkerErrorKindProto::WorkerErrorKindTimeout),
            8 => Some(WorkerErrorKindProto::WorkerErrorKindResourceExhausted),
            9 => Some(WorkerErrorKindProto::WorkerErrorKindConflict),
            10 => Some(WorkerErrorKindProto::WorkerErrorKindCorrupt),
            11 => Some(WorkerErrorKindProto::WorkerErrorKindFencing),
            12 => Some(WorkerErrorKindProto::WorkerErrorKindCancelled),
            13 => Some(WorkerErrorKindProto::WorkerErrorKindIo),
            14 => Some(WorkerErrorKindProto::WorkerErrorKindNotFound),
            _ => None,
        }
    }

    /// Returns the wire number of this value.
    pub fn as_raw(self) -> (r: i32)
        ensures
            r == self.raw(),
    {
        match self {
            WorkerErrorKindProto::WorkerErrorKindUnspecified => 0,
            WorkerErrorKindProto::WorkerErrorKindNotRegistered => 1,
            WorkerErrorKindProto::WorkerErrorKindRunMismatch => 2,
            WorkerErrorKindProto::WorkerErrorKindDescriptorMismatch => 3,
            WorkerErrorKindProto::WorkerErrorKindFullReportRequired => 4,
            WorkerErrorKindProto::WorkerErrorKindBlockLocationUnavailable => 5,
            WorkerErrorKindProto::WorkerErrorKindNodeUnavailable => 6,
            WorkerErrorKindProto::WorkerErrorKindTimeout => 7,
            WorkerErrorKindProto::WorkerErrorKindResourceExhausted => 8,
            WorkerErrorKindProto::WorkerErrorKindConflict => 9,
            WorkerErrorKindProto::WorkerErrorKindCorrupt => 10,
            WorkerErrorKindProto::WorkerErrorKindFencing => 11,
            WorkerErrorKindProto::WorkerErrorKindCancelled => 12,
            WorkerErrorKindProto::WorkerErrorKindIo => 13,
            WorkerErrorKindProto::WorkerErrorKindNotFound => 14,
        }
    }

    /// Returns the value with this wire number, if there is one.
    pub fn from_raw(raw: i32) -> (r: Option<WorkerErrorKindProto>)
        ensures
            r == Self::of_raw(raw),
    {
        match raw {
            0 => Some(WorkerErrorKindProto::WorkerErrorKindUnspecified),
            1 => Some(WorkerErrorKindProto::WorkerErrorKindNotRegistered),
            2 => Some(WorkerErrorKindProto::WorkerErrorKindRunMismatch),
            3 => Some(WorkerErrorKindProto::WorkerErrorKindDescriptorMismatch),
            4 => Some(WorkerErrorKindProto::WorkerErrorKindFullReportRequired),
            5 => Some(WorkerErrorKindProto::WorkerErrorKindBlockLocationUnavailable),
            6 => Some(WorkerErrorKindProto::WorkerErrorKindNodeUnavailable),
            7 => Some(WorkerErrorKindProto::WorkerErrorKindTimeout),
            8 => Some(WorkerErrorKindProto::WorkerErrorKindResourceExhausted),
            9 => Some(WorkerErrorKindProto::WorkerErrorKindConflict),
            10 => Some(WorkerErrorKindProto::WorkerErrorKindCorrupt),
            11 => Some(WorkerErrorKindProto::WorkerErrorKindFencing),
            12 => Some(WorkerErrorKindProto::WorkerErrorKindCancelled),
            13 => Some(WorkerErrorKindProto::WorkerErrorKindIo),
            14 => Some(WorkerErrorKindProto::WorkerErrorKindNotFound),
            _ => None,
        }
    }
}

/// The kind that a wire value names. The unspecified value names none.
pub open spec fn worker_kind_decode(kind: WorkerErrorKindProto) -> Option<WorkerErrorKind> {
    match kind {
        WorkerErrorKindProto::WorkerErrorKindUnspecified => None,
        WorkerErrorKindProto::WorkerErrorKindNotRegistered => Some(WorkerErrorKind::NotRegistered),
        WorkerErrorKindProto::WorkerErrorKindRunMismatch => Some(WorkerErrorKind::RunMismatch),
        WorkerErrorKindProto::WorkerErrorKindDescriptorMismatch => Some(WorkerErrorKind::DescriptorMismatch),
        WorkerErrorKindProto::WorkerErrorKindFullReportRequired => Some(WorkerErrorKind::FullReportRequired),
        WorkerErrorKindProto::WorkerErrorKindBlockLocationUnavailable => Some(WorkerErrorKind::BlockLocationUnavailable),
        WorkerErrorKindProto::WorkerErrorKindNodeUnavailable => Some(WorkerErrorKind::NodeUnavailable),
        WorkerErrorKindProto::WorkerErrorKindTimeout => Some(WorkerErrorKind::Timeout),
        WorkerErrorKindProto::WorkerErrorKindResourceExhausted => Some(WorkerErrorKind::ResourceExhausted),
        WorkerErrorKindProto::WorkerErrorKindConflict => Some(WorkerErrorKind::Conflict),
        WorkerErrorKindProto::WorkerErrorKindCorrupt => Some(WorkerErrorKind::Corrupt),
        WorkerErrorKindProto::WorkerErrorKindFencing => Some(WorkerErrorKind::Fencing),
        WorkerErrorKindProto::WorkerErrorKindCancelled => Some(WorkerErrorKind::Cancelled),
        WorkerErrorKindProto::WorkerErrorKindIo => Some(WorkerErrorKind::Io),
        WorkerErrorKindProto::WorkerErrorKindNotFound => Some(WorkerErrorKind::NotFound),
    }
}

/// The wire value of a kind.
pub open spec fn worker_kind_encode(kind: WorkerErrorKind) -> WorkerErrorKindProto {
    match kind {
        WorkerErrorKind::NotRegistered => WorkerErrorKindProto::WorkerErrorKindNotRegistered,
        WorkerErrorKind::RunMismatch => WorkerErrorKindProto::WorkerErrorKindRunMismatch,
        WorkerErrorKind::DescriptorMismatch => WorkerErrorKindProto::WorkerErrorKindDescriptorMismatch,
        WorkerErrorKind::FullReportRequired => WorkerErrorKindProto::WorkerErrorKindFullReportRequired,
        WorkerErrorKind::BlockLocationUnavailable => WorkerErrorKindProto::WorkerErrorKindBlockLocationUnavailable,
        WorkerErrorKind::NodeUnavailable => WorkerErrorKindProto::WorkerErrorKindNodeUnavailable,
        WorkerErrorKind::Timeout => WorkerErrorKindProto::WorkerErrorKindTimeout,
        WorkerErrorKind::ResourceExhausted => WorkerErrorKindProto::WorkerErrorKindResourceExhausted,
        WorkerErrorKind::Conflict => WorkerErrorKindProto::WorkerErrorKindConflict,
        WorkerErrorKind::Corrupt => WorkerErrorKindProto::WorkerErrorKindCorrupt,
        WorkerErrorKind::Fencing => WorkerErrorKindProto::WorkerErrorKindFencing,
        WorkerErrorKind::Cancelled => WorkerErrorKindProto::WorkerErrorKindCancelled,
        WorkerErrorKind::Io => WorkerErrorKindProto::WorkerErrorKindIo,
        WorkerErrorKind::NotFound => WorkerErrorKindProto::WorkerErrorKindNotFound,
    }
}

/// Returns the kind that a wire value names.
pub fn worker_kind_proto_to_kind(kind: WorkerErrorKindProto) -> (r: Option<WorkerErrorKind>)
    ensures
        r == worker_kind_decode(kind),
{
    match kind {
        WorkerErrorKindProto::WorkerErrorKindUnspecified => None,
        WorkerErrorKindProto::WorkerErrorKindNotRegistered => Some(WorkerErrorKind::NotRegistered),
        WorkerErrorKindProto::WorkerErrorKindRunMismatch => Some(WorkerErrorKind::RunMismatch),
        WorkerErrorKindProto::WorkerErrorKindDescriptorMismatch => Some(WorkerErrorKind::DescriptorMismatch),
        WorkerErrorKindProto::WorkerErrorKindFullReportRequired => Some(WorkerErrorKind::FullReportRequired),
        WorkerErrorKindProto::WorkerErrorKindBlockLocationUnavailable => Some(WorkerErrorKind::BlockLocationUnavailable),
        WorkerErrorKindProto::WorkerErrorKindNodeUnavailable => Some(WorkerErrorKind::NodeUnavailable),
        WorkerErrorKindProto::WorkerErrorKindTimeout => Some(WorkerErrorKind::Timeout),
        WorkerErrorKindProto::WorkerErrorKindResourceExhausted => Some(WorkerErrorKind::ResourceExhausted),
        WorkerErrorKindProto::WorkerErrorKindConflict => Some(WorkerErrorKind::Conflict),
        WorkerErrorKindProto::WorkerErrorKindCorrupt => Some(WorkerErrorKind::Corrupt),
        WorkerErrorKindProto::WorkerErrorKindFencing => Some(WorkerErrorKind::Fencing),
        WorkerErrorKindProto::WorkerErrorKindCancelled => Some(WorkerErrorKind::Cancelled),
        WorkerErrorKindProto::WorkerErrorKindIo => Some(WorkerErrorKind::Io),
        WorkerErrorKindProto::WorkerErrorKindNotFound => Some(WorkerErrorKind::NotFound),
    }
}

/// Returns the wire value of a kind.
pub fn worker_kind_to_proto(kind: WorkerErrorKind) -> (r: WorkerErrorKindProto)
    ensures
        r == worker_kind_encode(kind),
{
    match kind {
        WorkerErrorKind::NotRegistered => WorkerErrorKindProto::WorkerErrorKindNotRegistered,
        WorkerErrorKind::RunMismatch => WorkerErrorKindProto::WorkerErrorKindRunMismatch,
        WorkerErrorKind::DescriptorMismatch => WorkerErrorKindProto::WorkerErrorKindDescriptorMismatch,
        WorkerErrorKind::FullReportRequired => WorkerErrorKindProto::WorkerErrorKindFullReportRequired,
        WorkerErrorKind::BlockLocationUnavailable => WorkerErrorKindProto::WorkerErrorKindBlockLocationUnavailable,
        WorkerErrorKind::NodeUnavailable => WorkerErrorKindProto::WorkerErrorKindNodeUnavailable,
        WorkerErrorKind::Timeout => WorkerErrorKindProto::WorkerErrorKindTimeout,
        WorkerErrorKind::ResourceExhausted => WorkerErrorKindProto::WorkerErrorKindResourceExhausted,
        WorkerErrorKind::Conflict => WorkerErrorKindProto::WorkerErrorKindConflict,
        WorkerErrorKind::Corrupt => WorkerErrorKindProto::WorkerErrorKindCorrupt,
        WorkerErrorKind::Fencing => WorkerErrorKindProto::WorkerErrorKindFencing,
        WorkerErrorKind::Cancelled => WorkerErrorKindProto::WorkerErrorKindCancelled,
        WorkerErrorKind::Io => WorkerErrorKindProto::WorkerErrorKindIo,
        WorkerErrorKind::NotFound => WorkerErrorKindProto::WorkerErrorKindNotFound,
    }
}

/// Wire enumeration of `ProtocolErrorKind`.
#[derive(Clone, Copy, Debug, PartialEq, Eq, Hash, Structural)]
pub enum ProtocolErrorKindProto {
    ProtocolErrorKindUnspecified,
    ProtocolErrorKindInvalidHeader,
    ProtocolErrorKindInvalidArgument,
    ProtocolErrorKindPermissionDenied,
    ProtocolErrorKindUnsupported,
    ProtocolErrorKindCancelled,
    ProtocolErrorKindCorrupt,
}

impl ProtocolErrorKindProto {
    /// The wire number of this value.
    pub open spec fn raw(self) -> i32 {
        match self {
            ProtocolErrorKindProto::ProtocolErrorKindUnspecified => 0,
            ProtocolErrorKindProto::ProtocolErrorKindInvalidHeader => 1,
            ProtocolErrorKindProto::ProtocolErrorKindInvalidArgument => 2,
            ProtocolErrorKindProto::ProtocolErrorKindPermissionDenied => 3,
            ProtocolErrorKindProto::ProtocolErrorKindUnsupported => 4,
            ProtocolErrorKindProto::ProtocolErrorKindCancelled => 5,
            ProtocolErrorKindProto::ProtocolErrorKindCorrupt => 6,
        }
    }

    /// The value with this wire number, if there is one.
    pub open spec fn of_raw(raw: i32) -> Option<ProtocolErrorKindProto> {
        match raw {
            0 => Some(ProtocolErrorKindProto::ProtocolErrorKindUnspecified),
            1 => Some(ProtocolErrorKindProto::ProtocolErrorKindInvalidHeader),
            2 => Some(ProtocolErrorKindProto::ProtocolErrorKindInvalidArgument),
            3 => Some(ProtocolErrorKindProto::ProtocolErrorKindPermissionDenied),
            4 => Some(ProtocolErrorKindProto::ProtocolErrorKindUnsupported),
            5 => Some(ProtocolErrorKindProto::ProtocolErrorKindCancelled),
            6 => Some(ProtocolErrorKindProto::ProtocolErrorKindCorrupt),
            _ => None,
        }
    }

    /// Returns the wire number of this value.
    pub fn as_raw(self) -> (r: i32)
        ensures
            r == self.raw(),
    {
        match self {
            ProtocolErrorKindProto::ProtocolErrorKindUnspecified => 0,
            ProtocolErrorKindProto::ProtocolErrorKindInvalidHeader => 1,
            ProtocolErrorKindProto::ProtocolErrorKindInvalidArgument => 2,
            ProtocolErrorKindProto::ProtocolErrorKindPermissionDenied => 3,
            ProtocolErrorKindProto::ProtocolErrorKindUnsupported => 4,
            ProtocolErrorKindProto::ProtocolErrorKindCancelled => 5,
            ProtocolErrorKindProto::ProtocolErrorKindCorrupt => 6,
        }
    }

    /// Returns the value with this wire number, if there is one.
    pub fn from_raw(raw: i32) -> (r: Option<ProtocolErrorKindProto>)
        ensures
            r == Self::of_raw(raw),
    {
        match raw {
            0 => Some(ProtocolErrorKindProto::ProtocolErrorKindUnspecified),
            1 => Some(ProtocolErrorKindProto::ProtocolErrorKindInvalidHeader),
            2 => Some(ProtocolErrorKindProto::ProtocolErrorKindInvalidArgument),
            3 => Some(ProtocolErrorKindProto::ProtocolErrorKindPermissionDenied),
            4 => Some(ProtocolErrorKindProto::ProtocolErrorKindUnsupported),
            5 => Some(ProtocolErrorKindProto::ProtocolErrorKindCancelled),
            6 => Some(ProtocolErrorKindProto::ProtocolErrorKindCorrupt),
            _ => None,
        }
    }
}

/// The kind that a wire value names. The unspecified value names none.
pub open spec fn protocol_kind_decode(kind: ProtocolErrorKindProto) -> Option<ProtocolErrorKind> {
    match kind {
        ProtocolErrorKindProto::ProtocolErrorKindUnspecified => None,
        ProtocolErrorKindProto::ProtocolErrorKindInvalidHeader => Some(ProtocolErrorKind::InvalidHeader),
        ProtocolErrorKindProto::ProtocolErrorKindInvalidArgument => Some(ProtocolErrorKind::InvalidArgument),
        ProtocolErrorKindProto::ProtocolErrorKindPermissionDenied => Some(ProtocolErrorKind::PermissionDenied),
        ProtocolErrorKindProto::ProtocolErrorKindUnsupported => Some(ProtocolErrorKind::Unsupported),
        ProtocolErrorKindProto::ProtocolErrorKindCancelled => Some(ProtocolErrorKind::Cancelled),
        ProtocolErrorKindProto::ProtocolErrorKindCorrupt => Some(ProtocolErrorKind::Corrupt),
    }
}

/// The wire value of a kind.
pub open spec fn protocol_kind_encode(kind: ProtocolErrorKind) -> ProtocolErrorKindProto {
    match kind {
        ProtocolErrorKind::InvalidHeader => ProtocolErrorKindProto::ProtocolErrorKindInvalidHeader,
        ProtocolErrorKind::InvalidArgument => ProtocolErrorKindProto::ProtocolErrorKindInvalidArgument,
        ProtocolErrorKind::PermissionDenied => ProtocolErrorKindProto::ProtocolErrorKindPermissionDenied,
        ProtocolErrorKind::Unsupported => ProtocolErrorKindProto::ProtocolErrorKindUnsupported,
        ProtocolErrorKind::Cancelled => ProtocolErrorKindProto::ProtocolErrorKindCancelled,
        ProtocolErrorKind::Corrupt => ProtocolErrorKindProto::ProtocolErrorKindCorrupt,
    }
}

/// Returns the kind that a wire value names.
pub fn protocol_kind_proto_to_kind(kind: ProtocolErrorKindProto) -> (r: Option<ProtocolErrorKind>)
    ensures
        r == protocol_kind_decode(kind),
{
    match kind {
        ProtocolErrorKindProto::ProtocolErrorKindUnspecified => None,
        ProtocolErrorKindProto::ProtocolErrorKindInvalidHeader => Some(ProtocolErrorKind::InvalidHeader),
        ProtocolErrorKindProto::ProtocolErrorKindInvalidArgument => Some(ProtocolErrorKind::InvalidArgument),
        ProtocolErrorKindProto::ProtocolErrorKindPermissionDenied => Some(ProtocolErrorKind::PermissionDenied),
        ProtocolErrorKindProto::ProtocolErrorKindUnsupported => Some(ProtocolErrorKind::Unsupported),
        ProtocolErrorKindProto::ProtocolErrorKindCancelled => Some(ProtocolErrorKind::Cancelled),
        ProtocolErrorKindProto::ProtocolErrorKindCorrupt => Some(ProtocolErrorKind::Corrupt),
    }
}

/// Returns the wire value of a kind.
pub fn protocol_kind_to_proto(kind: ProtocolErrorKind) -> (r: ProtocolErrorKindProto)
    ensures
        r == protocol_kind_encode(kind),
{
    match kind {
        ProtocolErrorKind::InvalidHeader => ProtocolErrorKindProto::ProtocolErrorKindInvalidHeader,
        ProtocolErrorKind::InvalidArgument => ProtocolErrorKindProto::ProtocolErrorKindInvalidArgument,
        ProtocolErrorKind::PermissionDenied => ProtocolErrorKindProto::ProtocolErrorKindPermissionDenied,
        ProtocolErrorKind::Unsupported => ProtocolErrorKindProto::ProtocolErrorKindUnsupported,
        ProtocolErrorKind::Cancelled => ProtocolErrorKindProto::ProtocolErrorKindCancelled,
        ProtocolErrorKind::Corrupt => ProtocolErrorKindProto::ProtocolErrorKindCorrupt,
    }
}

/// Wire enumeration of `InternalErrorKind`.
#[derive(Clone, Copy, Debug, PartialEq, Eq, Hash, Structural)]
pub enum InternalErrorKindProto {
    InternalErrorKindUnspecified,
    InternalErrorKindNodeUnavailable,
    InternalErrorKindTimeout,
    InternalErrorKindResourceExhausted,
    InternalErrorKindCancelled,
    InternalErrorKindCorrupt,
    InternalErrorKindInternal,
}

impl InternalErrorKindProto {
    /// The wire number of this value.
    pub open spec fn raw(self) -> i32 {
        match self {
            InternalErrorKindProto::InternalErrorKindUnspecified => 0,
            InternalErrorKindProto::InternalErrorKindNodeUnavailable => 1,
            InternalErrorKindProto::InternalErrorKindTimeout => 2,
            InternalErrorKindProto::InternalErrorKindResourceExhausted => 3,
            InternalErrorKindProto::InternalErrorKindCancelled => 4,
            InternalErrorKindProto::InternalErrorKindCorrupt => 5,
            InternalErrorKindProto::InternalErrorKindInternal => 6,
        }
    }

    /// The value with this wire number, if there is one.
    pub open spec fn of_raw(raw: i32) -> Option<InternalErrorKindProto> {
        match raw {
            0 => Some(InternalErrorKindProto::InternalErrorKindUnspecified),
            1 => Some(InternalErrorKindProto::InternalErrorKindNodeUnavailable),
            2 => Some(InternalErrorKindProto::InternalErrorKindTimeout),
            3 => Some(InternalErrorKindProto::InternalErrorKindResourceExhausted),
            4 => Some(InternalErrorKindProto::InternalErrorKindCancelled),
            5 => Some(InternalErrorKindProto::InternalErrorKindCorrupt),
            6 => Some(InternalErrorKindProto::InternalErrorKindInternal),
            _ => None,
        }
    }

    /// Returns the wire number of this value.
    pub fn as_raw(self) -> (r: i32)
        ensures
            r == self.raw(),
    {
        match self {
            InternalErrorKindProto::InternalErrorKindUnspecified => 0,
            InternalErrorKindProto::InternalErrorKindNodeUnavailable => 1,
            InternalErrorKindProto::InternalErrorKindTimeout => 2,
            InternalErrorKindProto::InternalErrorKindResourceExhausted => 3,
            InternalErrorKindProto::InternalErrorKindCancelled => 4,
            InternalErrorKindProto::InternalErrorKindCorrupt => 5,
            InternalErrorKindProto::InternalErrorKindInternal => 6,
        }
    }

    /// Returns the value with this wire number, if there is one.
    pub fn from_raw(raw: i32) -> (r: Option<InternalErrorKindProto>)
        ensures
            r == Self::of_raw(raw),
    {
        match raw {
            0 => Some(InternalErrorKindProto::InternalErrorKindUnspecified),
            1 => Some(InternalErrorKindProto::InternalErrorKindNodeUnavailable),
            2 => Some(InternalErrorKindProto::InternalErrorKindTimeout),
            3 => Some(InternalErrorKindProto::InternalErrorKindResourceExhausted),
            4 => Some(InternalErrorKindProto::InternalErrorKindCancelled),
            5 => Some(InternalErrorKindProto::InternalErrorKindCorrupt),
            6 => Some(InternalErrorKindProto::InternalErrorKindInternal),
            _ => None,
        }
    }
}

/// The kind that a wire value names. The unspecified value names none.
pub open spec fn internal_kind_decode(kind: InternalErrorKindProto) -> Option<InternalErrorKind> {
    match kind {
        InternalErrorKindProto::InternalErrorKindUnspecified => None,
        InternalErrorKindProto::InternalErrorKindNodeUnavailable => Some(InternalErrorKind::NodeUnavailable),
        InternalErrorKindProto::InternalErrorKindTimeout => Some(InternalErrorKind::Timeout),
        InternalErrorKindProto::InternalErrorKindResourceExhausted => Some(InternalErrorKind::ResourceExhausted),
        InternalErrorKindProto::InternalErrorKindCancelled => Some(InternalErrorKind::Cancelled),
        InternalErrorKindProto::InternalErrorKindCorrupt => Some(InternalErrorKind::Corrupt),
        InternalErrorKindProto::InternalErrorKindInternal => Some(InternalErrorKind::Internal),
    }
}

/// The wire value of a kind.
pub open spec fn internal_kind_encode(kind: InternalErrorKind) -> InternalErrorKindProto {
    match kind {
        InternalErrorKind::NodeUnavailable => InternalErrorKindProto::InternalErrorKindNodeUnavailable,
        InternalErrorKind::Timeout => InternalErrorKindProto::InternalErrorKindTimeout,
        InternalErrorKind::ResourceExhausted => InternalErrorKindProto::InternalErrorKindResourceExhausted,
        InternalErrorKind::Cancelled => InternalErrorKindProto::InternalErrorKindCancelled,
        InternalErrorKind::Corrupt => InternalErrorKindProto::InternalErrorKindCorrupt,
        InternalErrorKind::Internal => InternalErrorKindProto::InternalErrorKindInternal,
    }
}

/// Returns the kind that a wire value names.
pub fn internal_kind_proto_to_kind(kind: InternalErrorKindProto) -> (r: Option<InternalErrorKind>)
    ensures
        r == internal_kind_decode(kind),
{
    match kind {
        InternalErrorKindProto::InternalErrorKindUnspecified => None,
        InternalErrorKindProto::InternalErrorKindNodeUnavailable => Some(InternalErrorKind::NodeUnavailable),
        InternalErrorKindProto::InternalErrorKindTimeout => Some(InternalErrorKind::Timeout),
        InternalErrorKindProto::InternalErrorKindResourceExhausted => Some(InternalErrorKind::ResourceExhausted),
        InternalErrorKindProto::InternalErrorKindCancelled => Some(InternalErrorKind::Cancelled),
        InternalErrorKindProto::InternalErrorKindCorrupt => Some(InternalErrorKind::Corrupt),
        InternalErrorKindProto::InternalErrorKindInternal => Some(InternalErrorKind::Internal),
    }
}

/// Returns the wire value of a kind.
pub fn internal_kind_to_proto(kind: InternalErrorKind) -> (r: InternalErrorKindProto)
    ensures
        r == internal_kind_encode(kind),
{
    match kind {
        InternalErrorKind::NodeUnavailable => InternalErrorKindProto::InternalErrorKindNodeUnavailable,
        InternalErrorKind::Timeout => InternalErrorKindProto::InternalErrorKindTimeout,
        InternalErrorKind::ResourceExhausted => InternalErrorKindProto::InternalErrorKindResourceExhausted,
        InternalErrorKind::Cancelled => InternalErrorKindProto::InternalErrorKindCancelled,
        InternalErrorKind::Corrupt => InternalErrorKindProto::InternalErrorKindCorrupt,
        InternalErrorKind::Internal => InternalErrorKindProto::InternalErrorKindInternal,
    }
}

/// Which failure kind a wire error names, by number.
#[derive(Clone, Copy, Debug, PartialEq, Eq, Hash, Structural)]
pub enum Kind {
    Metadata(i32),
    Worker(i32),
    Protocol(i32),
    Internal(i32),
}

/// Wire form of `ErrorKind`.
#[derive(Clone, Copy, Debug, PartialEq, Eq, Hash, Structural)]
pub struct ErrorKindProto {
    pub kind: Option<Kind>,
}

/// The kind that a wire error names. An absent, unknown or unspecified one names none.
pub open spec fn error_kind_decode(kind: Option<ErrorKindProto>) -> Option<ErrorKind> {
    match kind {
        None => None,
        Some(k) => match k.kind {
            None => None,
            Some(Kind::Metadata(raw)) => match MetadataErrorKindProto::of_raw(raw) {
                None => None,
                Some(proto) => match metadata_kind_decode(proto) {
                    None => None,
                    Some(kind) => Some(ErrorKind::Metadata(kind)),
                },
            },
            Some(Kind::Worker(raw)) => match WorkerErrorKindProto::of_raw(raw) {
                None => None,
                Some(proto) => match worker_kind_decode(proto) {
                    None => None,
                    Some(kind) => Some(ErrorKind::Worker(kind)),
                },
            },
            Some(Kind::Protocol(raw)) => match ProtocolErrorKindProto::of_raw(raw) {
                None => None,
                Some(proto) => match protocol_kind_decode(proto) {
                    None => None,
                    Some(kind) => Some(ErrorKind::Protocol(kind)),
                },
            },
            Some(Kind::Internal(raw)) => match InternalErrorKindProto::of_raw(raw) {
                None => None,
                Some(proto) => match internal_kind_decode(proto) {
                    None => None,
                    Some(kind) => Some(ErrorKind::Internal(kind)),
                },
            },
        },
    }
}

/// The wire form of a kind.
pub open spec fn error_kind_encode(kind: ErrorKind) -> ErrorKindProto {
    ErrorKindProto {
        kind: Some(
            match kind {
                ErrorKind::Metadata(kind) => Kind::Metadata(metadata_kind_encode(kind).raw()),
                ErrorKind::Worker(kind) => Kind::Worker(worker_kind_encode(kind).raw()),
                ErrorKind::Protocol(kind) => Kind::Protocol(protocol_kind_encode(kind).raw()),
                ErrorKind::Internal(kind) => Kind::Internal(internal_kind_encode(kind).raw()),
            },
        ),
    }
}

/// Every kind survives the wire.
pub proof fn error_kind_round_trip(kind: ErrorKind)
    ensures
        error_kind_decode(Some(error_kind_encode(kind))) == Some(kind),
{
}

/// Returns the kind that a wire error names.
pub fn error_kind_proto_to_kind(kind: Option<ErrorKindProto>) -> (r: Option<ErrorKind>)
    ensures
        r == error_kind_decode(kind),
{
    let kind = match kind {
        Some(kind) => kind,
        None => return None,
    };
    match kind.kind {
        None => None,
        Some(Kind::Metadata(raw)) => match MetadataErrorKindProto::from_raw(raw) {
            None => None,
            Some(proto) => match metadata_kind_proto_to_kind(proto) {
                None => None,
                Some(kind) => Some(ErrorKind::Metadata(kind)),
            },
        },
        Some(Kind::Worker(raw)) => match WorkerErrorKindProto::from_raw(raw) {
            None => None,
            Some(proto) => match worker_kind_proto_to_kind(proto) {
                None => None,
                Some(kind) => Some(ErrorKind::Worker(kind)),
            },
        },
        Some(Kind::Protocol(raw)) => match ProtocolErrorKindProto::from_raw(raw) {
            None => None,
            Some(proto) => match protocol_kind_proto_to_kind(proto) {
                None => None,
                Some(kind) => Some(ErrorKind::Protocol(kind)),
            },
        },
        Some(Kind::Internal(raw)) => match InternalErrorKindProto::from_raw(raw) {
            None => None,
            Some(proto) => match internal_kind_proto_to_kind(proto) {
                None => None,
                Some(kind) => Some(ErrorKind::Internal(kind)),
            },
        },
    }
}

/// Returns the wire form of a kind.
pub fn error_kind_to_proto(kind: ErrorKind) -> (r: ErrorKindProto)
    ensures
        r == error_kind_encode(kind),
{
    let kind = match kind {
        ErrorKind::Metadata(kind) => Kind::Metadata(metadata_kind_to_proto(kind).as_raw()),
        ErrorKind::Worker(kind) => Kind::Worker(worker_kind_to_proto(kind).as_raw()),
        ErrorKind::Protocol(kind) => Kind::Protocol(protocol_kind_to_proto(kind).as_raw()),
        ErrorKind::Internal(kind) => Kind::Internal(internal_kind_to_proto(kind).as_raw()),
    };
    ErrorKindProto { kind: Some(kind) }
}

} // verus!
