//! What the wire keeps: every conversion names the fields that it carries over.

use vstd::prelude::*;

use crate::filesystem::context::{FsFailure, FsSuccess, RequestContext};
use crate::fs::{FileType, WriteMode};
use crate::group_watermark::{GroupStateWatermarkView, RaftLogId};
use crate::header::{ClientInfo, RequestHeader};
use crate::ids::{group_name_parse_optional, BlockId, ClientId, GroupName, GroupNameError};
use crate::layout::{FileLayout, DURABLE_PREFIX_STORAGE_CHUNK_SIZE, MAX_BLOCK_SIZE};
use crate::lease::{FencingToken, WriteHandle};
use crate::location::{CommittedBlock, FileBlockLocation, LocatedBlock};
use crate::outside_uuid::{hyphenated_text, uuid_parse};
use crate::proto::convert::{
    block_id_decode, block_id_encode, client_id_decode, client_id_encode, committed_block_decode,
    committed_block_encode, endpoint_decode, endpoint_encode, endpoints_decode,
    fencing_token_decode, fencing_token_encode, file_layout_decode, file_layout_encode,
    file_type_decode, file_type_encode, located_block_decode, location_decode, log_id_decode,
    log_id_encode, parse_known_tier, parse_write_mode, tier_decode, tier_encode, watermark_decode,
    watermark_encode, watermarks_decode, write_handle_decode, write_handle_encode,
    write_mode_decode, write_mode_encode,
};
use crate::proto::error_kind::{error_kind_decode, error_kind_encode, Kind};
use crate::proto::header::{
    decode_client_info, decode_request_header, refresh_hint_decode, refresh_hint_encode,
    rpc_error_from_proto, rpc_error_to_proto,
};
use crate::proto::message::{
    ActionView, BlockIdProto, ClientIdProto, ClientInfoProto, CommittedBlockProto,
    ErrorDetailProto, FencingTokenProto, FileBlockLocationProto, FileBlockLocationProtoView,
    FileLayoutProto, FileTypeProto, GroupStateWatermarkProtoView, LocatedBlockProto,
    LocatedBlockProtoView, OpenWriteModeProto, RaftLogIdProto, RefreshHintProtoView,
    RequestHeaderProto, ResponseHeaderProto, TierProto, WorkerEndpointInfoProtoView,
    WriteHandleProto,
};
use crate::rpc_error::{
    ErrorKind, InternalErrorKind, MetadataErrorKind, ProtocolErrorKind, RefreshHintView,
    RpcErrorDetail, WorkerErrorKind,
};
use crate::text::trimmed;
use crate::wire::{
    header_from_fs_failure, header_from_rpc_error, located_block_to_proto, location_to_proto,
    ok_header_from_fs_success, ok_header_from_request, request_context_from_proto,
};
use crate::worker_info::{Tier, WorkerEndpointInfoView};

verus! {

// ---- identities ----

/// A block is named on the wire by its inode and its index, and a message without an inode names
/// none.
pub proof fn block_numbers_are_kept(id: BlockId, message: BlockIdProto)
    ensures
        block_id_encode(id).inode_id == id.inode_id.0,
        block_id_encode(id).block_index == id.index.0,
        match block_id_decode(message) {
            Ok(named) => {
                &&& named.inode_id.0 == message.inode_id
                &&& named.index.0 == message.block_index
                &&& message.inode_id != 0
            },
            Err(_) => message.inode_id == 0,
        },
{
}

/// A client is named on the wire by the two halves of its number, the high one first. Only zero
/// names none.
pub proof fn client_numbers_are_kept(id: ClientId, message: ClientIdProto)
    ensures
        client_id_encode(id).high * 0x1_0000_0000_0000_0000 + client_id_encode(id).low == id.0,
        match client_id_decode(message) {
            Ok(named) => named.0 == message.high * 0x1_0000_0000_0000_0000 + message.low,
            Err(_) => message.high == 0 && message.low == 0,
        },
{
    let v = id.0;
    assert(v == ((v >> 64u128) as u64) as u128 * 0x1_0000_0000_0000_0000u128 + (v as u64) as u128)
        by (bit_vector);
    let high = message.high;
    let low = message.low;
    assert(((high as u128) << 64u128) | (low as u128) == (high as u128)
        * 0x1_0000_0000_0000_0000u128 + (low as u128)) by (bit_vector);
    assert(((high as u128) << 64u128) | (low as u128) == 0 ==> high == 0 && low == 0)
        by (bit_vector);
}

/// A write handle keeps its inode and its epoch, and names none without either.
pub proof fn handles_are_kept(handle: WriteHandle, message: WriteHandleProto)
    ensures
        write_handle_encode(handle).inode_id == handle.inode_id.0,
        write_handle_encode(handle).write_lease_epoch == handle.lease_epoch.0,
        match write_handle_decode(message) {
            Ok(named) => named.inode_id.0 == message.inode_id && named.lease_epoch.0
                == message.write_lease_epoch,
            Err(_) => message.inode_id == 0 || message.write_lease_epoch == 0,
        },
        message.inode_id != 0 && message.write_lease_epoch != 0 ==> write_handle_decode(
            message,
        ) is Ok,
        message.inode_id == 0 || message.write_lease_epoch == 0 ==> write_handle_decode(
            message,
        ) is Err,
{
}

/// A fencing token keeps its block, its owner and its epoch.
pub proof fn tokens_are_kept(token: FencingToken, message: FencingTokenProto)
    ensures
        ({
            let told = fencing_token_encode(token);
            &&& told.block_id is Some
            &&& (told.block_id->0).inode_id == token.block_id.inode_id.0
            &&& (told.block_id->0).block_index == token.block_id.index.0
            &&& told.owner is Some
            &&& (told.owner->0).high * 0x1_0000_0000_0000_0000 + (told.owner->0).low
                == token.owner.0
            &&& told.epoch == token.epoch.0
        }),
        match fencing_token_decode(message) {
            Ok(named) => {
                &&& message.block_id is Some && message.owner is Some
                &&& named.block_id.inode_id.0 == (message.block_id->0).inode_id
                &&& named.block_id.index.0 == (message.block_id->0).block_index
                &&& named.owner.0 == (message.owner->0).high * 0x1_0000_0000_0000_0000 + (
                message.owner->0).low
                &&& named.epoch.0 == message.epoch
            },
            Err(_) => true,
        },
{
    client_numbers_are_kept(token.owner, message.owner->0);
}

/// A committed block keeps its identity and its length.
pub proof fn committed_blocks_are_kept(block: CommittedBlock, message: CommittedBlockProto)
    ensures
        ({
            let told = committed_block_encode(block);
            &&& told.len == block.len
            &&& told.block_id is Some
            &&& (told.block_id->0).inode_id == block.block_id.inode_id.0
            &&& (told.block_id->0).block_index == block.block_id.index.0
        }),
        match committed_block_decode(message) {
            Ok(named) => {
                &&& named.len == message.len
                &&& message.block_id is Some
                &&& named.block_id.inode_id.0 == (message.block_id->0).inode_id
                &&& named.block_id.index.0 == (message.block_id->0).block_index
            },
            Err(_) => message.block_id is None || (message.block_id->0).inode_id == 0,
        },
{
}

/// A layout keeps its block size and its format. A message names one if and only if a file can
/// have it.
pub proof fn layouts_are_kept(layout: FileLayout, message: FileLayoutProto)
    ensures
        file_layout_encode(layout).block_size == layout.block_size,
        file_layout_encode(layout).block_format_id == layout.block_format_id.0,
        file_layout_decode(message) is Ok <==> 0 < message.block_size <= MAX_BLOCK_SIZE
            && message.block_format_id == 2,
        match file_layout_decode(message) {
            Ok(named) => named.block_size == message.block_size && named.block_format_id.0
                == message.block_format_id,
            Err(_) => true,
        },
{
}

/// A log identity keeps its term, its leader and its index, and a watermark its group with it.
pub proof fn applied_states_are_kept(
    log_id: RaftLogId,
    message: RaftLogIdProto,
    mark: GroupStateWatermarkView,
    told: GroupStateWatermarkProtoView,
)
    ensures
        log_id_encode(log_id).term == log_id.term,
        log_id_encode(log_id).leader_node_id == log_id.leader_node_id,
        log_id_encode(log_id).index == log_id.index,
        log_id_decode(message).term == message.term,
        log_id_decode(message).leader_node_id == message.leader_node_id,
        log_id_decode(message).index == message.index,
        watermark_encode(mark).group_name == mark.group_name,
        watermark_encode(mark).state_id is Some,
        (watermark_encode(mark).state_id->0).term == mark.state_id.term,
        (watermark_encode(mark).state_id->0).leader_node_id == mark.state_id.leader_node_id,
        (watermark_encode(mark).state_id->0).index == mark.state_id.index,
        match watermark_decode(told) {
            Ok(named) => {
                &&& told.state_id is Some
                &&& named.state_id.term == (told.state_id->0).term
                &&& named.state_id.leader_node_id == (told.state_id->0).leader_node_id
                &&& named.state_id.index == (told.state_id->0).index
                &&& crate::ids::group_name_parse(told.group_name) == Ok::<
                    Seq<char>,
                    GroupNameError,
                >(named.group_name)
            },
            Err(_) => true,
        },
{
}

/// A worker endpoint keeps its number, its address and its process.
pub proof fn endpoints_are_kept(
    endpoint: WorkerEndpointInfoView,
    message: WorkerEndpointInfoProtoView,
)
    ensures
        endpoint_encode(endpoint).worker_id == endpoint.worker_id.0,
        endpoint_encode(endpoint).endpoint == endpoint.endpoint,
        endpoint_encode(endpoint).worker_run_id == hyphenated_text(endpoint.worker_run_id.0),
        match endpoint_decode(message) {
            Ok(named) => {
                &&& named.worker_id.0 == message.worker_id
                &&& message.worker_id != 0
                &&& named.endpoint == message.endpoint
                &&& message.endpoint.len() > 0
                &&& uuid_parse(message.worker_run_id) == Ok::<u128, Seq<char>>(
                    named.worker_run_id.0,
                )
            },
            Err(_) => true,
        },
{
}

// ---- enumerations ----

/// File types, write modes and tiers have the same name and the same number on both sides.
pub proof fn enumerations_keep_their_names(kind: FileType, mode: WriteMode, tier: Tier)
    ensures
        file_type_encode(kind) == FileTypeProto::FileTypeFile <==> kind == FileType::File,
        file_type_encode(kind) == FileTypeProto::FileTypeDir <==> kind == FileType::Dir,
        file_type_decode(FileTypeProto::FileTypeFile) == Ok::<FileType, Seq<char>>(FileType::File),
        file_type_decode(FileTypeProto::FileTypeDir) == Ok::<FileType, Seq<char>>(FileType::Dir),
        file_type_decode(FileTypeProto::FileTypeUnspecified) is Err,
        write_mode_encode(mode) == OpenWriteModeProto::OpenWriteModeAppend <==> mode
            == WriteMode::Append,
        write_mode_encode(mode) == OpenWriteModeProto::OpenWriteModeWrite <==> mode
            == WriteMode::Overwrite,
        write_mode_decode(OpenWriteModeProto::OpenWriteModeAppend) == Ok::<WriteMode, Seq<char>>(
            WriteMode::Append,
        ),
        write_mode_decode(OpenWriteModeProto::OpenWriteModeWrite) == Ok::<WriteMode, Seq<char>>(
            WriteMode::Overwrite,
        ),
        write_mode_decode(OpenWriteModeProto::OpenWriteModeUnspecified) is Err,
        tier_encode(tier) == TierProto::TierMem <==> tier == Tier::Mem,
        tier_encode(tier) == TierProto::TierNvme <==> tier == Tier::Nvme,
        tier_encode(tier) == TierProto::TierSsd <==> tier == Tier::Ssd,
        tier_encode(tier) == TierProto::TierHdd <==> tier == Tier::Hdd,
        tier_decode(tier_encode(tier)) == Ok::<Tier, Seq<char>>(tier),
        tier_decode(TierProto::TierUnspecified) is Err,
{
}

/// A raw number names a write mode or a tier only where it is the number of one.
pub proof fn raw_numbers_name_their_value(
    value: i32,
    mode: Result<WriteMode, String>,
    tier: Result<Tier, String>,
)
    requires
        call_ensures(parse_write_mode, (value,), mode),
        call_ensures(parse_known_tier, (value,), tier),
    ensures
        mode is Ok <==> value == 1 || value == 2,
        value == 1 ==> mode->Ok_0 == WriteMode::Overwrite,
        value == 2 ==> mode->Ok_0 == WriteMode::Append,
        tier is Ok <==> 1 <= value <= 4,
        value == 1 ==> tier->Ok_0 == Tier::Mem,
        value == 2 ==> tier->Ok_0 == Tier::Nvme,
        value == 3 ==> tier->Ok_0 == Tier::Ssd,
        value == 4 ==> tier->Ok_0 == Tier::Hdd,
{
}

/// Every kind of error has a number of its own on the wire, under the side that it belongs to.
pub proof fn error_kinds_have_their_numbers(kind: ErrorKind)
    ensures
        error_kind_encode(kind).kind == Some(
            match kind {
                ErrorKind::Metadata(MetadataErrorKind::NotFound) => Kind::Metadata(1),
                ErrorKind::Metadata(MetadataErrorKind::AlreadyExists) => Kind::Metadata(2),
                ErrorKind::Metadata(MetadataErrorKind::NotDirectory) => Kind::Metadata(3),
                ErrorKind::Metadata(MetadataErrorKind::IsDirectory) => Kind::Metadata(4),
                ErrorKind::Metadata(MetadataErrorKind::DirectoryNotEmpty) => Kind::Metadata(5),
                ErrorKind::Metadata(MetadataErrorKind::CrossMountRename) => Kind::Metadata(6),
                ErrorKind::Metadata(MetadataErrorKind::Busy) => Kind::Metadata(7),
                ErrorKind::Metadata(MetadataErrorKind::Conflict) => Kind::Metadata(8),
                ErrorKind::Metadata(MetadataErrorKind::NotLeader) => Kind::Metadata(9),
                ErrorKind::Metadata(MetadataErrorKind::StaleState) => Kind::Metadata(10),
                ErrorKind::Metadata(MetadataErrorKind::MountEpochMismatch) => Kind::Metadata(11),
                ErrorKind::Metadata(MetadataErrorKind::RouteEpochMismatch) => Kind::Metadata(12),
                ErrorKind::Metadata(MetadataErrorKind::OwnerGroupMismatch) => Kind::Metadata(13),
                ErrorKind::Metadata(MetadataErrorKind::GroupMismatch) => Kind::Metadata(14),
                ErrorKind::Metadata(MetadataErrorKind::Fencing) => Kind::Metadata(15),
                ErrorKind::Metadata(MetadataErrorKind::SessionInvalid) => Kind::Metadata(16),
                ErrorKind::Metadata(MetadataErrorKind::SessionExpired) => Kind::Metadata(17),
                ErrorKind::Metadata(MetadataErrorKind::EpochMismatch) => Kind::Metadata(18),
                ErrorKind::Metadata(MetadataErrorKind::ResourceExhausted) => Kind::Metadata(19),
                ErrorKind::Worker(WorkerErrorKind::NotRegistered) => Kind::Worker(1),
                ErrorKind::Worker(WorkerErrorKind::RunMismatch) => Kind::Worker(2),
                ErrorKind::Worker(WorkerErrorKind::DescriptorMismatch) => Kind::Worker(3),
                ErrorKind::Worker(WorkerErrorKind::FullReportRequired) => Kind::Worker(4),
                ErrorKind::Worker(WorkerErrorKind::BlockLocationUnavailable) => Kind::Worker(5),
                ErrorKind::Worker(WorkerErrorKind::NodeUnavailable) => Kind::Worker(6),
                ErrorKind::Worker(WorkerErrorKind::Timeout) => Kind::Worker(7),
                ErrorKind::Worker(WorkerErrorKind::ResourceExhausted) => Kind::Worker(8),
                ErrorKind::Worker(WorkerErrorKind::Conflict) => Kind::Worker(9),
                ErrorKind::Worker(WorkerErrorKind::Corrupt) => Kind::Worker(10),
                ErrorKind::Worker(WorkerErrorKind::Fencing) => Kind::Worker(11),
                ErrorKind::Worker(WorkerErrorKind::Cancelled) => Kind::Worker(12),
                ErrorKind::Worker(WorkerErrorKind::Io) => Kind::Worker(13),
                ErrorKind::Worker(WorkerErrorKind::NotFound) => Kind::Worker(14),
                ErrorKind::Protocol(ProtocolErrorKind::InvalidHeader) => Kind::Protocol(1),
                ErrorKind::Protocol(ProtocolErrorKind::InvalidArgument) => Kind::Protocol(2),
                ErrorKind::Protocol(ProtocolErrorKind::PermissionDenied) => Kind::Protocol(3),
                ErrorKind::Protocol(ProtocolErrorKind::Unsupported) => Kind::Protocol(4),
                ErrorKind::Protocol(ProtocolErrorKind::Cancelled) => Kind::Protocol(5),
                ErrorKind::Protocol(ProtocolErrorKind::Corrupt) => Kind::Protocol(6),
                ErrorKind::Internal(InternalErrorKind::NodeUnavailable) => Kind::Internal(1),
                ErrorKind::Internal(InternalErrorKind::Timeout) => Kind::Internal(2),
                ErrorKind::Internal(InternalErrorKind::ResourceExhausted) => Kind::Internal(3),
                ErrorKind::Internal(InternalErrorKind::Cancelled) => Kind::Internal(4),
                ErrorKind::Internal(InternalErrorKind::Corrupt) => Kind::Internal(5),
                ErrorKind::Internal(InternalErrorKind::Internal) => Kind::Internal(6),
            },
        ),
        error_kind_decode(Some(error_kind_encode(kind))) == Some(kind),
{
}

// ---- locations ----

/// A located block is told with every field that it has: its identity, its place in the file,
/// where it is written from, its shape, its tier and its token.
pub proof fn located_blocks_are_told_in_full(target: &LocatedBlock, r: LocatedBlockProto)
    requires
        call_ensures(located_block_to_proto, (target,), r),
    ensures
        r.block_id is Some,
        (r.block_id->0).inode_id == target.block_id.inode_id.0,
        (r.block_id->0).block_index == target.block_id.index.0,
        r.file_offset == target.file_offset,
        r.write_offset == target.write_offset,
        r.block_size == target.block_size,
        r.chunk_size == target.chunk_size,
        r.block_format_id == target.block_format_id.0,
        target.tier == Tier::Mem ==> r.tier == 1,
        target.tier == Tier::Nvme ==> r.tier == 2,
        target.tier == Tier::Ssd ==> r.tier == 3,
        target.tier == Tier::Hdd ==> r.tier == 4,
        r.fencing_token is Some,
        (r.fencing_token->0).epoch == target.fencing_token.epoch.0,
        (r.fencing_token->0).block_id is Some,
        ((r.fencing_token->0).block_id->0).inode_id
            == target.fencing_token.block_id.inode_id.0,
        ((r.fencing_token->0).block_id->0).block_index == target.fencing_token.block_id.index.0,
        r.worker_endpoints@.len() == target.worker_endpoints@.len(),
        forall|i: int|
            0 <= i < r.worker_endpoints@.len() ==> {
                let told = #[trigger] r.worker_endpoints@[i];
                &&& told.worker_id == target.worker_endpoints@[i].worker_id.0
                &&& told.endpoint@ == target.worker_endpoints@[i].endpoint@
                &&& told.worker_run_id@ == hyphenated_text(
                    target.worker_endpoints@[i].worker_run_id.0,
                )
            },
{
    let views = r@.worker_endpoints;
    let given = target@.worker_endpoints;
    assert(views.len() == r.worker_endpoints@.len());
    assert(given.len() == target.worker_endpoints@.len());
    assert forall|i: int| 0 <= i < r.worker_endpoints@.len() implies {
        let told = #[trigger] r.worker_endpoints@[i];
        &&& told.worker_id == target.worker_endpoints@[i].worker_id.0
        &&& told.endpoint@ == target.worker_endpoints@[i].endpoint@
        &&& told.worker_run_id@ == hyphenated_text(target.worker_endpoints@[i].worker_run_id.0)
    } by {
        assert(views[i] == r.worker_endpoints@[i]@);
        assert(given[i] == target.worker_endpoints@[i]@);
        assert(views[i] == endpoint_encode(given[i]));
    }
}

/// A readable location is told with every field that it has.
pub proof fn locations_are_told_in_full(location: &FileBlockLocation, r: FileBlockLocationProto)
    requires
        call_ensures(location_to_proto, (location,), r),
    ensures
        r.block_id is Some,
        (r.block_id->0).inode_id == location.block_id.inode_id.0,
        (r.block_id->0).block_index == location.block_id.index.0,
        r.file_offset == location.file_offset,
        r.len == location.len,
        r.block_size == location.block_size,
        r.chunk_size == location.chunk_size,
        r.effective_len == location.effective_len,
        r.block_format_id == location.block_format_id.0,
        r.workers@.len() == location.workers@.len(),
        forall|i: int|
            0 <= i < r.workers@.len() ==> {
                let told = #[trigger] r.workers@[i];
                &&& told.worker_id == location.workers@[i].worker_id.0
                &&& told.endpoint@ == location.workers@[i].endpoint@
                &&& told.worker_run_id@ == hyphenated_text(location.workers@[i].worker_run_id.0)
            },
{
    let views = r@.workers;
    let given = location@.workers;
    assert(views.len() == r.workers@.len());
    assert(given.len() == location.workers@.len());
    assert forall|i: int| 0 <= i < r.workers@.len() implies {
        let told = #[trigger] r.workers@[i];
        &&& told.worker_id == location.workers@[i].worker_id.0
        &&& told.endpoint@ == location.workers@[i].endpoint@
        &&& told.worker_run_id@ == hyphenated_text(location.workers@[i].worker_run_id.0)
    } by {
        assert(views[i] == r.workers@[i]@);
        assert(given[i] == location.workers@[i]@);
        assert(views[i] == endpoint_encode(given[i]));
    }
}

/// A message names a located block only with the fields that it carries, a token for that very
/// block, and at least one worker.
pub proof fn located_blocks_are_read_as_told(message: LocatedBlockProtoView)
    ensures
        match located_block_decode(message) {
            Ok(named) => {
                &&& message.block_id is Some
                &&& named.block_id.inode_id.0 == (message.block_id->0).inode_id
                &&& named.block_id.index.0 == (message.block_id->0).block_index
                &&& named.file_offset == message.file_offset
                &&& named.write_offset == message.write_offset
                &&& named.block_size == message.block_size
                &&& named.chunk_size == message.chunk_size
                &&& named.block_format_id.0 == message.block_format_id
                &&& named.tier == Tier::Mem <==> message.tier == 1
                &&& named.tier == Tier::Nvme <==> message.tier == 2
                &&& named.tier == Tier::Ssd <==> message.tier == 3
                &&& named.tier == Tier::Hdd <==> message.tier == 4
                &&& named.fencing_token.block_id == named.block_id
                &&& named.fencing_token.epoch.0 == (message.fencing_token->0).epoch
                &&& named.fencing_token.epoch.0 != 0
                &&& named.fencing_token.owner.0 != 0
                &&& message.write_offset < message.block_size
                &&& 0 < message.block_size <= MAX_BLOCK_SIZE
                &&& message.chunk_size == DURABLE_PREFIX_STORAGE_CHUNK_SIZE
                &&& message.worker_endpoints.len() > 0
            },
            Err(_) => true,
        },
{
}

/// A message names a readable location only with the fields that it carries.
pub proof fn locations_are_read_as_told(message: FileBlockLocationProtoView)
    ensures
        match location_decode(message) {
            Ok(named) => {
                &&& message.block_id is Some
                &&& named.block_id.inode_id.0 == (message.block_id->0).inode_id
                &&& named.block_id.index.0 == (message.block_id->0).block_index
                &&& named.file_offset == message.file_offset
                &&& named.len == message.len
                &&& named.len != 0
                &&& named.block_size == message.block_size
                &&& named.chunk_size == message.chunk_size
                &&& named.effective_len == message.effective_len
                &&& 0 < named.effective_len <= named.block_size
                &&& named.block_format_id.0 == message.block_format_id
            },
            Err(_) => true,
        },
{
}

// ---- headers ----

/// A caller is who its message says: by its call, its client and its name.
pub proof fn callers_are_read_as_told(proto: &ClientInfoProto, r: Result<ClientInfo, String>)
    requires
        call_ensures(decode_client_info, (proto,), r),
    ensures
        r is Ok ==> {
            let caller = r->Ok_0;
            &&& uuid_parse(proto.call_id@) == Ok::<u128, Seq<char>>(caller.call_id.0)
            &&& caller.call_id.0 != 0
            &&& proto.client_id is Some
            &&& caller.client_id.0 == (proto.client_id->0).high * 0x1_0000_0000_0000_0000 + (
            proto.client_id->0).low
            &&& caller.client_id.0 != 0
            &&& caller.client_name is Some <==> proto.client_name@.len() > 0
            &&& caller.client_name is Some ==> (caller.client_name->0)@ == proto.client_name@
        },
{
    client_numbers_are_kept(r->Ok_0.client_id, proto.client_id->0);
}

/// A request header is what its message says: its caller, its group, its epochs and its
/// deadline.
pub proof fn requests_are_read_as_told(proto: &RequestHeaderProto, header: RequestHeader)
    requires
        call_ensures(decode_request_header, (proto,), Ok(header)),
    ensures
        proto.client is Some,
        uuid_parse((proto.client->0).call_id@) == Ok::<u128, Seq<char>>(header.client.call_id.0),
        (proto.client->0).client_id is Some,
        header.client.client_id.0 == ((proto.client->0).client_id->0).high
            * 0x1_0000_0000_0000_0000 + ((proto.client->0).client_id->0).low,
        header.mount_epoch == proto.mount_epoch,
        header.route_epoch == proto.route_epoch,
        header.deadline.0 == proto.deadline_ms,
        header.group_name is Some <==> proto.group_name@.len() > 0,
        header.group_name is Some ==> crate::ids::group_name_parse(proto.group_name@) == Ok::<
            Seq<char>,
            GroupNameError,
        >((header.group_name->0)@),
        header.caller_context is Some <==> proto.caller_context is Some,
        header.caller_context is Some ==> (header.caller_context->0).context@ == (
        proto.caller_context->0).context@,
{
    client_numbers_are_kept(header.client.client_id, (proto.client->0).client_id->0);
    assert(group_name_parse_optional(proto.group_name@) is Ok);
}

/// The context of a request is its header, with the route that the header names. A request
/// without a valid header has none.
pub proof fn contexts_are_read_from_the_header(
    req_header: &Option<RequestHeaderProto>,
    r: Result<RequestContext, RpcErrorDetail>,
)
    requires
        call_ensures(request_context_from_proto, (req_header,), r),
    ensures
        *req_header is None ==> r is Err,
        r is Ok ==> {
            &&& r->Ok_0.route_epoch == ((*req_header)->0).route_epoch
            &&& r->Ok_0.caller.route_epoch == ((*req_header)->0).route_epoch
            &&& r->Ok_0.caller.mount_epoch == ((*req_header)->0).mount_epoch
            &&& r->Ok_0.caller.deadline.0 == ((*req_header)->0).deadline_ms
        },
        r is Err ==> r->Err_0.kind == ErrorKind::Protocol(ProtocolErrorKind::InvalidHeader)
            && r->Err_0.recovery is Fail,
{
}

/// The header of a success names the caller and tells no error; its group, its epochs and its
/// applied states are those of the success.
pub proof fn successes_are_told_in_the_header<T>(
    ctx: &RequestContext,
    success: &FsSuccess<T>,
    r: ResponseHeaderProto,
)
    requires
        call_ensures(ok_header_from_fs_success::<T>, (ctx, success), r),
    ensures
        r.error is None,
        r.client is Some,
        (r.client->0).call_id@ == hyphenated_text(ctx.caller.client.call_id.0),
        r.mount_epoch == success.mount_epoch,
        r.route_epoch == success.route_epoch,
        success.group_name is Some ==> r.group_name@ == (success.group_name->0)@,
        success.group_name is None ==> r.group_name@.len() == 0,
        r.state@.len() == success.state@.len(),
        forall|i: int|
            0 <= i < r.state@.len() ==> {
                let told = #[trigger] r.state@[i];
                &&& told.group_name@ == success.state@[i].group_name@
                &&& told.state_id is Some
                &&& (told.state_id->0).term == success.state@[i].state_id.term
                &&& (told.state_id->0).leader_node_id
                    == success.state@[i].state_id.leader_node_id
                &&& (told.state_id->0).index == success.state@[i].state_id.index
            },
{
    let told = r@.state;
    let given = crate::group_watermark::watermark_views(success.state@);
    assert(r@.error is Some <==> r.error is Some);
    assert(told.len() == r.state@.len());
    assert forall|i: int| 0 <= i < r.state@.len() implies {
        let mark = #[trigger] r.state@[i];
        &&& mark.group_name@ == success.state@[i].group_name@
        &&& mark.state_id is Some
        &&& (mark.state_id->0).term == success.state@[i].state_id.term
        &&& (mark.state_id->0).leader_node_id == success.state@[i].state_id.leader_node_id
        &&& (mark.state_id->0).index == success.state@[i].state_id.index
    } by {
        assert(told[i] == r.state@[i]@);
        assert(given[i] == success.state@[i]@);
        assert(told[i] == watermark_encode(given[i]));
    }
}

/// The header of a failure names the caller and tells the error; its group and its epochs are
/// those of the failure.
pub proof fn failures_are_told_in_the_header(
    ctx: &RequestContext,
    failure: &FsFailure,
    r: ResponseHeaderProto,
)
    requires
        call_ensures(header_from_fs_failure, (ctx, failure), r),
    ensures
        r.error is Some,
        (r.error->0).message@ == failure.error.message@,
        (r.error->0).kind == Some(error_kind_encode(failure.error.kind)),
        r.client is Some,
        (r.client->0).call_id@ == hyphenated_text(ctx.caller.client.call_id.0),
        r.mount_epoch == failure.mount_epoch,
        r.route_epoch == failure.route_epoch,
        failure.group_name is Some ==> r.group_name@ == (failure.group_name->0)@,
        failure.group_name is None ==> r.group_name@.len() == 0,
{
    assert(r@.error is Some <==> r.error is Some);
}

/// An error keeps its message on the wire, and what it asks for keeps its name.
pub proof fn errors_are_kept(err: &RpcErrorDetail, r: ErrorDetailProto)
    requires
        call_ensures(rpc_error_to_proto, (err,), r),
    ensures
        r.message@ == err.message@,
        r.kind == Some(error_kind_encode(err.kind)),
        r@.recovery is Some,
        match r@.recovery->0 {
            ActionView::Fail => err.recovery is Fail,
            ActionView::Retry(after_ms) => err.recovery is Retry && err.recovery->after_ms
                == after_ms,
            ActionView::RefreshMetadata(hint) => err.recovery is RefreshMetadata && hint is Some
                && (hint->0).mount_epoch == (err.recovery->RefreshMetadata_hint).mount_epoch && (
            hint->0).route_epoch == (err.recovery->RefreshMetadata_hint).route_epoch && (
            hint->0).worker_resolve_required == (
            err.recovery->RefreshMetadata_hint).worker_resolve_required,
            ActionView::ReopenWriteSession(hint) => err.recovery is ReopenWriteSession
                && hint is Some && (hint->0).mount_epoch == (
            err.recovery->ReopenWriteSession_hint).mount_epoch,
            ActionView::RegisterWorker => err.recovery is RegisterWorker,
            ActionView::SendFullBlockReport => err.recovery is SendFullBlockReport,
        },
{
}

/// An error is read as it was told, or as a malformed one that asks for nothing.
pub proof fn errors_are_read_as_told(message: &ErrorDetailProto, r: RpcErrorDetail)
    requires
        call_ensures(rpc_error_from_proto, (message,), r),
    ensures
        error_kind_decode(message.kind) is Some && message@.recovery is Some ==> {
            &&& r.kind == error_kind_decode(message.kind)->0
            &&& r.message@ == message.message@
            &&& r.recovery is Fail <==> message@.recovery->0 is Fail
            &&& r.recovery is Retry <==> message@.recovery->0 is Retry
            &&& r.recovery is RefreshMetadata <==> message@.recovery->0 is RefreshMetadata
            &&& r.recovery is ReopenWriteSession <==> message@.recovery->0 is ReopenWriteSession
            &&& r.recovery is RegisterWorker <==> message@.recovery->0 is RegisterWorker
            &&& r.recovery is SendFullBlockReport
                <==> message@.recovery->0 is SendFullBlockReport
        },
        error_kind_decode(message.kind) is None || message@.recovery is None ==> {
            &&& r.kind == ErrorKind::Protocol(ProtocolErrorKind::InvalidHeader)
            &&& r.recovery is Fail
        },
{
}

// ---- sequences ----

proof fn lemma_watermarks_read(protos: Seq<GroupStateWatermarkProtoView>)
    ensures
        match watermarks_decode(protos) {
            Ok(marks) => {
                &&& marks.len() == protos.len()
                &&& forall|i: int|
                    0 <= i < marks.len() ==> watermark_decode(protos[i]) == Ok::<
                        GroupStateWatermarkView,
                        Seq<char>,
                    >(#[trigger] marks[i])
            },
            Err(_) => protos.len() > 0,
        },
    decreases protos.len(),
{
    if protos.len() > 0 {
        lemma_watermarks_read(protos.drop_last());
    }
}

proof fn lemma_endpoints_read(messages: Seq<WorkerEndpointInfoProtoView>)
    ensures
        match endpoints_decode(messages) {
            Ok(endpoints) => {
                &&& endpoints.len() == messages.len()
                &&& forall|i: int|
                    0 <= i < endpoints.len() ==> endpoint_decode(messages[i]) == Ok::<
                        WorkerEndpointInfoView,
                        Seq<char>,
                    >(#[trigger] endpoints[i])
            },
            Err(_) => messages.len() > 0,
        },
    decreases messages.len(),
{
    if messages.len() > 0 {
        lemma_endpoints_read(messages.drop_last());
    }
}

/// The applied states that a request requires are those of its message, in order: the same
/// groups at the same positions.
pub proof fn required_states_are_read_as_told(
    proto: &RequestHeaderProto,
    header: RequestHeader,
    i: int,
)
    requires
        call_ensures(decode_request_header, (proto,), Ok(header)),
        0 <= i < header.state@.len(),
    ensures
        header.state@.len() == proto.state@.len(),
        proto.state@[i].state_id is Some,
        header.state@[i].state_id.term == (proto.state@[i].state_id->0).term,
        header.state@[i].state_id.leader_node_id == (proto.state@[i].state_id->0).leader_node_id,
        header.state@[i].state_id.index == (proto.state@[i].state_id->0).index,
        header.state@[i].group_name@ == trimmed(proto.state@[i].group_name@),
{
    let named = proto@.state;
    let read = header@.state;
    lemma_watermarks_read(named);
    assert(named.len() == proto.state@.len());
    assert(read.len() == header.state@.len());
    assert(named[i] == proto.state@[i]@);
    assert(read[i] == header.state@[i]@);
    assert(watermark_decode(named[i]) == Ok::<GroupStateWatermarkView, Seq<char>>(read[i]));
}

/// The trace context of a request is that of its message, without fields that are empty.
pub proof fn trace_contexts_are_read_as_told(proto: &RequestHeaderProto, header: RequestHeader)
    requires
        call_ensures(decode_request_header, (proto,), Ok(header)),
        proto.trace_context is Some,
    ensures
        ({
            let told = proto.trace_context->0;
            let read = header.trace_context;
            &&& read.traceparent is Some <==> told.traceparent is Some && (
            told.traceparent->0)@.len() > 0
            &&& read.traceparent is Some ==> (read.traceparent->0)@ == (told.traceparent->0)@
            &&& read.tracestate is Some <==> told.tracestate is Some && (
            told.tracestate->0)@.len() > 0
            &&& read.tracestate is Some ==> (read.tracestate->0)@ == (told.tracestate->0)@
            &&& read.baggage is Some <==> told.baggage is Some && (told.baggage->0)@.len() > 0
            &&& read.baggage is Some ==> (read.baggage->0)@ == (told.baggage->0)@
        }),
{
    let told = proto.trace_context->0;
    let read = header.trace_context;
    assert(proto@.trace_context == Some(told@));
    assert(header@.trace_context == read@);
    assert(read@.traceparent == crate::proto::header::non_empty(told@.traceparent));
    assert(read@.tracestate == crate::proto::header::non_empty(told@.tracestate));
    assert(read@.baggage == crate::proto::header::non_empty(told@.baggage));
}

/// The workers of a location are those of its message, in order.
pub proof fn workers_are_read_as_told(
    located: LocatedBlockProtoView,
    location: FileBlockLocationProtoView,
)
    ensures
        match located_block_decode(located) {
            Ok(named) => {
                &&& named.worker_endpoints.len() == located.worker_endpoints.len()
                &&& forall|i: int|
                    0 <= i < named.worker_endpoints.len() ==> {
                        let w = #[trigger] named.worker_endpoints[i];
                        &&& w.worker_id.0 == located.worker_endpoints[i].worker_id
                        &&& w.endpoint == located.worker_endpoints[i].endpoint
                    }
            },
            Err(_) => true,
        },
        match location_decode(location) {
            Ok(named) => {
                &&& named.workers.len() == location.workers.len()
                &&& forall|i: int|
                    0 <= i < named.workers.len() ==> {
                        let w = #[trigger] named.workers[i];
                        &&& w.worker_id.0 == location.workers[i].worker_id
                        &&& w.endpoint == location.workers[i].endpoint
                    }
            },
            Err(_) => true,
        },
{
    lemma_endpoints_read(located.worker_endpoints);
    lemma_endpoints_read(location.workers);
    if located_block_decode(located) is Ok {
        let named = located_block_decode(located)->Ok_0.worker_endpoints;
        assert forall|i: int| 0 <= i < named.len() implies {
            let w = #[trigger] named[i];
            &&& w.worker_id.0 == located.worker_endpoints[i].worker_id
            &&& w.endpoint == located.worker_endpoints[i].endpoint
        } by {
            assert(endpoint_decode(located.worker_endpoints[i]) == Ok::<
                WorkerEndpointInfoView,
                Seq<char>,
            >(named[i]));
        }
    }
    if location_decode(location) is Ok {
        let named = location_decode(location)->Ok_0.workers;
        assert forall|i: int| 0 <= i < named.len() implies {
            let w = #[trigger] named[i];
            &&& w.worker_id.0 == location.workers[i].worker_id
            &&& w.endpoint == location.workers[i].endpoint
        } by {
            assert(endpoint_decode(location.workers[i]) == Ok::<
                WorkerEndpointInfoView,
                Seq<char>,
            >(named[i]));
        }
    }
}

/// The hint of an error keeps what it names: the leader, the group, the epochs, the prefix and
/// whether workers are to be looked up again.
pub proof fn hints_are_kept(hint: RefreshHintView, message: RefreshHintProtoView)
    ensures
        refresh_hint_encode(hint).leader_endpoint == hint.leader_endpoint,
        refresh_hint_encode(hint).group_name == hint.group_name,
        refresh_hint_encode(hint).mount_epoch == hint.mount_epoch,
        refresh_hint_encode(hint).mount_prefix == hint.mount_prefix,
        refresh_hint_encode(hint).route_epoch == hint.route_epoch,
        refresh_hint_encode(hint).worker_resolve_required == hint.worker_resolve_required,
        refresh_hint_decode(Some(message)).leader_endpoint == message.leader_endpoint,
        refresh_hint_decode(Some(message)).group_name == message.group_name,
        refresh_hint_decode(Some(message)).mount_epoch == message.mount_epoch,
        refresh_hint_decode(Some(message)).mount_prefix == message.mount_prefix,
        refresh_hint_decode(Some(message)).route_epoch == message.route_epoch,
        refresh_hint_decode(Some(message)).worker_resolve_required
            == message.worker_resolve_required,
{
}

/// The header of an answer to a request names the caller of the request, where that is valid,
/// and no one otherwise. It tells the group and the mount epoch that it was given.
pub proof fn answers_name_their_caller(
    req_header: &Option<RequestHeaderProto>,
    group_name: &Option<GroupName>,
    mount_epoch: Option<u64>,
    error: &RpcErrorDetail,
    ok: ResponseHeaderProto,
    failed: ResponseHeaderProto,
)
    requires
        call_ensures(ok_header_from_request, (req_header, group_name, mount_epoch), ok),
        call_ensures(header_from_rpc_error, (req_header, group_name, mount_epoch, error), failed),
    ensures
        ok.error is None,
        failed.error is Some,
        (failed.error->0).message@ == error.message@,
        (failed.error->0).kind == Some(error_kind_encode(error.kind)),
        ok.mount_epoch == mount_epoch && failed.mount_epoch == mount_epoch,
        *group_name is Some ==> ok.group_name@ == ((*group_name)->0)@ && failed.group_name@ == (
        (*group_name)->0)@,
        *group_name is None ==> ok.group_name@.len() == 0 && failed.group_name@.len() == 0,
        ok.client is Some <==> failed.client is Some,
        *req_header is None ==> ok.client is None,
        ok.client is Some ==> {
            let told = (ok.client->0).call_id@;
            let named = ((*req_header)->0).client;
            &&& named is Some
            &&& uuid_parse((named->0).call_id@) is Ok
            &&& told == hyphenated_text(uuid_parse((named->0).call_id@)->Ok_0)
            &&& (failed.client->0).call_id@ == told
        },
{
    assert(ok@.error is Some <==> ok.error is Some);
    assert(failed@.error is Some <==> failed.error is Some);
    assert(ok@.client is Some <==> ok.client is Some);
    assert(failed@.client is Some <==> failed.client is Some);
}

} // verus!
