//! Conversions between wire messages and domain values.

use vstd::prelude::*;

use crate::fs::{ByteRange, FileType, WriteMode};
use crate::group_watermark::{
    watermark_views, GroupStateWatermark, GroupStateWatermarkView, RaftLogId,
};
use crate::ids::{
    group_name_parse, group_name_parse_is_idempotent, is_group_name, BlockId, BlockIndex, CallId,
    ClientId, GroupName, InodeId, WorkerId,
};
use crate::layout::{
    layout_error, shape_error, BlockFormatId, BlockFormatIdError, BlockShape, FileLayout,
};
use crate::lease::{FencingToken, LeaseEpoch, WriteHandle};
use crate::location::{
    CommittedBlock, FileBlockLocation, FileBlockLocationView, LocatedBlock, LocatedBlockView,
};
use crate::outside_uuid::{hyphenated_text, uuid_parse};
use crate::proto::message::{
    endpoint_proto_views, watermark_proto_views, BlockIdProto, ByteRangeProto, ClientIdProto,
    CommittedBlockProto, FencingTokenProto, FileBlockLocationProto, FileBlockLocationProtoView,
    FileLayoutProto, FileTypeProto, GroupStateWatermarkProto, GroupStateWatermarkProtoView,
    LocatedBlockProto, LocatedBlockProtoView, OpenWriteModeProto, RaftLogIdProto, TierProto,
    WorkerEndpointInfoProto, WorkerEndpointInfoProtoView, WriteHandleProto,
};
use crate::text::{decimal, decimal_text, join};
use crate::worker_info::{
    endpoint_views, Tier, WorkerEndpointInfo, WorkerEndpointInfoView, WorkerNetProtocol,
    WorkerRunId,
};

verus! {

/// The decimal text of a signed number.
pub open spec fn signed_decimal(n: int) -> Seq<char> {
    if n < 0 {
        "-"@ + decimal((-n) as nat)
    } else {
        decimal(n as nat)
    }
}

/// Returns the decimal text of a signed number.
pub fn signed_decimal_text(n: i32) -> (r: String)
    ensures
        r@ == signed_decimal(n as int),
{
    if n < 0 {
        let digits = decimal_text((-(n as i64)) as u128);
        join("-", digits.as_str())
    } else {
        decimal_text(n as u128)
    }
}

// ---- identities ----

/// The wire form of a block identity.
pub open spec fn block_id_encode(id: BlockId) -> BlockIdProto {
    BlockIdProto { inode_id: id.inode_id.0, block_index: id.index.0 }
}

/// The block identity that a message names.
pub open spec fn block_id_decode(id: BlockIdProto) -> Result<BlockId, Seq<char>> {
    if id.inode_id == 0 {
        Err("BlockIdProto.inode_id must be non-zero"@)
    } else {
        Ok(BlockId { inode_id: InodeId(id.inode_id), index: BlockIndex(id.block_index) })
    }
}

impl vstd::std_specs::convert::FromSpecImpl<BlockId> for BlockIdProto {
    open spec fn obeys_from_spec() -> bool {
        true
    }

    open spec fn from_spec(id: BlockId) -> Self {
        block_id_encode(id)
    }
}

impl From<BlockId> for BlockIdProto {
    fn from(id: BlockId) -> (r: Self) {
        BlockIdProto { inode_id: id.inode_id.0, block_index: id.index.0 }
    }
}

impl vstd::std_specs::convert::TryFromSpecImpl<BlockIdProto> for BlockId {
    open spec fn obeys_try_from_spec() -> bool {
        false
    }

    open spec fn try_from_spec(id: BlockIdProto) -> Result<Self, String> {
        arbitrary()
    }
}

impl TryFrom<BlockIdProto> for BlockId {
    type Error = String;

    fn try_from(id: BlockIdProto) -> (r: Result<Self, String>)
        ensures
            match r {
                Ok(v) => block_id_decode(id) == Ok::<BlockId, Seq<char>>(v),
                Err(e) => block_id_decode(id) == Err::<BlockId, Seq<char>>(e@),
            },
    {
        if id.inode_id == 0 {
            return Err("BlockIdProto.inode_id must be non-zero".to_owned());
        }
        Ok(BlockId::new(InodeId::new(id.inode_id), BlockIndex::new(id.block_index)))
    }
}

/// The wire form of a client identity: its high and its low half.
pub open spec fn client_id_encode(id: ClientId) -> ClientIdProto {
    ClientIdProto { high: (id.0 >> 64u128) as u64, low: id.0 as u64 }
}

/// The client identity that a message names.
pub open spec fn client_id_decode(id: ClientIdProto) -> Result<ClientId, Seq<char>> {
    let value = ((id.high as u128) << 64u128) | (id.low as u128);
    if value == 0 {
        Err("client_id must be non-zero"@)
    } else {
        Ok(ClientId(value))
    }
}

/// A non-zero client identity survives the wire.
pub proof fn client_id_round_trip(id: ClientId)
    requires
        id.0 != 0,
    ensures
        client_id_decode(client_id_encode(id)) == Ok::<ClientId, Seq<char>>(id),
{
    let v = id.0;
    assert((((v >> 64u128) as u64) as u128) << 64u128 | ((v as u64) as u128) == v)
        by (bit_vector);
}

/// A block identity with a non-zero inode survives the wire.
pub proof fn block_id_round_trip(id: BlockId)
    requires
        id.inode_id.0 != 0,
    ensures
        block_id_decode(block_id_encode(id)) == Ok::<BlockId, Seq<char>>(id),
{
}

impl vstd::std_specs::convert::FromSpecImpl<ClientId> for ClientIdProto {
    open spec fn obeys_from_spec() -> bool {
        true
    }

    open spec fn from_spec(id: ClientId) -> Self {
        client_id_encode(id)
    }
}

impl From<ClientId> for ClientIdProto {
    fn from(id: ClientId) -> (r: Self) {
        ClientIdProto { high: (id.0 >> 64u128) as u64, low: id.0 as u64 }
    }
}

impl vstd::std_specs::convert::TryFromSpecImpl<ClientIdProto> for ClientId {
    open spec fn obeys_try_from_spec() -> bool {
        false
    }

    open spec fn try_from_spec(id: ClientIdProto) -> Result<Self, String> {
        arbitrary()
    }
}

impl TryFrom<ClientIdProto> for ClientId {
    type Error = String;

    fn try_from(id: ClientIdProto) -> (r: Result<Self, String>)
        ensures
            match r {
                Ok(v) => client_id_decode(id) == Ok::<ClientId, Seq<char>>(v),
                Err(e) => client_id_decode(id) == Err::<ClientId, Seq<char>>(e@),
            },
    {
        let value: u128 = ((id.high as u128) << 64u128) | (id.low as u128);
        if value == 0 {
            return Err("client_id must be non-zero".to_owned());
        }
        Ok(ClientId::new(value))
    }
}

/// A required block identity of the named field.
pub open spec fn block_id_required(proto: Option<BlockIdProto>, field: Seq<char>) -> Result<
    BlockId,
    Seq<char>,
> {
    match proto {
        None => Err("missing "@ + field),
        Some(p) => match block_id_decode(p) {
            Ok(id) => Ok(id),
            Err(e) => Err("invalid "@ + field + ": "@ + e),
        },
    }
}

fn invalid_field(field: &str, error: &str) -> (r: String)
    ensures
        r@ == "invalid "@ + field@ + ": "@ + error@,
{
    let mut out = join("invalid ", field);
    out.append(": ");
    out.append(error);
    out
}

/// Parses a required block identity, without choosing the caller's error policy.
pub fn required_block_id(proto: Option<BlockIdProto>, field_name: &str) -> (r: Result<
    BlockId,
    String,
>)
    ensures
        match r {
            Ok(v) => block_id_required(proto, field_name@) == Ok::<BlockId, Seq<char>>(v),
            Err(e) => block_id_required(proto, field_name@) == Err::<BlockId, Seq<char>>(e@),
        },
{
    match proto {
        None => Err(join("missing ", field_name)),
        Some(p) => match BlockId::try_from(p) {
            Ok(id) => Ok(id),
            Err(e) => Err(invalid_field(field_name, e.as_str())),
        },
    }
}

/// A required client identity of the named field.
pub open spec fn client_id_required(proto: Option<ClientIdProto>, field: Seq<char>) -> Result<
    ClientId,
    Seq<char>,
> {
    match proto {
        None => Err("missing "@ + field),
        Some(p) => match client_id_decode(p) {
            Ok(id) => Ok(id),
            Err(e) => Err("invalid "@ + field + ": "@ + e),
        },
    }
}

/// Parses a required client identity, without choosing the caller's error policy.
pub fn required_client_id(proto: Option<ClientIdProto>, field_name: &str) -> (r: Result<
    ClientId,
    String,
>)
    ensures
        match r {
            Ok(v) => client_id_required(proto, field_name@) == Ok::<ClientId, Seq<char>>(v),
            Err(e) => client_id_required(proto, field_name@) == Err::<ClientId, Seq<char>>(e@),
        },
{
    match proto {
        None => Err(join("missing ", field_name)),
        Some(p) => match ClientId::try_from(p) {
            Ok(id) => Ok(id),
            Err(e) => Err(invalid_field(field_name, e.as_str())),
        },
    }
}

/// A required call identity of the named field.
pub open spec fn call_id_required(value: Seq<char>, field: Seq<char>) -> Result<CallId, Seq<char>> {
    if value.len() == 0 {
        Err(field + " must not be empty"@)
    } else {
        match CallId::parsed_spec(uuid_parse(value)) {
            Ok(id) => Ok(id),
            Err(e) => Err(field + " "@ + e),
        }
    }
}

/// Parses a required call identity, without choosing the caller's error policy.
pub fn require_call_id(value: &str, field_name: &str) -> (r: Result<CallId, String>)
    ensures
        match r {
            Ok(v) => call_id_required(value@, field_name@) == Ok::<CallId, Seq<char>>(v),
            Err(e) => call_id_required(value@, field_name@) == Err::<CallId, Seq<char>>(e@),
        },
{
    if value.is_empty() {
        return Err(join(field_name, " must not be empty"));
    }
    match CallId::parse(value) {
        Ok(id) => Ok(id),
        Err(e) => {
            let mut out = join(field_name, " ");
            out.append(e.as_str());
            Err(out)
        },
    }
}

impl vstd::std_specs::convert::FromSpecImpl<ByteRange> for ByteRangeProto {
    open spec fn obeys_from_spec() -> bool {
        true
    }

    open spec fn from_spec(range: ByteRange) -> Self {
        ByteRangeProto { offset: range.offset, len: range.len }
    }
}

impl From<ByteRange> for ByteRangeProto {
    fn from(range: ByteRange) -> (r: Self) {
        ByteRangeProto { offset: range.offset, len: range.len }
    }
}

/// The layout that a message names.
pub open spec fn file_layout_decode(layout: FileLayoutProto) -> Result<FileLayout, Seq<char>> {
    let block_format_id = BlockFormatId(layout.block_format_id);
    let decoded = FileLayout { block_size: layout.block_size, block_format_id };
    if !block_format_id.is_known() {
        Err(
            "FileLayoutProto.block_format_id invalid: "@ + (BlockFormatIdError {
                raw: layout.block_format_id,
            }).text(),
        )
    } else {
        match layout_error(decoded) {
            Some(e) => Err("FileLayoutProto invalid: "@ + e.text()),
            None => Ok(decoded),
        }
    }
}

/// The wire form of a layout.
pub open spec fn file_layout_encode(layout: FileLayout) -> FileLayoutProto {
    FileLayoutProto { block_size: layout.block_size, block_format_id: layout.block_format_id.0 }
}

/// A layout survives the wire exactly when it is valid.
pub proof fn file_layout_round_trip(layout: FileLayout)
    ensures
        layout_error(layout) is None ==> file_layout_decode(file_layout_encode(layout)) == Ok::<
            FileLayout,
            Seq<char>,
        >(layout),
        layout_error(layout) is Some ==> file_layout_decode(file_layout_encode(layout)) is Err,
{
}

impl vstd::std_specs::convert::TryFromSpecImpl<FileLayoutProto> for FileLayout {
    open spec fn obeys_try_from_spec() -> bool {
        false
    }

    open spec fn try_from_spec(layout: FileLayoutProto) -> Result<Self, String> {
        arbitrary()
    }
}

impl TryFrom<FileLayoutProto> for FileLayout {
    type Error = String;

    fn try_from(layout: FileLayoutProto) -> (r: Result<Self, String>)
        ensures
            match r {
                Ok(v) => file_layout_decode(layout) == Ok::<FileLayout, Seq<char>>(v),
                Err(e) => file_layout_decode(layout) == Err::<FileLayout, Seq<char>>(e@),
            },
    {
        let block_format_id = match BlockFormatId::from_raw(layout.block_format_id) {
            Ok(id) => id,
            Err(e) => {
                let text = e.message();
                return Err(join("FileLayoutProto.block_format_id invalid: ", text.as_str()));
            },
        };
        let decoded = FileLayout::with_block_format(layout.block_size, block_format_id);
        match decoded.validate() {
            Ok(()) => Ok(decoded),
            Err(e) => {
                let text = e.message();
                Err(join("FileLayoutProto invalid: ", text.as_str()))
            },
        }
    }
}

impl vstd::std_specs::convert::FromSpecImpl<FileLayout> for FileLayoutProto {
    open spec fn obeys_from_spec() -> bool {
        true
    }

    open spec fn from_spec(layout: FileLayout) -> Self {
        file_layout_encode(layout)
    }
}

impl From<FileLayout> for FileLayoutProto {
    fn from(layout: FileLayout) -> (r: Self) {
        FileLayoutProto {
            block_size: layout.block_size,
            block_format_id: layout.block_format_id.as_raw(),
        }
    }
}

impl<'a> vstd::std_specs::convert::FromSpecImpl<&'a FileLayout> for FileLayoutProto {
    open spec fn obeys_from_spec() -> bool {
        true
    }

    open spec fn from_spec(layout: &'a FileLayout) -> Self {
        file_layout_encode(*layout)
    }
}

impl<'a> From<&'a FileLayout> for FileLayoutProto {
    fn from(layout: &'a FileLayout) -> (r: Self) {
        FileLayoutProto {
            block_size: layout.block_size,
            block_format_id: layout.block_format_id.as_raw(),
        }
    }
}

// ---- file system values ----

/// The file type that a message names.
pub open spec fn file_type_decode(kind: FileTypeProto) -> Result<FileType, Seq<char>> {
    match kind {
        FileTypeProto::FileTypeFile => Ok(FileType::File),
        FileTypeProto::FileTypeDir => Ok(FileType::Dir),
        FileTypeProto::FileTypeUnspecified => Err("unspecified inode kind is not a domain value"@),
    }
}

/// The wire form of a file type.
pub open spec fn file_type_encode(kind: FileType) -> FileTypeProto {
    match kind {
        FileType::File => FileTypeProto::FileTypeFile,
        FileType::Dir => FileTypeProto::FileTypeDir,
    }
}

impl vstd::std_specs::convert::TryFromSpecImpl<FileTypeProto> for FileType {
    open spec fn obeys_try_from_spec() -> bool {
        false
    }

    open spec fn try_from_spec(kind: FileTypeProto) -> Result<Self, String> {
        arbitrary()
    }
}

impl TryFrom<FileTypeProto> for FileType {
    type Error = String;

    fn try_from(kind: FileTypeProto) -> (r: Result<Self, String>)
        ensures
            match r {
                Ok(v) => file_type_decode(kind) == Ok::<FileType, Seq<char>>(v),
                Err(e) => file_type_decode(kind) == Err::<FileType, Seq<char>>(e@),
            },
    {
        match kind {
            FileTypeProto::FileTypeFile => Ok(FileType::File),
            FileTypeProto::FileTypeDir => Ok(FileType::Dir),
            FileTypeProto::FileTypeUnspecified => Err(
                "unspecified inode kind is not a domain value".to_owned(),
            ),
        }
    }
}

impl vstd::std_specs::convert::FromSpecImpl<FileType> for FileTypeProto {
    open spec fn obeys_from_spec() -> bool {
        true
    }

    open spec fn from_spec(kind: FileType) -> Self {
        file_type_encode(kind)
    }
}

impl From<FileType> for FileTypeProto {
    fn from(kind: FileType) -> (r: Self) {
        match kind {
            FileType::File => FileTypeProto::FileTypeFile,
            FileType::Dir => FileTypeProto::FileTypeDir,
        }
    }
}

/// The wire form of a write mode.
pub open spec fn write_mode_encode(mode: WriteMode) -> OpenWriteModeProto {
    match mode {
        WriteMode::Overwrite => OpenWriteModeProto::OpenWriteModeWrite,
        WriteMode::Append => OpenWriteModeProto::OpenWriteModeAppend,
    }
}

/// The write mode that a message names. An absent intent is rejected.
pub open spec fn write_mode_decode(mode: OpenWriteModeProto) -> Result<WriteMode, Seq<char>> {
    match mode {
        OpenWriteModeProto::OpenWriteModeWrite => Ok(WriteMode::Overwrite),
        OpenWriteModeProto::OpenWriteModeAppend => Ok(WriteMode::Append),
        OpenWriteModeProto::OpenWriteModeUnspecified => Err("write mode is required"@),
    }
}

impl vstd::std_specs::convert::FromSpecImpl<WriteMode> for OpenWriteModeProto {
    open spec fn obeys_from_spec() -> bool {
        true
    }

    open spec fn from_spec(mode: WriteMode) -> Self {
        write_mode_encode(mode)
    }
}

impl From<WriteMode> for OpenWriteModeProto {
    fn from(mode: WriteMode) -> (r: Self) {
        match mode {
            WriteMode::Overwrite => OpenWriteModeProto::OpenWriteModeWrite,
            WriteMode::Append => OpenWriteModeProto::OpenWriteModeAppend,
        }
    }
}

impl vstd::std_specs::convert::TryFromSpecImpl<OpenWriteModeProto> for WriteMode {
    open spec fn obeys_try_from_spec() -> bool {
        false
    }

    open spec fn try_from_spec(mode: OpenWriteModeProto) -> Result<Self, String> {
        arbitrary()
    }
}

impl TryFrom<OpenWriteModeProto> for WriteMode {
    type Error = String;

    fn try_from(mode: OpenWriteModeProto) -> (r: Result<Self, String>)
        ensures
            match r {
                Ok(v) => write_mode_decode(mode) == Ok::<WriteMode, Seq<char>>(v),
                Err(e) => write_mode_decode(mode) == Err::<WriteMode, Seq<char>>(e@),
            },
    {
        match mode {
            OpenWriteModeProto::OpenWriteModeWrite => Ok(WriteMode::Overwrite),
            OpenWriteModeProto::OpenWriteModeAppend => Ok(WriteMode::Append),
            OpenWriteModeProto::OpenWriteModeUnspecified => Err("write mode is required".to_owned()),
        }
    }
}

/// The write mode with a wire number.
pub open spec fn write_mode_of_raw(value: i32) -> Result<WriteMode, Seq<char>> {
    if value == 0 {
        Err("write mode is required"@)
    } else if value == 1 {
        Ok(WriteMode::Overwrite)
    } else if value == 2 {
        Ok(WriteMode::Append)
    } else {
        Err("unknown write mode: "@ + signed_decimal(value as int))
    }
}

/// Decodes a required write mode. Both an unspecified and an unknown one are rejected.
pub fn parse_write_mode(value: i32) -> (r: Result<WriteMode, String>)
    ensures
        match r {
            Ok(v) => write_mode_of_raw(value) == Ok::<WriteMode, Seq<char>>(v),
            Err(e) => write_mode_of_raw(value) == Err::<WriteMode, Seq<char>>(e@),
        },
{
    match OpenWriteModeProto::try_from(value) {
        Ok(mode) => WriteMode::try_from(mode),
        Err(_) => {
            let text = signed_decimal_text(value);
            Err(join("unknown write mode: ", text.as_str()))
        },
    }
}

/// Every write mode and every file type survives the wire.
pub proof fn fs_enums_round_trip(mode: WriteMode, kind: FileType)
    ensures
        write_mode_of_raw(write_mode_encode(mode).raw()) == Ok::<WriteMode, Seq<char>>(mode),
        file_type_decode(file_type_encode(kind)) == Ok::<FileType, Seq<char>>(kind),
{
}

/// The wire form of a write handle.
pub open spec fn write_handle_encode(handle: WriteHandle) -> WriteHandleProto {
    WriteHandleProto { inode_id: handle.inode_id.0, write_lease_epoch: handle.lease_epoch.0 }
}

/// The write handle that a message names.
pub open spec fn write_handle_decode(handle: WriteHandleProto) -> Result<WriteHandle, Seq<char>> {
    if handle.inode_id == 0 {
        Err("write_handle.inode_id must be non-zero"@)
    } else if handle.write_lease_epoch == 0 {
        Err("write_handle.write_lease_epoch must be non-zero"@)
    } else {
        Ok(
            WriteHandle {
                inode_id: InodeId(handle.inode_id),
                lease_epoch: LeaseEpoch(handle.write_lease_epoch),
            },
        )
    }
}

/// A write handle with a non-zero inode and a non-zero epoch survives the wire.
pub proof fn write_handle_round_trip(handle: WriteHandle)
    requires
        handle.inode_id.0 != 0,
        handle.lease_epoch.0 != 0,
    ensures
        write_handle_decode(write_handle_encode(handle)) == Ok::<WriteHandle, Seq<char>>(handle),
{
}

impl vstd::std_specs::convert::FromSpecImpl<WriteHandle> for WriteHandleProto {
    open spec fn obeys_from_spec() -> bool {
        true
    }

    open spec fn from_spec(handle: WriteHandle) -> Self {
        write_handle_encode(handle)
    }
}

impl From<WriteHandle> for WriteHandleProto {
    fn from(handle: WriteHandle) -> (r: Self) {
        WriteHandleProto {
            inode_id: handle.inode_id.as_raw(),
            write_lease_epoch: handle.lease_epoch.as_raw(),
        }
    }
}

impl vstd::std_specs::convert::TryFromSpecImpl<WriteHandleProto> for WriteHandle {
    open spec fn obeys_try_from_spec() -> bool {
        false
    }

    open spec fn try_from_spec(handle: WriteHandleProto) -> Result<Self, String> {
        arbitrary()
    }
}

impl TryFrom<WriteHandleProto> for WriteHandle {
    type Error = String;

    fn try_from(handle: WriteHandleProto) -> (r: Result<Self, String>)
        ensures
            match r {
                Ok(v) => write_handle_decode(handle) == Ok::<WriteHandle, Seq<char>>(v),
                Err(e) => write_handle_decode(handle) == Err::<WriteHandle, Seq<char>>(e@),
            },
    {
        if handle.inode_id == 0 {
            return Err("write_handle.inode_id must be non-zero".to_owned());
        }
        if handle.write_lease_epoch == 0 {
            return Err("write_handle.write_lease_epoch must be non-zero".to_owned());
        }
        Ok(
            WriteHandle {
                inode_id: InodeId::new(handle.inode_id),
                lease_epoch: LeaseEpoch::new(handle.write_lease_epoch),
            },
        )
    }
}

/// The wire form of a fencing token.
pub open spec fn fencing_token_encode(token: FencingToken) -> FencingTokenProto {
    FencingTokenProto {
        block_id: Some(block_id_encode(token.block_id)),
        owner: Some(client_id_encode(token.owner)),
        epoch: token.epoch.0,
    }
}

/// The fencing token that a message names.
pub open spec fn fencing_token_decode(token: FencingTokenProto) -> Result<
    FencingToken,
    Seq<char>,
> {
    match block_id_required(token.block_id, "block_id in token"@) {
        Err(e) => Err(e),
        Ok(block_id) => match client_id_required(token.owner, "owner in token"@) {
            Err(e) => Err(e),
            Ok(owner) => Ok(FencingToken { block_id, owner, epoch: LeaseEpoch(token.epoch) }),
        },
    }
}

/// A fencing token with a non-zero inode and a non-zero owner survives the wire.
pub proof fn fencing_token_round_trip(token: FencingToken)
    requires
        token.block_id.inode_id.0 != 0,
        token.owner.0 != 0,
    ensures
        fencing_token_decode(fencing_token_encode(token)) == Ok::<FencingToken, Seq<char>>(token),
{
    client_id_round_trip(token.owner);
}

impl vstd::std_specs::convert::FromSpecImpl<FencingToken> for FencingTokenProto {
    open spec fn obeys_from_spec() -> bool {
        true
    }

    open spec fn from_spec(token: FencingToken) -> Self {
        fencing_token_encode(token)
    }
}

impl From<FencingToken> for FencingTokenProto {
    fn from(token: FencingToken) -> (r: Self) {
        FencingTokenProto {
            block_id: Some(BlockIdProto::from(token.block_id)),
            owner: Some(ClientIdProto::from(token.owner)),
            epoch: token.epoch.as_raw(),
        }
    }
}

impl vstd::std_specs::convert::TryFromSpecImpl<FencingTokenProto> for FencingToken {
    open spec fn obeys_try_from_spec() -> bool {
        false
    }

    open spec fn try_from_spec(token: FencingTokenProto) -> Result<Self, String> {
        arbitrary()
    }
}

impl TryFrom<FencingTokenProto> for FencingToken {
    type Error = String;

    fn try_from(token: FencingTokenProto) -> (r: Result<Self, String>)
        ensures
            match r {
                Ok(v) => fencing_token_decode(token) == Ok::<FencingToken, Seq<char>>(v),
                Err(e) => fencing_token_decode(token) == Err::<FencingToken, Seq<char>>(e@),
            },
    {
        let block_id = match required_block_id(token.block_id, "block_id in token") {
            Ok(block_id) => block_id,
            Err(e) => return Err(e),
        };
        let owner = match required_client_id(token.owner, "owner in token") {
            Ok(owner) => owner,
            Err(e) => return Err(e),
        };
        Ok(FencingToken::new(block_id, owner, LeaseEpoch::new(token.epoch)))
    }
}

/// A required fencing token of the named field.
pub open spec fn fencing_token_required(
    proto: Option<FencingTokenProto>,
    field: Seq<char>,
) -> Result<FencingToken, Seq<char>> {
    match proto {
        None => Err("missing "@ + field),
        Some(p) => fencing_token_decode(p),
    }
}

/// Parses a required fencing token, without choosing the caller's error policy.
pub fn required_fencing_token(proto: Option<FencingTokenProto>, field_name: &str) -> (r: Result<
    FencingToken,
    String,
>)
    ensures
        match r {
            Ok(v) => fencing_token_required(proto, field_name@) == Ok::<FencingToken, Seq<char>>(
                v,
            ),
            Err(e) => fencing_token_required(proto, field_name@) == Err::<FencingToken, Seq<char>>(
                e@,
            ),
        },
{
    match proto {
        None => Err(join("missing ", field_name)),
        Some(p) => FencingToken::try_from(p),
    }
}

/// A required worker run identity of the named field.
pub open spec fn worker_run_id_required(value: Seq<char>, field: Seq<char>) -> Result<
    WorkerRunId,
    Seq<char>,
> {
    if value.len() == 0 {
        Err(field + " must not be empty"@)
    } else {
        match WorkerRunId::parsed_spec(uuid_parse(value)) {
            Ok(id) => Ok(id),
            Err(e) => Err(field + " invalid: "@ + e),
        }
    }
}

/// Parses a required worker run identity, without choosing the caller's error policy.
pub fn require_worker_run_id(value: &str, field_name: &str) -> (r: Result<WorkerRunId, String>)
    ensures
        match r {
            Ok(v) => worker_run_id_required(value@, field_name@) == Ok::<WorkerRunId, Seq<char>>(
                v,
            ),
            Err(e) => worker_run_id_required(value@, field_name@) == Err::<WorkerRunId, Seq<char>>(
                e@,
            ),
        },
{
    if value.is_empty() {
        return Err(join(field_name, " must not be empty"));
    }
    match WorkerRunId::parse(value) {
        Ok(id) => Ok(id),
        Err(e) => {
            let mut out = join(field_name, " invalid: ");
            out.append(e.as_str());
            Err(out)
        },
    }
}

/// The wire form of a tier.
pub open spec fn tier_encode(tier: Tier) -> TierProto {
    match tier {
        Tier::Mem => TierProto::TierMem,
        Tier::Nvme => TierProto::TierNvme,
        Tier::Ssd => TierProto::TierSsd,
        Tier::Hdd => TierProto::TierHdd,
    }
}

/// The tier that a message names.
pub open spec fn tier_decode(tier: TierProto) -> Result<Tier, Seq<char>> {
    match tier {
        TierProto::TierMem => Ok(Tier::Mem),
        TierProto::TierNvme => Ok(Tier::Nvme),
        TierProto::TierSsd => Ok(Tier::Ssd),
        TierProto::TierHdd => Ok(Tier::Hdd),
        TierProto::TierUnspecified => Err("tier must be specified"@),
    }
}

impl vstd::std_specs::convert::FromSpecImpl<Tier> for TierProto {
    open spec fn obeys_from_spec() -> bool {
        true
    }

    open spec fn from_spec(tier: Tier) -> Self {
        tier_encode(tier)
    }
}

impl From<Tier> for TierProto {
    fn from(tier: Tier) -> (r: Self) {
        match tier {
            Tier::Mem => TierProto::TierMem,
            Tier::Nvme => TierProto::TierNvme,
            Tier::Ssd => TierProto::TierSsd,
            Tier::Hdd => TierProto::TierHdd,
        }
    }
}

impl vstd::std_specs::convert::TryFromSpecImpl<TierProto> for Tier {
    open spec fn obeys_try_from_spec() -> bool {
        false
    }

    open spec fn try_from_spec(tier: TierProto) -> Result<Self, String> {
        arbitrary()
    }
}

impl TryFrom<TierProto> for Tier {
    type Error = String;

    fn try_from(tier: TierProto) -> (r: Result<Self, String>)
        ensures
            match r {
                Ok(v) => tier_decode(tier) == Ok::<Tier, Seq<char>>(v),
                Err(e) => tier_decode(tier) == Err::<Tier, Seq<char>>(e@),
            },
    {
        match tier {
            TierProto::TierMem => Ok(Tier::Mem),
            TierProto::TierNvme => Ok(Tier::Nvme),
            TierProto::TierSsd => Ok(Tier::Ssd),
            TierProto::TierHdd => Ok(Tier::Hdd),
            TierProto::TierUnspecified => Err("tier must be specified".to_owned()),
        }
    }
}

/// The tier with a wire number.
pub open spec fn tier_of_raw(value: i32) -> Result<Tier, Seq<char>> {
    if value == 0 {
        Err("tier must be specified"@)
    } else if value == 1 {
        Ok(Tier::Mem)
    } else if value == 2 {
        Ok(Tier::Nvme)
    } else if value == 3 {
        Ok(Tier::Ssd)
    } else if value == 4 {
        Ok(Tier::Hdd)
    } else {
        Err("unknown tier value "@ + signed_decimal(value as int))
    }
}

/// Every tier survives the wire.
pub proof fn tier_round_trip(tier: Tier)
    ensures
        tier_of_raw(tier_encode(tier).raw()) == Ok::<Tier, Seq<char>>(tier),
{
}

/// Decodes a required tier.
pub fn parse_known_tier(value: i32) -> (r: Result<Tier, String>)
    ensures
        match r {
            Ok(v) => tier_of_raw(value) == Ok::<Tier, Seq<char>>(v),
            Err(e) => tier_of_raw(value) == Err::<Tier, Seq<char>>(e@),
        },
{
    match TierProto::try_from(value) {
        Ok(tier) => Tier::try_from(tier),
        Err(_) => {
            let text = signed_decimal_text(value);
            Err(join("unknown tier value ", text.as_str()))
        },
    }
}

// ---- worker endpoints ----

/// The endpoint that raw wire fields name.
pub open spec fn worker_endpoint_decode(
    worker_id: WorkerId,
    endpoint: Seq<char>,
    worker_run_id: Seq<char>,
) -> Result<WorkerEndpointInfoView, Seq<char>> {
    if worker_id.0 == 0 {
        Err("WorkerEndpointInfoProto.worker_id must be non-zero"@)
    } else if endpoint.len() == 0 {
        Err("WorkerEndpointInfoProto.endpoint must not be empty"@)
    } else {
        match worker_run_id_required(worker_run_id, "WorkerEndpointInfoProto.worker_run_id"@) {
            Err(e) => Err(e),
            Ok(worker_run_id) => Ok(
                WorkerEndpointInfoView {
                    worker_id,
                    endpoint,
                    worker_net_protocol: WorkerNetProtocol::Grpc,
                    worker_run_id,
                },
            ),
        }
    }
}

/// The endpoint that a message names.
pub open spec fn endpoint_decode(endpoint: WorkerEndpointInfoProtoView) -> Result<
    WorkerEndpointInfoView,
    Seq<char>,
> {
    worker_endpoint_decode(
        WorkerId(endpoint.worker_id),
        endpoint.endpoint,
        endpoint.worker_run_id,
    )
}

/// The wire form of an endpoint.
pub open spec fn endpoint_encode(endpoint: WorkerEndpointInfoView) -> WorkerEndpointInfoProtoView {
    WorkerEndpointInfoProtoView {
        worker_id: endpoint.worker_id.0,
        endpoint: endpoint.endpoint,
        worker_run_id: hyphenated_text(endpoint.worker_run_id.0),
    }
}

/// Whether an endpoint can be told on the wire.
pub open spec fn endpoint_ok(endpoint: WorkerEndpointInfoView) -> bool {
    endpoint.worker_id.0 != 0 && endpoint.endpoint.len() > 0 && endpoint.worker_run_id.0 != 0
}

/// Builds an endpoint from raw wire fields.
pub fn worker_endpoint_info_from_parts(
    worker_id: WorkerId,
    endpoint: String,
    worker_run_id: String,
) -> (r: Result<WorkerEndpointInfo, String>)
    ensures
        ({
            let decoded = worker_endpoint_decode(worker_id, endpoint@, worker_run_id@);
            match r {
                Ok(v) => decoded == Ok::<WorkerEndpointInfoView, Seq<char>>(v@),
                Err(e) => decoded == Err::<WorkerEndpointInfoView, Seq<char>>(e@),
            }
        }),
{
    if worker_id.as_raw() == 0 {
        return Err("WorkerEndpointInfoProto.worker_id must be non-zero".to_owned());
    }
    if endpoint.as_str().is_empty() {
        return Err("WorkerEndpointInfoProto.endpoint must not be empty".to_owned());
    }
    let worker_run_id = match require_worker_run_id(
        worker_run_id.as_str(),
        "WorkerEndpointInfoProto.worker_run_id",
    ) {
        Ok(worker_run_id) => worker_run_id,
        Err(e) => return Err(e),
    };
    Ok(
        WorkerEndpointInfo {
            worker_id,
            endpoint,
            worker_net_protocol: WorkerNetProtocol::Grpc,
            worker_run_id,
        },
    )
}

impl vstd::std_specs::convert::TryFromSpecImpl<WorkerEndpointInfoProto> for WorkerEndpointInfo {
    open spec fn obeys_try_from_spec() -> bool {
        false
    }

    open spec fn try_from_spec(endpoint: WorkerEndpointInfoProto) -> Result<Self, String> {
        arbitrary()
    }
}

impl TryFrom<WorkerEndpointInfoProto> for WorkerEndpointInfo {
    type Error = String;

    fn try_from(endpoint: WorkerEndpointInfoProto) -> (r: Result<Self, String>)
        ensures
            match r {
                Ok(v) => endpoint_decode(endpoint@) == Ok::<WorkerEndpointInfoView, Seq<char>>(v@),
                Err(e) => endpoint_decode(endpoint@) == Err::<WorkerEndpointInfoView, Seq<char>>(
                    e@,
                ),
            },
    {
        worker_endpoint_info_from_parts(
            WorkerId::new(endpoint.worker_id),
            endpoint.endpoint,
            endpoint.worker_run_id,
        )
    }
}

impl<'a> vstd::std_specs::convert::FromSpecImpl<&'a WorkerEndpointInfo> for WorkerEndpointInfoProto {
    open spec fn obeys_from_spec() -> bool {
        false
    }

    open spec fn from_spec(endpoint: &'a WorkerEndpointInfo) -> Self {
        arbitrary()
    }
}

impl<'a> From<&'a WorkerEndpointInfo> for WorkerEndpointInfoProto {
    /// An endpoint that can be told on the wire reads back as itself.
    fn from(endpoint: &'a WorkerEndpointInfo) -> (r: Self)
        ensures
            r@ == endpoint_encode(endpoint@),
            endpoint_ok(endpoint@) ==> endpoint_decode(r@) == Ok::<
                WorkerEndpointInfoView,
                Seq<char>,
            >(endpoint@),
    {
        let worker_run_id = endpoint.worker_run_id.to_text();
        proof {
            lemma_hyphenated_len(endpoint.worker_run_id.0);
        }
        WorkerEndpointInfoProto {
            worker_id: endpoint.worker_id.as_raw(),
            endpoint: endpoint.endpoint.clone(),
            worker_run_id,
        }
    }
}

impl vstd::std_specs::convert::FromSpecImpl<WorkerEndpointInfo> for WorkerEndpointInfoProto {
    open spec fn obeys_from_spec() -> bool {
        false
    }

    open spec fn from_spec(endpoint: WorkerEndpointInfo) -> Self {
        arbitrary()
    }
}

impl From<WorkerEndpointInfo> for WorkerEndpointInfoProto {
    fn from(endpoint: WorkerEndpointInfo) -> (r: Self)
        ensures
            r@ == endpoint_encode(endpoint@),
            endpoint_ok(endpoint@) ==> endpoint_decode(r@) == Ok::<
                WorkerEndpointInfoView,
                Seq<char>,
            >(endpoint@),
    {
        WorkerEndpointInfoProto::from(&endpoint)
    }
}

/// The text of a UUID is not empty.
pub proof fn lemma_hyphenated_len(value: u128)
    ensures
        hyphenated_text(value).len() == 36,
{
    lemma_hex_len(value as nat, 32);
}

proof fn lemma_hex_len(n: nat, width: nat)
    ensures
        crate::text::hex_digits(n, width).len() == width,
    decreases width,
{
    if width > 0 {
        lemma_hex_len(n / 16, (width - 1) as nat);
    }
}

/// The endpoints that messages name. The first message that names none decides the error.
pub open spec fn endpoints_decode(endpoints: Seq<WorkerEndpointInfoProtoView>) -> Result<
    Seq<WorkerEndpointInfoView>,
    Seq<char>,
>
    decreases endpoints.len(),
{
    if endpoints.len() == 0 {
        Ok(Seq::empty())
    } else {
        match endpoints_decode(endpoints.drop_last()) {
            Err(e) => Err(e),
            Ok(front) => match endpoint_decode(endpoints.last()) {
                Err(e) => Err(e),
                Ok(last) => Ok(front.push(last)),
            },
        }
    }
}

/// The wire form of a sequence of endpoints.
pub open spec fn endpoints_encode(endpoints: Seq<WorkerEndpointInfoView>) -> Seq<
    WorkerEndpointInfoProtoView,
> {
    endpoints.map_values(|e: WorkerEndpointInfoView| endpoint_encode(e))
}

/// Whether every endpoint can be told on the wire.
pub open spec fn endpoints_ok(endpoints: Seq<WorkerEndpointInfoView>) -> bool {
    forall|i: int| 0 <= i < endpoints.len() ==> endpoint_ok(#[trigger] endpoints[i])
}

proof fn lemma_endpoints_error(endpoints: Seq<WorkerEndpointInfoProtoView>, k: int)
    requires
        0 <= k <= endpoints.len(),
        endpoints_decode(endpoints.take(k)) is Err,
    ensures
        endpoints_decode(endpoints) == endpoints_decode(endpoints.take(k)),
    decreases endpoints.len() - k,
{
    if k == endpoints.len() {
        assert(endpoints.take(k) =~= endpoints);
    } else {
        assert(endpoints.take(k + 1).drop_last() =~= endpoints.take(k));
        lemma_endpoints_error(endpoints, k + 1);
    }
}

fn decode_endpoints(endpoints: Vec<WorkerEndpointInfoProto>) -> (r: Result<
    Vec<WorkerEndpointInfo>,
    String,
>)
    ensures
        ({
            let decoded = endpoints_decode(endpoint_proto_views(endpoints@));
            match r {
                Ok(v) => decoded == Ok::<Seq<WorkerEndpointInfoView>, Seq<char>>(
                    endpoint_views(v@),
                ),
                Err(e) => decoded == Err::<Seq<WorkerEndpointInfoView>, Seq<char>>(e@),
            }
        }),
{
    let ghost views = endpoint_proto_views(endpoints@);
    let mut out: Vec<WorkerEndpointInfo> = Vec::new();
    let mut i: usize = 0;
    assert(views.take(0) =~= Seq::empty());
    assert(endpoint_views(out@) =~= Seq::empty());
    while i < endpoints.len()
        invariant
            views == endpoint_proto_views(endpoints@),
            i <= endpoints@.len(),
            endpoints_decode(views.take(i as int)) == Ok::<
                Seq<WorkerEndpointInfoView>,
                Seq<char>,
            >(endpoint_views(out@)),
        decreases endpoints.len() - i,
    {
        let message = &endpoints[i];
        assert(views.take(i as int + 1).drop_last() =~= views.take(i as int));
        assert(views.take(i as int + 1).last() == message@);
        match worker_endpoint_info_from_parts(
            WorkerId::new(message.worker_id),
            message.endpoint.clone(),
            message.worker_run_id.clone(),
        ) {
            Ok(endpoint) => {
                let ghost before = out@;
                out.push(endpoint);
                assert(endpoint_views(out@) =~= endpoint_views(before).push(endpoint@));
            },
            Err(e) => {
                proof {
                    lemma_endpoints_error(views, i as int + 1);
                }
                return Err(e);
            },
        }
        i += 1;
    }
    assert(views.take(i as int) =~= views);
    Ok(out)
}

proof fn lemma_endpoints_round_trip(
    endpoints: Seq<WorkerEndpointInfoView>,
    messages: Seq<WorkerEndpointInfoProtoView>,
)
    requires
        endpoints.len() == messages.len(),
        forall|i: int|
            0 <= i < endpoints.len() ==> endpoint_decode(#[trigger] messages[i]) == Ok::<
                WorkerEndpointInfoView,
                Seq<char>,
            >(endpoints[i]),
    ensures
        endpoints_decode(messages) == Ok::<Seq<WorkerEndpointInfoView>, Seq<char>>(endpoints),
    decreases endpoints.len(),
{
    if endpoints.len() == 0 {
        assert(endpoints =~= Seq::empty());
    } else {
        let front = messages.drop_last();
        assert forall|i: int| 0 <= i < front.len() implies endpoint_decode(#[trigger] front[i])
            == Ok::<WorkerEndpointInfoView, Seq<char>>(endpoints.drop_last()[i]) by {
            assert(front[i] == messages[i]);
        }
        lemma_endpoints_round_trip(endpoints.drop_last(), front);
        assert(endpoint_decode(messages[messages.len() - 1]) == Ok::<
            WorkerEndpointInfoView,
            Seq<char>,
        >(endpoints[endpoints.len() - 1]));
        assert(endpoints.drop_last().push(endpoints.last()) =~= endpoints);
    }
}

fn encode_endpoints(endpoints: &Vec<WorkerEndpointInfo>) -> (r: Vec<WorkerEndpointInfoProto>)
    ensures
        endpoint_proto_views(r@) == endpoints_encode(endpoint_views(endpoints@)),
        endpoints_ok(endpoint_views(endpoints@)) ==> endpoints_decode(endpoint_proto_views(r@))
            == Ok::<Seq<WorkerEndpointInfoView>, Seq<char>>(endpoint_views(endpoints@)),
{
    let ghost views = endpoint_views(endpoints@);
    let mut out: Vec<WorkerEndpointInfoProto> = Vec::new();
    let mut i: usize = 0;
    while i < endpoints.len()
        invariant
            views == endpoint_views(endpoints@),
            i <= endpoints@.len(),
            out@.len() == i,
            forall|k: int| 0 <= k < i ==> #[trigger] out@[k]@ == endpoint_encode(views[k]),
            forall|k: int|
                0 <= k < i && endpoint_ok(views[k]) ==> endpoint_decode(#[trigger] out@[k]@)
                    == Ok::<WorkerEndpointInfoView, Seq<char>>(views[k]),
        decreases endpoints.len() - i,
    {
        let message = WorkerEndpointInfoProto::from(&endpoints[i]);
        out.push(message);
        i += 1;
    }
    proof {
        let messages = endpoint_proto_views(out@);
        assert(messages =~= endpoints_encode(views));
        if endpoints_ok(views) {
            assert forall|k: int| 0 <= k < views.len() implies endpoint_decode(
                #[trigger] messages[k],
            ) == Ok::<WorkerEndpointInfoView, Seq<char>>(views[k]) by {
                assert(endpoint_ok(views[k]));
                assert(messages[k] == out@[k]@);
            }
            lemma_endpoints_round_trip(views, messages);
        }
    }
    out
}

// ---- locations ----

/// The located block that a message names: the first field that is wrong decides the error.
pub open spec fn located_block_decode(target: LocatedBlockProtoView) -> Result<
    LocatedBlockView,
    Seq<char>,
> {
    let block_format_id = BlockFormatId(target.block_format_id);
    let shape = BlockShape {
        block_format_id,
        block_size: target.block_size,
        chunk_size: target.chunk_size,
        effective_len: target.block_size,
    };
    if !block_format_id.is_known() {
        Err(
            "LocatedBlockProto.block_format_id invalid: "@ + (BlockFormatIdError {
                raw: target.block_format_id,
            }).text(),
        )
    } else if shape_error(shape) is Some {
        Err("LocatedBlockProto invalid block shape: "@ + (shape_error(shape)->0).text())
    } else if target.worker_endpoints.len() == 0 {
        Err("LocatedBlockProto.worker_endpoints must not be empty"@)
    } else if target.write_offset >= target.block_size {
        Err("LocatedBlockProto.write_offset must be below block capacity"@)
    } else {
        match tier_of_raw(target.tier) {
            Err(e) => Err("LocatedBlockProto.tier invalid: "@ + e),
            Ok(tier) => match block_id_required(target.block_id, "LocatedBlockProto.block_id"@) {
                Err(e) => Err(e),
                Ok(block_id) => match fencing_token_required(
                    target.fencing_token,
                    "LocatedBlockProto.fencing_token"@,
                ) {
                    Err(e) => Err(e),
                    Ok(fencing_token) => if fencing_token.block_id != block_id {
                        Err("LocatedBlockProto.fencing_token block_id must match block_id"@)
                    } else if fencing_token.owner.0 == 0 || fencing_token.epoch.0 == 0 {
                        Err("LocatedBlockProto.fencing_token owner and epoch must be non-zero"@)
                    } else {
                        match endpoints_decode(target.worker_endpoints) {
                            Err(e) => Err(e),
                            Ok(worker_endpoints) => Ok(
                                LocatedBlockView {
                                    block_id,
                                    file_offset: target.file_offset,
                                    block_size: target.block_size,
                                    worker_endpoints,
                                    fencing_token,
                                    write_offset: target.write_offset,
                                    chunk_size: target.chunk_size,
                                    block_format_id,
                                    tier,
                                },
                            ),
                        }
                    },
                },
            },
        }
    }
}

/// The wire form of a located block.
pub open spec fn located_block_encode(target: LocatedBlockView) -> LocatedBlockProtoView {
    LocatedBlockProtoView {
        block_id: Some(block_id_encode(target.block_id)),
        file_offset: target.file_offset,
        write_offset: target.write_offset,
        worker_endpoints: endpoints_encode(target.worker_endpoints),
        fencing_token: Some(fencing_token_encode(target.fencing_token)),
        chunk_size: target.chunk_size,
        block_format_id: target.block_format_id.0,
        block_size: target.block_size,
        tier: tier_encode(target.tier).raw(),
    }
}

/// Whether a located block can be told on the wire.
pub open spec fn located_block_ok(target: LocatedBlockView) -> bool {
    &&& target.block_format_id.is_known()
    &&& shape_error(
        BlockShape {
            block_format_id: target.block_format_id,
            block_size: target.block_size,
            chunk_size: target.chunk_size,
            effective_len: target.block_size,
        },
    ) is None
    &&& target.worker_endpoints.len() > 0
    &&& endpoints_ok(target.worker_endpoints)
    &&& target.write_offset < target.block_size
    &&& target.block_id.inode_id.0 != 0
    &&& target.fencing_token.block_id == target.block_id
    &&& target.fencing_token.owner.0 != 0
    &&& target.fencing_token.epoch.0 != 0
}

impl vstd::std_specs::convert::TryFromSpecImpl<LocatedBlockProto> for LocatedBlock {
    open spec fn obeys_try_from_spec() -> bool {
        false
    }

    open spec fn try_from_spec(target: LocatedBlockProto) -> Result<Self, String> {
        arbitrary()
    }
}

impl TryFrom<LocatedBlockProto> for LocatedBlock {
    type Error = String;

    /// Checks write locations, block shape and matching fencing identity at the wire.
    fn try_from(target: LocatedBlockProto) -> (r: Result<Self, String>)
        ensures
            match r {
                Ok(v) => located_block_decode(target@) == Ok::<LocatedBlockView, Seq<char>>(v@),
                Err(e) => located_block_decode(target@) == Err::<LocatedBlockView, Seq<char>>(e@),
            },
    {
        let block_format_id = match BlockFormatId::from_raw(target.block_format_id) {
            Ok(id) => id,
            Err(e) => {
                let text = e.message();
                return Err(join("LocatedBlockProto.block_format_id invalid: ", text.as_str()));
            },
        };
        match BlockShape::new(
            block_format_id,
            target.block_size,
            target.chunk_size,
            target.block_size,
        ) {
            Ok(_) => {},
            Err(e) => {
                let text = e.message();
                return Err(join("LocatedBlockProto invalid block shape: ", text.as_str()));
            },
        }
        if target.worker_endpoints.len() == 0 {
            return Err("LocatedBlockProto.worker_endpoints must not be empty".to_owned());
        }
        if target.write_offset >= target.block_size {
            return Err("LocatedBlockProto.write_offset must be below block capacity".to_owned());
        }
        let tier = match parse_known_tier(target.tier) {
            Ok(tier) => tier,
            Err(e) => return Err(join("LocatedBlockProto.tier invalid: ", e.as_str())),
        };
        let block_id = match required_block_id(target.block_id, "LocatedBlockProto.block_id") {
            Ok(block_id) => block_id,
            Err(e) => return Err(e),
        };
        let fencing_token = match required_fencing_token(
            target.fencing_token,
            "LocatedBlockProto.fencing_token",
        ) {
            Ok(fencing_token) => fencing_token,
            Err(e) => return Err(e),
        };
        if fencing_token.block_id != block_id {
            return Err(
                "LocatedBlockProto.fencing_token block_id must match block_id".to_owned(),
            );
        }
        if fencing_token.owner.is_zero() || fencing_token.epoch.as_raw() == 0 {
            return Err(
                "LocatedBlockProto.fencing_token owner and epoch must be non-zero".to_owned(),
            );
        }
        let worker_endpoints = match decode_endpoints(target.worker_endpoints) {
            Ok(worker_endpoints) => worker_endpoints,
            Err(e) => return Err(e),
        };
        Ok(
            LocatedBlock {
                block_id,
                file_offset: target.file_offset,
                block_size: target.block_size,
                worker_endpoints,
                fencing_token,
                write_offset: target.write_offset,
                chunk_size: target.chunk_size,
                block_format_id,
                tier,
            },
        )
    }
}

impl<'a> vstd::std_specs::convert::FromSpecImpl<&'a LocatedBlock> for LocatedBlockProto {
    open spec fn obeys_from_spec() -> bool {
        false
    }

    open spec fn from_spec(target: &'a LocatedBlock) -> Self {
        arbitrary()
    }
}

impl<'a> From<&'a LocatedBlock> for LocatedBlockProto {
    /// A located block that can be told on the wire reads back as itself.
    fn from(target: &'a LocatedBlock) -> (r: Self)
        ensures
            r@ == located_block_encode(target@),
            located_block_ok(target@) ==> located_block_decode(r@) == Ok::<
                LocatedBlockView,
                Seq<char>,
            >(target@),
    {
        let worker_endpoints = encode_endpoints(&target.worker_endpoints);
        proof {
            tier_round_trip(target.tier);
            if target.fencing_token.owner.0 != 0 && target.block_id.inode_id.0 != 0
                && target.fencing_token.block_id == target.block_id {
                fencing_token_round_trip(target.fencing_token);
            }
        }
        LocatedBlockProto {
            block_id: Some(BlockIdProto::from(target.block_id)),
            file_offset: target.file_offset,
            write_offset: target.write_offset,
            worker_endpoints,
            fencing_token: Some(FencingTokenProto::from(target.fencing_token)),
            chunk_size: target.chunk_size,
            block_format_id: target.block_format_id.as_raw(),
            block_size: target.block_size,
            tier: TierProto::from(target.tier).as_raw(),
        }
    }
}

impl vstd::std_specs::convert::FromSpecImpl<LocatedBlock> for LocatedBlockProto {
    open spec fn obeys_from_spec() -> bool {
        false
    }

    open spec fn from_spec(target: LocatedBlock) -> Self {
        arbitrary()
    }
}

impl From<LocatedBlock> for LocatedBlockProto {
    fn from(target: LocatedBlock) -> (r: Self)
        ensures
            r@ == located_block_encode(target@),
            located_block_ok(target@) ==> located_block_decode(r@) == Ok::<
                LocatedBlockView,
                Seq<char>,
            >(target@),
    {
        LocatedBlockProto::from(&target)
    }
}

/// The committed block that a message names.
pub open spec fn committed_block_decode(block: CommittedBlockProto) -> Result<
    CommittedBlock,
    Seq<char>,
> {
    match block_id_required(block.block_id, "CommittedBlockProto.block_id"@) {
        Err(e) => Err(e),
        Ok(block_id) => Ok(CommittedBlock { block_id, len: block.len }),
    }
}

/// The wire form of a committed block.
pub open spec fn committed_block_encode(block: CommittedBlock) -> CommittedBlockProto {
    CommittedBlockProto { block_id: Some(block_id_encode(block.block_id)), len: block.len }
}

/// A committed block with a non-zero inode survives the wire.
pub proof fn committed_block_round_trip(block: CommittedBlock)
    requires
        block.block_id.inode_id.0 != 0,
    ensures
        committed_block_decode(committed_block_encode(block)) == Ok::<CommittedBlock, Seq<char>>(
            block,
        ),
{
}

impl vstd::std_specs::convert::TryFromSpecImpl<CommittedBlockProto> for CommittedBlock {
    open spec fn obeys_try_from_spec() -> bool {
        false
    }

    open spec fn try_from_spec(block: CommittedBlockProto) -> Result<Self, String> {
        arbitrary()
    }
}

impl TryFrom<CommittedBlockProto> for CommittedBlock {
    type Error = String;

    fn try_from(block: CommittedBlockProto) -> (r: Result<Self, String>)
        ensures
            match r {
                Ok(v) => committed_block_decode(block) == Ok::<CommittedBlock, Seq<char>>(v),
                Err(e) => committed_block_decode(block) == Err::<CommittedBlock, Seq<char>>(e@),
            },
    {
        match required_block_id(block.block_id, "CommittedBlockProto.block_id") {
            Ok(block_id) => Ok(CommittedBlock { block_id, len: block.len }),
            Err(e) => Err(e),
        }
    }
}

impl vstd::std_specs::convert::FromSpecImpl<CommittedBlock> for CommittedBlockProto {
    open spec fn obeys_from_spec() -> bool {
        true
    }

    open spec fn from_spec(block: CommittedBlock) -> Self {
        committed_block_encode(block)
    }
}

impl From<CommittedBlock> for CommittedBlockProto {
    fn from(block: CommittedBlock) -> (r: Self) {
        CommittedBlockProto { block_id: Some(BlockIdProto::from(block.block_id)), len: block.len }
    }
}

impl<'a> vstd::std_specs::convert::FromSpecImpl<&'a CommittedBlock> for CommittedBlockProto {
    open spec fn obeys_from_spec() -> bool {
        true
    }

    open spec fn from_spec(block: &'a CommittedBlock) -> Self {
        committed_block_encode(*block)
    }
}

impl<'a> From<&'a CommittedBlock> for CommittedBlockProto {
    fn from(block: &'a CommittedBlock) -> (r: Self) {
        CommittedBlockProto { block_id: Some(BlockIdProto::from(block.block_id)), len: block.len }
    }
}

/// The readable location that a message names: the first field that is wrong decides the
/// error.
pub open spec fn location_decode(location: FileBlockLocationProtoView) -> Result<
    FileBlockLocationView,
    Seq<char>,
> {
    let block_format_id = BlockFormatId(location.block_format_id);
    let shape = BlockShape {
        block_format_id,
        block_size: location.block_size,
        chunk_size: location.chunk_size,
        effective_len: location.effective_len,
    };
    if location.len == 0 {
        Err("FileBlockLocationProto.len must be non-zero"@)
    } else if !block_format_id.is_known() {
        Err(
            "FileBlockLocationProto.block_format_id invalid: "@ + (BlockFormatIdError {
                raw: location.block_format_id,
            }).text(),
        )
    } else if shape_error(shape) is Some {
        Err("FileBlockLocationProto invalid block shape: "@ + (shape_error(shape)->0).text())
    } else {
        match block_id_required(location.block_id, "FileBlockLocationProto.block_id"@) {
            Err(e) => Err(e),
            Ok(block_id) => match endpoints_decode(location.workers) {
                Err(e) => Err(e),
                Ok(workers) => Ok(
                    FileBlockLocationView {
                        block_id,
                        file_offset: location.file_offset,
                        len: location.len,
                        workers,
                        block_format_id,
                        block_size: location.block_size,
                        chunk_size: location.chunk_size,
                        effective_len: location.effective_len,
                    },
                ),
            },
        }
    }
}

/// The wire form of a readable location.
pub open spec fn location_encode(location: FileBlockLocationView) -> FileBlockLocationProtoView {
    FileBlockLocationProtoView {
        block_id: Some(block_id_encode(location.block_id)),
        file_offset: location.file_offset,
        len: location.len,
        workers: endpoints_encode(location.workers),
        block_format_id: location.block_format_id.0,
        block_size: location.block_size,
        chunk_size: location.chunk_size,
        effective_len: location.effective_len,
    }
}

/// Whether a readable location can be told on the wire.
pub open spec fn location_ok(location: FileBlockLocationView) -> bool {
    &&& location.len != 0
    &&& location.block_format_id.is_known()
    &&& shape_error(
        BlockShape {
            block_format_id: location.block_format_id,
            block_size: location.block_size,
            chunk_size: location.chunk_size,
            effective_len: location.effective_len,
        },
    ) is None
    &&& location.block_id.inode_id.0 != 0
    &&& endpoints_ok(location.workers)
}

impl vstd::std_specs::convert::TryFromSpecImpl<FileBlockLocationProto> for FileBlockLocation {
    open spec fn obeys_try_from_spec() -> bool {
        false
    }

    open spec fn try_from_spec(location: FileBlockLocationProto) -> Result<Self, String> {
        arbitrary()
    }
}

impl TryFrom<FileBlockLocationProto> for FileBlockLocation {
    type Error = String;

    fn try_from(location: FileBlockLocationProto) -> (r: Result<Self, String>)
        ensures
            match r {
                Ok(v) => location_decode(location@) == Ok::<FileBlockLocationView, Seq<char>>(v@),
                Err(e) => location_decode(location@) == Err::<FileBlockLocationView, Seq<char>>(
                    e@,
                ),
            },
    {
        if location.len == 0 {
            return Err("FileBlockLocationProto.len must be non-zero".to_owned());
        }
        let block_format_id = match BlockFormatId::from_raw(location.block_format_id) {
            Ok(id) => id,
            Err(e) => {
                let text = e.message();
                return Err(
                    join("FileBlockLocationProto.block_format_id invalid: ", text.as_str()),
                );
            },
        };
        match BlockShape::new(
            block_format_id,
            location.block_size,
            location.chunk_size,
            location.effective_len,
        ) {
            Ok(_) => {},
            Err(e) => {
                let text = e.message();
                return Err(join("FileBlockLocationProto invalid block shape: ", text.as_str()));
            },
        }
        let block_id = match required_block_id(
            location.block_id,
            "FileBlockLocationProto.block_id",
        ) {
            Ok(block_id) => block_id,
            Err(e) => return Err(e),
        };
        let workers = match decode_endpoints(location.workers) {
            Ok(workers) => workers,
            Err(e) => return Err(e),
        };
        Ok(
            FileBlockLocation {
                block_id,
                file_offset: location.file_offset,
                len: location.len,
                workers,
                block_format_id,
                block_size: location.block_size,
                chunk_size: location.chunk_size,
                effective_len: location.effective_len,
            },
        )
    }
}

impl<'a> vstd::std_specs::convert::FromSpecImpl<&'a FileBlockLocation> for FileBlockLocationProto {
    open spec fn obeys_from_spec() -> bool {
        false
    }

    open spec fn from_spec(location: &'a FileBlockLocation) -> Self {
        arbitrary()
    }
}

impl<'a> From<&'a FileBlockLocation> for FileBlockLocationProto {
    /// A readable location that can be told on the wire reads back as itself.
    fn from(location: &'a FileBlockLocation) -> (r: Self)
        ensures
            r@ == location_encode(location@),
            location_ok(location@) ==> location_decode(r@) == Ok::<
                FileBlockLocationView,
                Seq<char>,
            >(location@),
    {
        let workers = encode_endpoints(&location.workers);
        FileBlockLocationProto {
            block_id: Some(BlockIdProto::from(location.block_id)),
            file_offset: location.file_offset,
            len: location.len,
            workers,
            block_format_id: location.block_format_id.as_raw(),
            block_size: location.block_size,
            chunk_size: location.chunk_size,
            effective_len: location.effective_len,
        }
    }
}

impl vstd::std_specs::convert::FromSpecImpl<FileBlockLocation> for FileBlockLocationProto {
    open spec fn obeys_from_spec() -> bool {
        false
    }

    open spec fn from_spec(location: FileBlockLocation) -> Self {
        arbitrary()
    }
}

impl From<FileBlockLocation> for FileBlockLocationProto {
    fn from(location: FileBlockLocation) -> (r: Self)
        ensures
            r@ == location_encode(location@),
            location_ok(location@) ==> location_decode(r@) == Ok::<
                FileBlockLocationView,
                Seq<char>,
            >(location@),
    {
        FileBlockLocationProto::from(&location)
    }
}

// ---- Raft state ----

/// The wire form of a log identity.
pub open spec fn log_id_encode(log_id: RaftLogId) -> RaftLogIdProto {
    RaftLogIdProto {
        term: log_id.term,
        leader_node_id: log_id.leader_node_id,
        index: log_id.index,
    }
}

/// The log identity of a message.
pub open spec fn log_id_decode(log_id: RaftLogIdProto) -> RaftLogId {
    RaftLogId { term: log_id.term, leader_node_id: log_id.leader_node_id, index: log_id.index }
}

impl vstd::std_specs::convert::FromSpecImpl<RaftLogId> for RaftLogIdProto {
    open spec fn obeys_from_spec() -> bool {
        true
    }

    open spec fn from_spec(log_id: RaftLogId) -> Self {
        log_id_encode(log_id)
    }
}

impl From<RaftLogId> for RaftLogIdProto {
    fn from(log_id: RaftLogId) -> (r: Self) {
        RaftLogIdProto {
            term: log_id.term,
            leader_node_id: log_id.leader_node_id,
            index: log_id.index,
        }
    }
}

impl<'a> vstd::std_specs::convert::FromSpecImpl<&'a RaftLogId> for RaftLogIdProto {
    open spec fn obeys_from_spec() -> bool {
        true
    }

    open spec fn from_spec(log_id: &'a RaftLogId) -> Self {
        log_id_encode(*log_id)
    }
}

impl<'a> From<&'a RaftLogId> for RaftLogIdProto {
    fn from(log_id: &'a RaftLogId) -> (r: Self) {
        RaftLogIdProto::from(*log_id)
    }
}

impl vstd::std_specs::convert::FromSpecImpl<RaftLogIdProto> for RaftLogId {
    open spec fn obeys_from_spec() -> bool {
        true
    }

    open spec fn from_spec(log_id: RaftLogIdProto) -> Self {
        log_id_decode(log_id)
    }
}

impl From<RaftLogIdProto> for RaftLogId {
    fn from(log_id: RaftLogIdProto) -> (r: Self) {
        RaftLogId::new(log_id.term, log_id.leader_node_id, log_id.index)
    }
}

/// The watermark that a message names.
pub open spec fn watermark_decode(proto: GroupStateWatermarkProtoView) -> Result<
    GroupStateWatermarkView,
    Seq<char>,
> {
    match group_name_parse(proto.group_name) {
        Err(e) => Err("invalid group_name in GroupStateWatermarkProto: "@ + e.text()),
        Ok(group_name) => match proto.state_id {
            None => Err("missing state_id in GroupStateWatermarkProto"@),
            Some(state_id) => Ok(
                GroupStateWatermarkView { group_name, state_id: log_id_decode(state_id) },
            ),
        },
    }
}

/// The wire form of a watermark.
pub open spec fn watermark_encode(mark: GroupStateWatermarkView) -> GroupStateWatermarkProtoView {
    GroupStateWatermarkProtoView {
        state_id: Some(log_id_encode(mark.state_id)),
        group_name: mark.group_name,
    }
}

/// A watermark of a well-formed group survives the wire.
pub proof fn watermark_round_trip(mark: GroupStateWatermarkView)
    requires
        is_group_name(mark.group_name),
    ensures
        watermark_decode(watermark_encode(mark)) == Ok::<GroupStateWatermarkView, Seq<char>>(mark),
{
    group_name_parse_is_idempotent(mark.group_name);
}

fn decode_watermark(proto: &GroupStateWatermarkProto) -> (r: Result<GroupStateWatermark, String>)
    ensures
        match r {
            Ok(v) => watermark_decode(proto@) == Ok::<GroupStateWatermarkView, Seq<char>>(v@),
            Err(e) => watermark_decode(proto@) == Err::<GroupStateWatermarkView, Seq<char>>(e@),
        },
{
    let group_name = match GroupName::parse(proto.group_name.as_str()) {
        Ok(group_name) => group_name,
        Err(e) => {
            let text = e.message();
            return Err(
                join("invalid group_name in GroupStateWatermarkProto: ", text.as_str()),
            );
        },
    };
    match proto.state_id {
        None => Err("missing state_id in GroupStateWatermarkProto".to_owned()),
        Some(state_id) => Ok(GroupStateWatermark::new(group_name, RaftLogId::from(state_id))),
    }
}

impl vstd::std_specs::convert::TryFromSpecImpl<GroupStateWatermarkProto> for GroupStateWatermark {
    open spec fn obeys_try_from_spec() -> bool {
        false
    }

    open spec fn try_from_spec(proto: GroupStateWatermarkProto) -> Result<Self, String> {
        arbitrary()
    }
}

impl TryFrom<GroupStateWatermarkProto> for GroupStateWatermark {
    type Error = String;

    fn try_from(proto: GroupStateWatermarkProto) -> (r: Result<Self, String>)
        ensures
            match r {
                Ok(v) => watermark_decode(proto@) == Ok::<GroupStateWatermarkView, Seq<char>>(v@),
                Err(e) => watermark_decode(proto@) == Err::<GroupStateWatermarkView, Seq<char>>(
                    e@,
                ),
            },
    {
        decode_watermark(&proto)
    }
}

impl<'a> vstd::std_specs::convert::FromSpecImpl<&'a GroupStateWatermark> for GroupStateWatermarkProto {
    open spec fn obeys_from_spec() -> bool {
        false
    }

    open spec fn from_spec(mark: &'a GroupStateWatermark) -> Self {
        arbitrary()
    }
}

impl<'a> From<&'a GroupStateWatermark> for GroupStateWatermarkProto {
    /// A watermark reads back as itself.
    fn from(mark: &'a GroupStateWatermark) -> (r: Self)
        ensures
            r@ == watermark_encode(mark@),
            watermark_decode(r@) == Ok::<GroupStateWatermarkView, Seq<char>>(mark@),
            is_group_name(mark@.group_name),
    {
        let group_name = mark.group_name.to_text();
        proof {
            watermark_round_trip(mark@);
        }
        GroupStateWatermarkProto {
            state_id: Some(RaftLogIdProto::from(mark.state_id)),
            group_name,
        }
    }
}

/// The watermarks that messages name. The first message that names none decides the error.
pub open spec fn watermarks_decode(protos: Seq<GroupStateWatermarkProtoView>) -> Result<
    Seq<GroupStateWatermarkView>,
    Seq<char>,
>
    decreases protos.len(),
{
    if protos.len() == 0 {
        Ok(Seq::empty())
    } else {
        match watermarks_decode(protos.drop_last()) {
            Err(e) => Err(e),
            Ok(front) => match watermark_decode(protos.last()) {
                Err(e) => Err(e),
                Ok(last) => Ok(front.push(last)),
            },
        }
    }
}

/// The wire form of a sequence of watermarks.
pub open spec fn watermarks_encode(marks: Seq<GroupStateWatermarkView>) -> Seq<
    GroupStateWatermarkProtoView,
> {
    marks.map_values(|m: GroupStateWatermarkView| watermark_encode(m))
}

proof fn lemma_watermarks_error(protos: Seq<GroupStateWatermarkProtoView>, k: int)
    requires
        0 <= k <= protos.len(),
        watermarks_decode(protos.take(k)) is Err,
    ensures
        watermarks_decode(protos) == watermarks_decode(protos.take(k)),
    decreases protos.len() - k,
{
    if k == protos.len() {
        assert(protos.take(k) =~= protos);
    } else {
        assert(protos.take(k + 1).drop_last() =~= protos.take(k));
        lemma_watermarks_error(protos, k + 1);
    }
}

/// Decodes a sequence of watermarks.
pub fn decode_watermarks(protos: &Vec<GroupStateWatermarkProto>) -> (r: Result<
    Vec<GroupStateWatermark>,
    String,
>)
    ensures
        ({
            let decoded = watermarks_decode(watermark_proto_views(protos@));
            match r {
                Ok(v) => decoded == Ok::<Seq<GroupStateWatermarkView>, Seq<char>>(
                    watermark_views(v@),
                ),
                Err(e) => decoded == Err::<Seq<GroupStateWatermarkView>, Seq<char>>(e@),
            }
        }),
{
    let ghost views = watermark_proto_views(protos@);
    let mut out: Vec<GroupStateWatermark> = Vec::new();
    let mut i: usize = 0;
    assert(views.take(0) =~= Seq::empty());
    assert(watermark_views(out@) =~= Seq::empty());
    while i < protos.len()
        invariant
            views == watermark_proto_views(protos@),
            i <= protos@.len(),
            watermarks_decode(views.take(i as int)) == Ok::<
                Seq<GroupStateWatermarkView>,
                Seq<char>,
            >(watermark_views(out@)),
        decreases protos.len() - i,
    {
        assert(views.take(i as int + 1).drop_last() =~= views.take(i as int));
        assert(views.take(i as int + 1).last() == protos@[i as int]@);
        match decode_watermark(&protos[i]) {
            Ok(mark) => {
                let ghost before = out@;
                out.push(mark);
                assert(watermark_views(out@) =~= watermark_views(before).push(mark@));
            },
            Err(e) => {
                proof {
                    lemma_watermarks_error(views, i as int + 1);
                }
                return Err(e);
            },
        }
        i += 1;
    }
    assert(views.take(i as int) =~= views);
    Ok(out)
}

proof fn lemma_watermarks_round_trip(
    marks: Seq<GroupStateWatermarkView>,
    protos: Seq<GroupStateWatermarkProtoView>,
)
    requires
        marks.len() == protos.len(),
        forall|i: int|
            0 <= i < marks.len() ==> watermark_decode(#[trigger] protos[i]) == Ok::<
                GroupStateWatermarkView,
                Seq<char>,
            >(marks[i]),
    ensures
        watermarks_decode(protos) == Ok::<Seq<GroupStateWatermarkView>, Seq<char>>(marks),
    decreases marks.len(),
{
    if marks.len() == 0 {
        assert(marks =~= Seq::empty());
    } else {
        let front = protos.drop_last();
        assert forall|i: int| 0 <= i < front.len() implies watermark_decode(#[trigger] front[i])
            == Ok::<GroupStateWatermarkView, Seq<char>>(marks.drop_last()[i]) by {
            assert(front[i] == protos[i]);
        }
        lemma_watermarks_round_trip(marks.drop_last(), front);
        assert(watermark_decode(protos[protos.len() - 1]) == Ok::<
            GroupStateWatermarkView,
            Seq<char>,
        >(marks[marks.len() - 1]));
        assert(marks.drop_last().push(marks.last()) =~= marks);
    }
}

/// Encodes a sequence of watermarks, which reads back as itself.
pub fn encode_watermarks(marks: &Vec<GroupStateWatermark>) -> (r: Vec<GroupStateWatermarkProto>)
    ensures
        watermark_proto_views(r@) == watermarks_encode(watermark_views(marks@)),
        watermarks_decode(watermark_proto_views(r@)) == Ok::<
            Seq<GroupStateWatermarkView>,
            Seq<char>,
        >(watermark_views(marks@)),
{
    let ghost views = watermark_views(marks@);
    let mut out: Vec<GroupStateWatermarkProto> = Vec::new();
    let mut i: usize = 0;
    while i < marks.len()
        invariant
            views == watermark_views(marks@),
            i <= marks@.len(),
            out@.len() == i,
            forall|k: int| 0 <= k < i ==> #[trigger] out@[k]@ == watermark_encode(views[k]),
            forall|k: int|
                0 <= k < i ==> watermark_decode(#[trigger] out@[k]@) == Ok::<
                    GroupStateWatermarkView,
                    Seq<char>,
                >(views[k]),
        decreases marks.len() - i,
    {
        let proto = GroupStateWatermarkProto::from(&marks[i]);
        out.push(proto);
        i += 1;
    }
    proof {
        let protos = watermark_proto_views(out@);
        assert(protos =~= watermarks_encode(views));
        assert forall|k: int| 0 <= k < views.len() implies watermark_decode(#[trigger] protos[k])
            == Ok::<GroupStateWatermarkView, Seq<char>>(views[k]) by {
            assert(protos[k] == out@[k]@);
        }
        lemma_watermarks_round_trip(views, protos);
    }
    out
}

} // verus!
