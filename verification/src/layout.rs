//! File layout: block size, block format and the shape of one block.

use vstd::prelude::*;

use crate::text::{decimal, decimal_text, join};

verus! {

/// Largest logical block size accepted by the current block format. This is a
/// persisted domain invariant, not a buffering or transport policy.
pub const MAX_BLOCK_SIZE: u32 = 1073741824;

/// Storage integrity unit fixed by the durable-prefix block format.
pub const DURABLE_PREFIX_STORAGE_CHUNK_SIZE: u32 = 4194304;

/// Stable parameters selected by one block format.
#[derive(Clone, Copy, Debug, PartialEq, Eq, Hash, Structural)]
pub struct BlockFormatSpec {
    /// Storage integrity unit persisted in worker block metadata.
    pub storage_chunk_size: u32,
}

/// Block data and metadata interpretation format selected by metadata.
#[derive(Clone, Copy, Debug, PartialEq, Eq, Hash, Structural)]
pub struct BlockFormatId(pub u32);

/// The raw value is no known block format.
#[derive(Clone, Copy, Debug, PartialEq, Eq, Structural)]
pub struct BlockFormatIdError {
    pub raw: u32,
}

impl BlockFormatIdError {
    /// The wording of this error.
    pub open spec fn text(self) -> Seq<char> {
        "unknown block_format_id "@ + decimal(self.raw as nat)
    }

    /// Returns the wording of this error.
    pub fn message(self) -> (r: String)
        ensures
            r@ == self.text(),
    {
        let raw = decimal_text(self.raw as u128);
        join("unknown block_format_id ", raw.as_str())
    }
}

impl BlockFormatId {
    /// Returns the durable-prefix block format, with persisted writer fencing and atomic
    /// checkpoints.
    pub fn durable_prefix() -> (r: Self)
        ensures
            r == BlockFormatId(2),
    {
        BlockFormatId(2)
    }

    /// Returns the block format that metadata assigns to newly created files.
    pub fn current_for_new_file() -> (r: Self)
        ensures
            r == BlockFormatId(2),
    {
        Self::durable_prefix()
    }

    /// Whether this format is known.
    pub open spec fn is_known(self) -> bool {
        self.0 == 2
    }

    /// Returns the raw format identifier.
    pub fn as_raw(self) -> (r: u32)
        ensures
            r == self.0,
    {
        self.0
    }

    /// Decodes a persisted or wire block format identifier.
    pub fn from_raw(value: u32) -> (r: Result<Self, BlockFormatIdError>)
        ensures
            BlockFormatId(value).is_known() ==> r == Ok::<BlockFormatId, BlockFormatIdError>(
                BlockFormatId(value),
            ),
            !BlockFormatId(value).is_known() ==> r == Err::<BlockFormatId, BlockFormatIdError>(
                BlockFormatIdError { raw: value },
            ),
    {
        if value == 2 {
            Ok(BlockFormatId(2))
        } else {
            Err(BlockFormatIdError { raw: value })
        }
    }

    /// Returns the immutable parameters of this block format.
    pub fn format_spec(self) -> (r: Result<BlockFormatSpec, BlockFormatIdError>)
        ensures
            self.is_known() ==> r == Ok::<BlockFormatSpec, BlockFormatIdError>(
                BlockFormatSpec { storage_chunk_size: DURABLE_PREFIX_STORAGE_CHUNK_SIZE },
            ),
            !self.is_known() ==> r == Err::<BlockFormatSpec, BlockFormatIdError>(
                BlockFormatIdError { raw: self.0 },
            ),
    {
        match Self::from_raw(self.0) {
            Ok(_) => Ok(BlockFormatSpec { storage_chunk_size: DURABLE_PREFIX_STORAGE_CHUNK_SIZE }),
            Err(e) => Err(e),
        }
    }
}

/// Metadata-owned logical layout of a file inode, immutable once the file exists.
#[derive(Clone, Copy, Debug, PartialEq, Eq, Hash, Structural)]
pub struct FileLayout {
    /// Bytes per block.
    pub block_size: u32,
    pub block_format_id: BlockFormatId,
}

/// Why a file layout is not valid.
#[derive(Clone, Copy, Debug, PartialEq, Eq, Structural)]
pub enum FileLayoutError {
    ZeroBlockSize,
    BlockTooLarge { actual: u64, maximum: u64 },
    UnknownBlockFormat(BlockFormatIdError),
}

/// Validated shape of one metadata-authorized block.
#[derive(Clone, Copy, Debug, PartialEq, Eq, Hash, Structural)]
pub struct BlockShape {
    pub block_format_id: BlockFormatId,
    pub block_size: u64,
    pub chunk_size: u32,
    pub effective_len: u64,
}

/// Why a block shape is not valid.
#[derive(Clone, Copy, Debug, PartialEq, Eq, Structural)]
pub enum BlockShapeError {
    ZeroBlockSize,
    BlockTooLarge { actual: u64, maximum: u64 },
    StorageChunkSizeMismatch { expected: u32, got: u32 },
    UnknownBlockFormat(BlockFormatIdError),
    ZeroEffectiveLen,
    EffectiveLenExceedsBlock,
}

/// The wording for a block size above the maximum.
pub open spec fn block_too_large_text(actual: u64, maximum: u64) -> Seq<char> {
    "block_size "@ + decimal(actual as nat) + " exceeds maximum "@ + decimal(maximum as nat)
}

fn block_too_large_message(actual: u64, maximum: u64) -> (r: String)
    ensures
        r@ == block_too_large_text(actual, maximum),
{
    let actual_text = decimal_text(actual as u128);
    let maximum_text = decimal_text(maximum as u128);
    let mut out = join("block_size ", actual_text.as_str());
    out.append(" exceeds maximum ");
    out.append(maximum_text.as_str());
    out
}

impl BlockShapeError {
    /// The wording of this error.
    pub open spec fn text(self) -> Seq<char> {
        match self {
            BlockShapeError::ZeroBlockSize => "block_size must be non-zero"@,
            BlockShapeError::BlockTooLarge { actual, maximum } => block_too_large_text(
                actual,
                maximum,
            ),
            BlockShapeError::StorageChunkSizeMismatch { expected, got } =>
                "storage_chunk_size mismatch: expected "@ + decimal(expected as nat) + ", got "@
                    + decimal(got as nat),
            BlockShapeError::UnknownBlockFormat(e) => e.text(),
            BlockShapeError::ZeroEffectiveLen => "effective_len must be non-zero"@,
            BlockShapeError::EffectiveLenExceedsBlock => "effective_len must not exceed block_size"@,
        }
    }

    /// Returns the wording of this error.
    pub fn message(self) -> (r: String)
        ensures
            r@ == self.text(),
    {
        match self {
            BlockShapeError::ZeroBlockSize => "block_size must be non-zero".to_owned(),
            BlockShapeError::BlockTooLarge { actual, maximum } => block_too_large_message(
                actual,
                maximum,
            ),
            BlockShapeError::StorageChunkSizeMismatch { expected, got } => {
                let expected_text = decimal_text(expected as u128);
                let got_text = decimal_text(got as u128);
                let mut out = join(
                    "storage_chunk_size mismatch: expected ",
                    expected_text.as_str(),
                );
                out.append(", got ");
                out.append(got_text.as_str());
                out
            },
            BlockShapeError::UnknownBlockFormat(e) => e.message(),
            BlockShapeError::ZeroEffectiveLen => "effective_len must be non-zero".to_owned(),
            BlockShapeError::EffectiveLenExceedsBlock =>
                "effective_len must not exceed block_size".to_owned(),
        }
    }
}

impl FileLayoutError {
    /// The wording of this error.
    pub open spec fn text(self) -> Seq<char> {
        match self {
            FileLayoutError::ZeroBlockSize => "block_size must be non-zero"@,
            FileLayoutError::BlockTooLarge { actual, maximum } => block_too_large_text(
                actual,
                maximum,
            ),
            FileLayoutError::UnknownBlockFormat(e) => e.text(),
        }
    }

    /// Returns the wording of this error.
    pub fn message(self) -> (r: String)
        ensures
            r@ == self.text(),
    {
        match self {
            FileLayoutError::ZeroBlockSize => "block_size must be non-zero".to_owned(),
            FileLayoutError::BlockTooLarge { actual, maximum } => block_too_large_message(
                actual,
                maximum,
            ),
            FileLayoutError::UnknownBlockFormat(e) => e.message(),
        }
    }

    /// Turns the shape error of a full block into a layout error. The storage chunk size
    /// and the effective length of a full block follow from the layout, so they cannot be
    /// wrong.
    fn from_block_shape_error(err: BlockShapeError) -> (r: Self)
        requires
            !(err is StorageChunkSizeMismatch),
            !(err is ZeroEffectiveLen),
            !(err is EffectiveLenExceedsBlock),
        ensures
            match err {
                BlockShapeError::BlockTooLarge { actual, maximum } => r
                    == (FileLayoutError::BlockTooLarge { actual, maximum }),
                BlockShapeError::UnknownBlockFormat(e) => r
                    == FileLayoutError::UnknownBlockFormat(e),
                _ => r == FileLayoutError::ZeroBlockSize,
            },
    {
        match err {
            BlockShapeError::BlockTooLarge { actual, maximum } => FileLayoutError::BlockTooLarge {
                actual,
                maximum,
            },
            BlockShapeError::UnknownBlockFormat(e) => FileLayoutError::UnknownBlockFormat(e),
            _ => FileLayoutError::ZeroBlockSize,
        }
    }
}

/// The first reason why a layout is not valid, if there is one.
pub open spec fn layout_error(layout: FileLayout) -> Option<FileLayoutError> {
    if !layout.block_format_id.is_known() {
        Some(
            FileLayoutError::UnknownBlockFormat(
                BlockFormatIdError { raw: layout.block_format_id.0 },
            ),
        )
    } else if layout.block_size == 0 {
        Some(FileLayoutError::ZeroBlockSize)
    } else if layout.block_size > MAX_BLOCK_SIZE {
        Some(
            FileLayoutError::BlockTooLarge {
                actual: layout.block_size as u64,
                maximum: MAX_BLOCK_SIZE as u64,
            },
        )
    } else {
        None
    }
}

/// The first reason why a shape is not valid, if there is one.
pub open spec fn shape_error(shape: BlockShape) -> Option<BlockShapeError> {
    if shape.block_size == 0 {
        Some(BlockShapeError::ZeroBlockSize)
    } else if shape.block_size > MAX_BLOCK_SIZE as u64 {
        Some(
            BlockShapeError::BlockTooLarge {
                actual: shape.block_size,
                maximum: MAX_BLOCK_SIZE as u64,
            },
        )
    } else if !shape.block_format_id.is_known() {
        Some(
            BlockShapeError::UnknownBlockFormat(
                BlockFormatIdError { raw: shape.block_format_id.0 },
            ),
        )
    } else if shape.chunk_size != DURABLE_PREFIX_STORAGE_CHUNK_SIZE {
        Some(
            BlockShapeError::StorageChunkSizeMismatch {
                expected: DURABLE_PREFIX_STORAGE_CHUNK_SIZE,
                got: shape.chunk_size,
            },
        )
    } else {
        effective_len_error(shape.block_size, shape.effective_len)
    }
}

/// Why `effective_len` does not fit a block of `block_size`, if it does not.
pub open spec fn effective_len_error(block_size: u64, effective_len: u64) -> Option<
    BlockShapeError,
> {
    if effective_len == 0 {
        Some(BlockShapeError::ZeroEffectiveLen)
    } else if effective_len > block_size {
        Some(BlockShapeError::EffectiveLenExceedsBlock)
    } else {
        None
    }
}

/// The shape that `layout` gives a block with `effective_len` readable bytes.
pub open spec fn layout_shape(layout: FileLayout, effective_len: u64) -> BlockShape {
    BlockShape {
        block_format_id: layout.block_format_id,
        block_size: layout.block_size as u64,
        chunk_size: DURABLE_PREFIX_STORAGE_CHUNK_SIZE,
        effective_len,
    }
}

/// Why `layout` has no block with `effective_len` readable bytes, if it has none. The
/// format is looked at first.
pub open spec fn layout_shape_error(layout: FileLayout, effective_len: u64) -> Option<
    BlockShapeError,
> {
    if !layout.block_format_id.is_known() {
        Some(
            BlockShapeError::UnknownBlockFormat(
                BlockFormatIdError { raw: layout.block_format_id.0 },
            ),
        )
    } else {
        shape_error(layout_shape(layout, effective_len))
    }
}

/// A valid layout gives every non-empty prefix of a block a valid shape, and only those.
pub proof fn valid_layout_shapes(layout: FileLayout, effective_len: u64)
    requires
        layout_error(layout) is None,
    ensures
        layout_shape_error(layout, effective_len) is None <==> 0 < effective_len
            <= layout.block_size,
{
}

impl FileLayout {
    /// Creates the layout of a newly created file, in the current block format.
    pub fn new(block_size: u32) -> (r: Self)
        ensures
            r == (FileLayout { block_size, block_format_id: BlockFormatId(2) }),
    {
        Self::with_block_format(block_size, BlockFormatId::current_for_new_file())
    }

    /// Creates a layout with the given block format.
    pub fn with_block_format(block_size: u32, block_format_id: BlockFormatId) -> (r: Self)
        ensures
            r == (FileLayout { block_size, block_format_id }),
    {
        Self { block_size, block_format_id }
    }

    /// Checks the block format and the block size.
    pub fn validate(&self) -> (r: Result<(), FileLayoutError>)
        ensures
            match layout_error(*self) {
                None => r == Ok::<(), FileLayoutError>(()),
                Some(e) => r == Err::<(), FileLayoutError>(e),
            },
    {
        let format = match self.block_format_id.format_spec() {
            Ok(format) => format,
            Err(e) => return Err(FileLayoutError::UnknownBlockFormat(e)),
        };
        match BlockShape::new(
            self.block_format_id,
            self.block_size as u64,
            format.storage_chunk_size,
            self.block_size as u64,
        ) {
            Ok(_) => Ok(()),
            Err(e) => Err(FileLayoutError::from_block_shape_error(e)),
        }
    }
}

impl BlockShape {
    /// Creates a block shape after checking, in this order, the block size, the format,
    /// the storage chunk size and the effective length.
    pub fn new(
        block_format_id: BlockFormatId,
        block_size: u64,
        chunk_size: u32,
        effective_len: u64,
    ) -> (r: Result<Self, BlockShapeError>)
        ensures
            ({
                let shape = BlockShape { block_format_id, block_size, chunk_size, effective_len };
                match shape_error(shape) {
                    None => r == Ok::<BlockShape, BlockShapeError>(shape),
                    Some(e) => r == Err::<BlockShape, BlockShapeError>(e),
                }
            }),
    {
        match validate_block_layout_parts(block_format_id, block_size, chunk_size) {
            Ok(()) => {},
            Err(e) => return Err(e),
        }
        match Self::validate_effective_len(block_size, effective_len) {
            Ok(()) => {},
            Err(e) => return Err(e),
        }
        Ok(Self { block_format_id, block_size, chunk_size, effective_len })
    }

    /// Creates the shape that `layout` gives a block with `effective_len` readable bytes.
    pub fn for_effective_len(layout: &FileLayout, effective_len: u64) -> (r: Result<
        Self,
        BlockShapeError,
    >)
        ensures
            match layout_shape_error(*layout, effective_len) {
                None => r == Ok::<BlockShape, BlockShapeError>(
                    layout_shape(*layout, effective_len),
                ),
                Some(e) => r == Err::<BlockShape, BlockShapeError>(e),
            },
    {
        let format = match layout.block_format_id.format_spec() {
            Ok(format) => format,
            Err(e) => return Err(BlockShapeError::UnknownBlockFormat(e)),
        };
        Self::new(
            layout.block_format_id,
            layout.block_size as u64,
            format.storage_chunk_size,
            effective_len,
        )
    }

    /// Checks that a block of `block_size` can hold `effective_len` readable bytes.
    pub fn validate_effective_len(block_size: u64, effective_len: u64) -> (r: Result<
        (),
        BlockShapeError,
    >)
        ensures
            match effective_len_error(block_size, effective_len) {
                None => r == Ok::<(), BlockShapeError>(()),
                Some(e) => r == Err::<(), BlockShapeError>(e),
            },
    {
        if effective_len == 0 {
            return Err(BlockShapeError::ZeroEffectiveLen);
        }
        if effective_len > block_size {
            return Err(BlockShapeError::EffectiveLenExceedsBlock);
        }
        Ok(())
    }
}

fn validate_block_layout_parts(
    block_format_id: BlockFormatId,
    block_size: u64,
    chunk_size: u32,
) -> (r: Result<(), BlockShapeError>)
    ensures
        ({
            let full = BlockShape {
                block_format_id,
                block_size,
                chunk_size,
                effective_len: block_size,
            };
            match shape_error(full) {
                None => r == Ok::<(), BlockShapeError>(()),
                Some(e) => r == Err::<(), BlockShapeError>(e),
            }
        }),
{
    if block_size == 0 {
        return Err(BlockShapeError::ZeroBlockSize);
    }
    if block_size > MAX_BLOCK_SIZE as u64 {
        return Err(
            BlockShapeError::BlockTooLarge { actual: block_size, maximum: MAX_BLOCK_SIZE as u64 },
        );
    }
    let format = match block_format_id.format_spec() {
        Ok(format) => format,
        Err(e) => return Err(BlockShapeError::UnknownBlockFormat(e)),
    };
    if chunk_size != format.storage_chunk_size {
        return Err(
            BlockShapeError::StorageChunkSizeMismatch {
                expected: format.storage_chunk_size,
                got: chunk_size,
            },
        );
    }
    Ok(())
}

} // verus!
