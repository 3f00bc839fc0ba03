//! File layouts and block shapes.

use beryl_metadata::layout::{
    BlockFormatId, BlockShape, BlockShapeError, FileLayout, FileLayoutError, MAX_BLOCK_SIZE,
};

#[test]
fn block_shape_rejects_invalid_size_format_and_effective_length() {
    let chunk_size = BlockFormatId::durable_prefix()
        .format_spec()
        .unwrap()
        .storage_chunk_size;
    let cases = [
        (
            BlockShape::new(BlockFormatId::durable_prefix(), 0, chunk_size, 1),
            BlockShapeError::ZeroBlockSize,
        ),
        (
            BlockShape::new(
                BlockFormatId::durable_prefix(),
                u64::from(MAX_BLOCK_SIZE) + 1,
                chunk_size,
                u64::from(MAX_BLOCK_SIZE) + 1,
            ),
            BlockShapeError::BlockTooLarge {
                actual: u64::from(MAX_BLOCK_SIZE) + 1,
                maximum: u64::from(MAX_BLOCK_SIZE),
            },
        ),
        (
            BlockShape::new(BlockFormatId::durable_prefix(), 4096, chunk_size - 1, 1),
            BlockShapeError::StorageChunkSizeMismatch {
                expected: chunk_size,
                got: chunk_size - 1,
            },
        ),
        (
            BlockShape::new(BlockFormatId::durable_prefix(), 4096, chunk_size, 0),
            BlockShapeError::ZeroEffectiveLen,
        ),
        (
            BlockShape::new(BlockFormatId::durable_prefix(), 4096, chunk_size, 4097),
            BlockShapeError::EffectiveLenExceedsBlock,
        ),
    ];

    for (result, expected) in cases {
        assert_eq!(result.expect_err("invalid shape must fail"), expected);
    }
}

#[test]
fn file_layout_accepts_hard_maximum_and_rejects_larger_values() {
    FileLayout::new(MAX_BLOCK_SIZE)
        .validate()
        .expect("maximum supported layout must pass");

    assert_eq!(
        FileLayout::new(MAX_BLOCK_SIZE + 1)
            .validate()
            .expect_err("block size above the hard maximum must fail"),
        FileLayoutError::BlockTooLarge {
            actual: u64::from(MAX_BLOCK_SIZE) + 1,
            maximum: u64::from(MAX_BLOCK_SIZE),
        }
    );
}

#[test]
fn an_unknown_format_is_refused() {
    let mut layout = FileLayout::new(4096);
    layout.block_format_id = BlockFormatId(99);
    assert!(matches!(
        layout.validate(),
        Err(FileLayoutError::UnknownBlockFormat(_))
    ));
    assert_eq!(
        FileLayout::new(0).validate(),
        Err(FileLayoutError::ZeroBlockSize)
    );
}
