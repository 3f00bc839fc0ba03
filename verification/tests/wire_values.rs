//! Wire forms of domain values.

use beryl_metadata::fs::{FileType, WriteMode};
use beryl_metadata::ids::{BlockId, ClientId, InodeId};
use beryl_metadata::layout::BlockFormatId;
use beryl_metadata::lease::{FencingToken, LeaseEpoch, WriteHandle};
use beryl_metadata::location::{FileBlockLocation, LocatedBlock};
use beryl_metadata::proto::convert::parse_write_mode;
use beryl_metadata::proto::error_kind::{ErrorKindProto, Kind, MetadataErrorKindProto};
use beryl_metadata::proto::header::rpc_error_from_proto;
use beryl_metadata::proto::message::{
    Action, ErrorDetailProto, FencingTokenProto, FileBlockLocationProto, FileTypeProto,
    LocatedBlockProto, OpenWriteModeProto, RecoveryActionProto, RefreshHintProto,
    RefreshMetadataRecoveryProto, RetryRecoveryProto, TierProto, WorkerEndpointInfoProto,
    WriteHandleProto,
};
use beryl_metadata::rpc_error::{ErrorKind, ProtocolErrorKind, RecoveryAction};
use beryl_metadata::worker_info::WorkerRunId;
use prost::encoding::{decode_key, uint64, DecodeContext};

fn encode_handle(handle: WriteHandleProto) -> Vec<u8> {
    let mut out = Vec::new();
    uint64::encode(1, &handle.inode_id, &mut out);
    uint64::encode(2, &handle.write_lease_epoch, &mut out);
    out
}

fn decode_handle(bytes: &[u8]) -> WriteHandleProto {
    let mut handle = WriteHandleProto { inode_id: 0, write_lease_epoch: 0 };
    let mut rest = bytes;
    while !rest.is_empty() {
        let (tag, wire_type) = decode_key(&mut rest).unwrap();
        let field = match tag {
            1 => &mut handle.inode_id,
            2 => &mut handle.write_lease_epoch,
            _ => panic!("unknown field {tag}"),
        };
        uint64::merge(wire_type, field, &mut rest, DecodeContext::default()).unwrap();
    }
    handle
}

#[test]
fn write_domain_values_preserve_wire_identity_and_intent() {
    for (kind, raw) in [(FileType::File, 1), (FileType::Dir, 2)] {
        let wire = FileTypeProto::from(kind);
        assert_eq!(wire.as_raw(), raw);
        assert_eq!(FileType::try_from(wire).unwrap(), kind);
    }
    assert!(FileType::try_from(FileTypeProto::FileTypeUnspecified).is_err());
    assert!(FileTypeProto::try_from(i32::MAX).is_err());
    let bytes = [8, 42, 16, 17];
    let handle = WriteHandle::try_from(decode_handle(bytes.as_slice())).unwrap();
    assert_eq!(
        handle,
        WriteHandle {
            inode_id: InodeId::new(42),
            lease_epoch: LeaseEpoch::new(17)
        }
    );
    assert_eq!(encode_handle(WriteHandleProto::from(handle)), bytes);
    for (inode_id, write_lease_epoch) in [(0, 17), (42, 0)] {
        assert!(WriteHandle::try_from(WriteHandleProto {
            inode_id,
            write_lease_epoch
        })
        .is_err());
    }
    for (mode, wire) in [(WriteMode::Overwrite, 1), (WriteMode::Append, 2)] {
        let encoded = OpenWriteModeProto::from(mode);
        assert_eq!(encoded.as_raw(), wire);
        assert_eq!(parse_write_mode(wire).unwrap(), mode);
    }
    for raw in [0, -1, i32::MAX] {
        assert!(parse_write_mode(raw).is_err());
    }

    let token = FencingToken::new(
        BlockId::from_u64_u32(42, u32::MAX),
        ClientId::new(9),
        LeaseEpoch::new(17),
    );
    let wire = FencingTokenProto::from(token);
    assert_eq!(wire.block_id.unwrap().block_index, u32::MAX);
    assert_eq!(wire.epoch, 17);
    assert_eq!(FencingToken::try_from(wire).unwrap(), token);
}

fn test_worker_run_id() -> WorkerRunId {
    WorkerRunId::parse("550e8400-e29b-41d4-a716-446655440000").expect("valid test WorkerRunId")
}

#[test]
fn malformed_rpc_error_details_fail_closed_without_recovery() {
    let kind = |value| ErrorKindProto { kind: Some(Kind::Metadata(value)) };
    let retry = Some(RecoveryActionProto {
        action: Some(Action::Retry(RetryRecoveryProto { after_ms: Some(1) })),
    });
    let refresh = Some(RecoveryActionProto {
        action: Some(Action::RefreshMetadata(RefreshMetadataRecoveryProto {
            hint: Some(RefreshHintProto {
                leader_endpoint: None,
                group_name: None,
                mount_epoch: None,
                mount_prefix: None,
                route_epoch: None,
                worker_endpoints: Vec::new(),
                worker_resolve_required: false,
            }),
        })),
    });
    let valid = Some(kind(MetadataErrorKindProto::MetadataErrorKindNotFound.as_raw()));
    for (kind, recovery) in [
        (Some(kind(i32::MAX)), retry.clone()),
        (
            Some(kind(MetadataErrorKindProto::MetadataErrorKindUnspecified.as_raw())),
            retry,
        ),
        (None, refresh),
        (valid, None),
        (valid, Some(RecoveryActionProto { action: None })),
    ] {
        let encoded = ErrorDetailProto {
            kind,
            recovery,
            message: String::new(),
        };
        let decoded = rpc_error_from_proto(&encoded);
        assert_eq!(
            decoded.kind,
            ErrorKind::Protocol(ProtocolErrorKind::InvalidHeader)
        );
        assert_eq!(decoded.recovery, RecoveryAction::Fail);
        assert_eq!(decoded.message, "malformed RPC error detail");
    }
}

#[test]
fn shared_location_conversion_rejects_malformed_required_fields() {
    let endpoint = || WorkerEndpointInfoProto {
        worker_id: 7,
        endpoint: "127.0.0.1:19101".to_string(),
        worker_run_id: test_worker_run_id().to_text(),
    };
    let block_id = BlockId::from_u64_u32(42, 3);
    let token = FencingToken::new(block_id, ClientId::new(9), LeaseEpoch::new(17));

    let mut target = LocatedBlockProto {
        write_offset: 0,
        block_id: Some(block_id.into()),
        file_offset: 128,
        worker_endpoints: Vec::new(),
        fencing_token: Some(token.into()),
        chunk_size: BlockFormatId::durable_prefix()
            .format_spec()
            .unwrap()
            .storage_chunk_size,
        block_format_id: BlockFormatId::durable_prefix().as_raw(),
        block_size: 4096,
        tier: TierProto::TierHdd.as_raw(),
    };
    let err = LocatedBlock::try_from(target.clone()).expect_err("empty target workers must fail");
    assert!(err.contains("worker_endpoints"));
    target.worker_endpoints.push(endpoint());
    let decoded = LocatedBlock::try_from(target.clone()).expect("valid allocated block");
    assert_eq!(LocatedBlockProto::from(decoded), target);
    target.write_offset = target.block_size;
    assert!(LocatedBlock::try_from(target).is_err());

    let mut location = FileBlockLocationProto {
        block_id: Some(block_id.into()),
        file_offset: 128,
        len: 4096,
        workers: Vec::new(),
        block_format_id: BlockFormatId::durable_prefix().as_raw(),
        block_size: 4096,
        chunk_size: BlockFormatId::durable_prefix()
            .format_spec()
            .unwrap()
            .storage_chunk_size,
        effective_len: 4096,
    };
    let decoded_empty = FileBlockLocation::try_from(location.clone())
        .expect("empty read location workers are valid");
    assert!(decoded_empty.workers.is_empty());
    location.workers.push(endpoint());
    let decoded = FileBlockLocation::try_from(location.clone()).expect("valid read location");
    assert_eq!(FileBlockLocationProto::from(decoded), location);
}
