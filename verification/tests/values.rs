//! Identities, texts, headers and watermarks.

use beryl_metadata::error::{to_rpc_error, MetadataError};
use beryl_metadata::filesystem::context::{
    fs_failure_from_metadata_error, success_with_route_epoch, Authority,
};
use beryl_metadata::group_watermark::{GroupStateWatermark, MountEpoch, RaftLogId};
use beryl_metadata::header::{
    CallerContext, ClientInfo, Deadline, RequestHeader, ResponseHeader, TraceContext,
};
use beryl_metadata::ids::{
    BlockId, CallId, ClientId, GroupName, GroupNameError, InodeId, WorkerId,
};
use beryl_metadata::inode::FileData;
use beryl_metadata::lease::LeaseEpoch;
use beryl_metadata::proto::convert::{
    parse_known_tier, require_call_id, require_worker_run_id, required_block_id,
};
use beryl_metadata::proto::header::rpc_error_from_proto;
use beryl_metadata::proto::message::{
    BlockIdProto, RaftLogIdProto, RequestHeaderProto, ResponseHeaderProto,
};
use beryl_metadata::rpc_error::{
    ErrorKind, MetadataErrorKind, ProtocolErrorKind, RecoveryAction, RpcErrorDetail,
};
use beryl_metadata::text::{decimal_text, is_longer_than, parse_decimal, trim, DecimalError};
use beryl_metadata::wire::{
    header_from_fs_failure, header_from_rpc_error, ok_header_from_fs_success,
    ok_header_from_request, request_context_from_proto,
};
use beryl_metadata::worker_info::{Tier, WorkerRunId};

const RUN: &str = "550e8400-e29b-41d4-a716-446655440000";

#[test]
fn inode_bytes_are_big_endian_and_keep_the_order() {
    let id = InodeId::new(0x0102_0304_0506_0708);
    assert_eq!(id.to_be_bytes(), [1, 2, 3, 4, 5, 6, 7, 8]);
    assert_eq!(InodeId::from_be_bytes([1, 2, 3, 4, 5, 6, 7, 8]), id);
    assert!(InodeId::new(255).to_be_bytes() < InodeId::new(256).to_be_bytes());
}

#[test]
fn block_identities_read_back_from_their_text() {
    let id = BlockId::from_u64_u32(42, 7);
    assert_eq!(id.to_text(), "42:7");
    assert_eq!(BlockId::parse("42:7"), Ok(id));
    assert_eq!("42:7".parse(), Ok(id));
    assert_eq!(
        "0:7".parse::<BlockId>(),
        Err("inode_id must be non-zero".to_string())
    );
    for bad in ["", "42", "42:7:1", "0:7", "x:7", "42:", "42:4294967296"] {
        assert!(BlockId::parse(bad).is_err(), "{bad} must not parse");
    }
}

#[test]
fn client_and_call_identities_read_back_from_their_texts() {
    let client = ClientId::parse("9").unwrap();
    assert_eq!(client, ClientId::new(9));
    assert_eq!(client.to_text(), "0x00000000000000000000000000000009");
    assert_eq!(
        ClientId::parse("0").unwrap_err(),
        "client_id must be non-zero"
    );
    assert!(ClientId::parse("x").unwrap_err().starts_with("invalid client_id: "));
    assert!(!ClientId::generate().is_zero());
    assert_ne!(ClientId::generate(), ClientId::generate());
    let call = CallId::parse(RUN).unwrap();
    assert_eq!(RUN.parse(), Ok(call));
    assert!(!CallId::default().is_zero());
    assert_eq!(call.to_text(), RUN);
    assert_eq!(CallId::from_uuid(call.as_uuid()), call);
    assert_eq!(call.as_uuid(), uuid::Uuid::parse_str(RUN).unwrap());
    assert_eq!(CallId::from_uuid(uuid::Uuid::from_u128(5)).to_text().chars().last(), Some('5'));
    assert_eq!(CallId::new().to_text().chars().nth(14), Some('4'));
    assert!(!call.is_zero());
    assert_ne!(CallId::new(), CallId::new());
    assert!(CallId::parse("not a uuid").is_err());
    assert_eq!(require_call_id(RUN, "field"), Ok(call));
    assert!(require_call_id("", "field").unwrap_err().contains("field"));
}

#[test]
fn run_identities_are_non_zero_uuids() {
    let run = WorkerRunId::parse(RUN).unwrap();
    assert_eq!(run.to_text(), RUN);
    assert!(run.matches(WorkerRunId::parse(&RUN.to_uppercase()).unwrap()));
    assert_eq!(
        WorkerRunId::parse("00000000-0000-0000-0000-000000000000").unwrap_err(),
        "worker_run_id must be non-zero"
    );
    assert!(WorkerRunId::parse("x").unwrap_err().starts_with("invalid worker_run_id: "));
    assert_eq!(
        require_worker_run_id("", "f").unwrap_err(),
        "f must not be empty"
    );
    assert_eq!(
        WorkerRunId::from_parsed(Err("why".to_string())).unwrap_err(),
        "invalid worker_run_id: why"
    );
    assert_eq!(WorkerRunId::from_parsed(Ok(7)).unwrap(), WorkerRunId(7));
}

#[test]
fn group_names_are_trimmed_and_checked() {
    assert_eq!(GroupName::parse("  g.1_a-b ").unwrap().as_str(), "g.1_a-b");
    assert_eq!(GroupName::parse(" ").unwrap_err(), GroupNameError::Empty);
    assert_eq!(" g1 ".parse::<GroupName>().unwrap().as_str(), "g1");
    assert_eq!("".parse::<GroupName>().unwrap_err(), GroupNameError::Empty);
    assert!(GroupName::parse("a1").unwrap() < GroupName::parse("b0").unwrap());
    assert_eq!(
        GroupName::parse(&"a".repeat(64)).unwrap_err(),
        GroupNameError::TooLong
    );
    assert!(GroupName::parse(&"a".repeat(63)).is_ok());
    assert_eq!(
        GroupName::parse("-a").unwrap_err(),
        GroupNameError::InvalidStart
    );
    assert_eq!(
        GroupName::parse("aB").unwrap_err(),
        GroupNameError::InvalidCharacter
    );
    assert!(GroupName::parse_optional("").unwrap().is_none());
    assert!(GroupName::parse_optional(" ").is_err());
}

#[test]
fn texts_of_numbers() {
    assert_eq!(decimal_text(0), "0");
    assert_eq!(decimal_text(u128::MAX), u128::MAX.to_string());
    assert_eq!(parse_decimal("0042", 100), Ok(42));
    assert_eq!(parse_decimal("+7", 100), Ok(7));
    assert_eq!(parse_decimal("101", 100), Err(DecimalError::Overflow));
    assert_eq!(parse_decimal("", 100), Err(DecimalError::Empty));
    assert_eq!(parse_decimal("1a", 100), Err(DecimalError::InvalidDigit));
    assert_eq!(trim(" \u{2003}a b\n"), "a b");
    assert!(is_longer_than("\u{e4}\u{e4}", 3));
    assert!(!is_longer_than("\u{e4}", 2));
}

#[test]
fn watermarks_are_compared_by_their_group() {
    let mark = |group: &str, index| {
        GroupStateWatermark::new(GroupName::parse(group).unwrap(), RaftLogId::new(1, 1, index))
    };
    assert!(mark("a", 5).is_reached(&RaftLogId::new(1, 1, 5)));
    assert!(!mark("a", 5).is_reached(&RaftLogId::new(1, 1, 4)));
    assert_eq!(
        mark("a", 5).cmp_same_group(&mark("a", 6)),
        Some(std::cmp::Ordering::Less)
    );
    assert_eq!(mark("a", 5).cmp_same_group(&mark("b", 6)), None);
    assert!(RaftLogId::new(2, 1, 1).has_reached(&RaftLogId::new(1, 9, 9)));
    assert_eq!(
        RaftLogId::new(1, 2, 3).order(&RaftLogId::new(1, 2, 3)),
        std::cmp::Ordering::Equal
    );
    assert_eq!(MountEpoch::new(3).as_u64(), 3);
    let id = RaftLogId::new(1, 2, 3);
    assert_eq!(RaftLogId::from(RaftLogIdProto::from(&id)), id);
}

#[test]
fn files_divide_into_blocks() {
    assert_eq!(FileData::block_count(0, 64).unwrap(), 0);
    assert_eq!(FileData::block_count(64, 64).unwrap(), 1);
    assert_eq!(FileData::block_count(65, 64).unwrap(), 2);
    assert_eq!(
        FileData::block_count(1, 0).unwrap_err().message(),
        "block_size must be non-zero"
    );
}

fn request_header() -> RequestHeader {
    RequestHeader {
        client: ClientInfo {
            call_id: CallId::parse(RUN).unwrap(),
            client_id: ClientId::new(9),
            client_name: Some("writer".to_string()),
        },
        trace_context: TraceContext {
            traceparent: Some("tp".to_string()),
            tracestate: None,
            baggage: None,
        },
        group_name: Some(GroupName::parse("g1").unwrap()),
        mount_epoch: Some(4),
        state: vec![GroupStateWatermark::new(
            GroupName::parse("g1").unwrap(),
            RaftLogId::new(1, 2, 3),
        )],
        route_epoch: Some(6),
        deadline: Deadline::from_unix_ms(77),
        caller_context: Some(CallerContext { context: "host=a".to_string() }),
    }
}

#[test]
fn request_headers_read_back_from_the_wire() {
    let proto = RequestHeaderProto::from(&request_header());
    let context = request_context_from_proto(&Some(proto.clone())).unwrap();
    assert_eq!(context.route_epoch, Some(6));
    assert_eq!(context.caller.client.client_id, ClientId::new(9));
    assert_eq!(context.caller.client.client_name.as_deref(), Some("writer"));
    assert_eq!(context.caller.group_name, Some(GroupName::parse("g1").unwrap()));
    assert_eq!(context.caller.deadline, Deadline::from_unix_ms(77));
    assert_eq!(context.caller.caller_context.unwrap().context, "host=a");
    assert_eq!(context.caller.state[0].state_id, RaftLogId::new(1, 2, 3));
    let missing = request_context_from_proto(&None).unwrap_err();
    assert_eq!(
        missing.kind,
        ErrorKind::Protocol(ProtocolErrorKind::InvalidHeader)
    );
    let mut bad = proto;
    bad.client = None;
    let error = request_context_from_proto(&Some(bad)).unwrap_err();
    assert!(error.message.starts_with("invalid RequestHeader: "));
}

#[test]
fn response_headers_tell_the_caller_and_the_error() {
    let proto = Some(RequestHeaderProto::from(&request_header()));
    let group = Some(GroupName::parse("g1").unwrap());
    let ok = ok_header_from_request(&proto, &group, Some(4));
    assert!(ok.error.is_none());
    assert_eq!(ok.group_name, "g1");
    assert_eq!(ok.mount_epoch, Some(4));
    let error = RpcErrorDetail::retry(
        ErrorKind::Metadata(MetadataErrorKind::Conflict),
        Some(5),
        "busy".to_string(),
    );
    let header = header_from_rpc_error(&proto, &None, None, &error);
    let decoded = ResponseHeader::try_from(header).unwrap();
    let told = decoded.rpc_error.unwrap();
    assert_eq!(told.message, "busy");
    assert_eq!(told.recovery, RecoveryAction::Retry { after_ms: Some(5) });
    assert_eq!(decoded.client.client_id, ClientId::new(9));
    let unknown = header_from_rpc_error(&None, &None, None, &error);
    assert!(unknown.client.is_none());
    assert!(unknown.error.is_some());
    let empty = ResponseHeaderProto::default();
    assert!(ResponseHeader::try_from(empty).is_err());
}

#[test]
fn metadata_errors_are_told_with_their_recovery() {
    let busy = to_rpc_error(&MetadataError::Busy("b".to_string()));
    assert_eq!(busy.kind, ErrorKind::Metadata(MetadataErrorKind::Busy));
    assert_eq!(busy.recovery, RecoveryAction::Fail);
    let again = to_rpc_error(&MetadataError::Again("a".to_string()));
    assert_eq!(again.recovery, RecoveryAction::Retry { after_ms: None });
    let fenced = to_rpc_error(&MetadataError::LeaseFenced {
        expected: LeaseEpoch::new(9),
        got: LeaseEpoch::new(7),
    });
    assert!(matches!(fenced.recovery, RecoveryAction::ReopenWriteSession { .. }));
    assert_eq!(fenced.message, "write lease fenced: expected epoch 9, got 7");
}

#[test]
fn wire_fields_are_required_and_known() {
    assert!(required_block_id(None, "f").is_err());
    assert!(required_block_id(Some(BlockIdProto { inode_id: 0, block_index: 1 }), "f").is_err());
    assert_eq!(
        required_block_id(Some(BlockIdProto { inode_id: 3, block_index: 1 }), "f"),
        Ok(BlockId::from_u64_u32(3, 1))
    );
    assert_eq!(parse_known_tier(3), Ok(Tier::Ssd));
    assert!(parse_known_tier(0).is_err());
    assert!(parse_known_tier(99).is_err());
    assert_eq!(WorkerId::new(5).as_raw(), 5);
}

#[test]
fn answers_of_operations_become_headers() {
    let proto = Some(RequestHeaderProto::from(&request_header()));
    let context = request_context_from_proto(&proto).unwrap();
    let authority = Authority {
        group_name: Some(GroupName::parse("g1").unwrap()),
        mount_epoch: Some(4),
        route_epoch: Some(6),
    };
    let success = success_with_route_epoch((), &authority, Some(RaftLogId::new(1, 2, 3)));
    let header = ok_header_from_fs_success(&context, &success);
    assert!(header.error.is_none());
    assert_eq!(header.group_name, "g1");
    assert_eq!(header.mount_epoch, Some(4));
    assert_eq!(header.route_epoch, Some(6));
    assert_eq!(header.state.len(), 1);
    let failure = fs_failure_from_metadata_error(
        &context,
        &MetadataError::Busy("held".to_string()),
        &authority,
    );
    let header = header_from_fs_failure(&context, &failure);
    let told = rpc_error_from_proto(&header.error.unwrap());
    assert_eq!(told.kind, ErrorKind::Metadata(MetadataErrorKind::Busy));
    assert_eq!(told.message, "held");
    assert!(header.state.is_empty());
}
