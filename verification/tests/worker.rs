//! Scenarios of the service that workers talk to.

use beryl_metadata::error::MetadataError;
use beryl_metadata::filesystem::command::{ApplySuccess, Command};
use beryl_metadata::group_watermark::RaftLogId;
use beryl_metadata::header::{ClientInfo, Deadline, RequestHeader, TraceContext};
use beryl_metadata::ids::{BlockId, CallId, ClientId, GroupName, WorkerId};
use beryl_metadata::proto::header::rpc_error_from_proto;
use beryl_metadata::proto::message::{
    BlockIdProto, RequestHeaderProto, TierProto, TraceContextProto,
};
use beryl_metadata::rpc_error::{ErrorKind, MetadataErrorKind, RecoveryAction, WorkerErrorKind};
use beryl_metadata::worker::message::{
    Batch, Block, BlockReportKindProto, BlockReportRequestProto, CapacityInfoProto,
    DeltaBlockReportBatchProto, DeltaBlockReportEntryProto, EndpointProto,
    FullBlockReportBatchProto, HeartbeatRequestProto, LoadInfoProto, RegisterWorkerRequestProto,
    ReportedBlockProto, ReportedBlockStateProto, TierFreeProto,
};
use beryl_metadata::worker::report::{
    block_report_kind, decode_delta_batch, decode_full_batch, parse_tier_free,
    proto_to_report_block, BlockReportChange,
};
use beryl_metadata::worker::service::{
    confirm_registration, decode_registration, error_response_header_from_request,
    merge_request_header_transport_context, metadata_worker_outcome_labels,
    publish_registration, refuse_recorded_heartbeat, refuse_report,
    tonic_status_error_kind, validate_advertised_endpoint, ExtractedContext, HeartbeatMark,
    HostKind, MetadataWorkerServiceImpl, ReportBatch, ReportProgress, WorkerDescriptor,
};
use beryl_metadata::worker_info::{
    BlockReportBlockState, Tier, WorkerRunId, MAX_REPORT_ENTRIES,
};

const RUN: &str = "550e8400-e29b-41d4-a716-446655440000";
const OTHER_RUN: &str = "550e8400-e29b-41d4-a716-446655440001";
const LOOPBACK: HostKind = HostKind::Address { is_v6: false, is_unspecified: false };

fn group_name(raw: &str) -> GroupName {
    GroupName::parse(raw).unwrap()
}

fn service() -> MetadataWorkerServiceImpl {
    MetadataWorkerServiceImpl {
        served_group_name: group_name("root"),
        liveness_timeout_ms: 1_500,
    }
}

fn header(group: &str) -> Option<RequestHeaderProto> {
    let header = RequestHeader {
        client: ClientInfo {
            call_id: CallId::new(),
            client_id: ClientId::new(73),
            client_name: None,
        },
        trace_context: TraceContext {
            traceparent: None,
            tracestate: None,
            baggage: None,
        },
        group_name: Some(group_name(group)),
        mount_epoch: None,
        state: Vec::new(),
        route_epoch: None,
        deadline: Deadline::from_unix_ms(1_000),
        caller_context: None,
    };
    Some((&header).into())
}

fn endpoint(host: &str, port: u32) -> EndpointProto {
    EndpointProto { host: host.to_string(), port }
}

fn registration(group: &str) -> RegisterWorkerRequestProto {
    RegisterWorkerRequestProto {
        header: header(group),
        worker_id: 124,
        worker_run_id: RUN.to_string(),
        advertised_endpoint: Some(endpoint("127.0.0.1", 9091)),
    }
}

fn heartbeat(run: &str, port: u32) -> HeartbeatRequestProto {
    HeartbeatRequestProto {
        header: header("root"),
        worker_id: 12,
        worker_run_id: run.to_string(),
        heartbeat_seq: 7,
        advertised_endpoint: Some(endpoint("127.0.0.1", port)),
        capacity: Some(CapacityInfoProto {
            total_bytes: 1_000,
            used_bytes: 100,
            available_bytes: 900,
            tier_free: vec![TierFreeProto {
                tier: TierProto::TierHdd.as_raw(),
                free_bytes: 900,
            }],
        }),
        load: Some(LoadInfoProto { active_reads: 0, active_writes: 0 }),
        health: 1,
    }
}

fn reported_block(state: ReportedBlockStateProto) -> ReportedBlockProto {
    ReportedBlockProto {
        block_id: Some(BlockIdProto { inode_id: 80, block_index: 0 }),
        lease_epoch: 100,
        state,
        effective_len: 64,
        tier: TierProto::TierHdd.as_raw(),
    }
}

#[test]
fn a_registration_is_proposed_and_answered() {
    let service = service();
    let req = registration("root");
    let admitted = service.admit_registration(&req, true, LOOPBACK).unwrap();
    assert_eq!(admitted.address, "127.0.0.1:9091");
    assert_eq!(admitted.identity.worker_id, WorkerId::new(124));
    let command = service.registration_command(&admitted);
    assert!(matches!(
        command,
        Command::RegisterWorkerDescriptor { worker_id, address, worker_net_protocol: 1, .. }
            if worker_id == WorkerId::new(124) && address == "127.0.0.1:9091"
    ));
    let worker_id = admitted.identity.worker_id;
    decode_registration(Ok(ApplySuccess::WorkerUpserted(worker_id)), worker_id).unwrap();
    let error =
        decode_registration(Ok(ApplySuccess::WorkerUpserted(WorkerId::new(5))), worker_id)
            .unwrap_err();
    assert_eq!(
        error.message(),
        "RegisterWorker returned worker_id 5, expected 124"
    );
    let error = decode_registration(Ok(ApplySuccess::RenameApplied), worker_id).unwrap_err();
    assert_eq!(
        error.message(),
        "RegisterWorker returned unexpected Raft response: RenameApplied"
    );
    let response = service.registration_response(
        &req.header,
        &Ok(admitted.identity),
        Some(RaftLogId::new(1, 1, 5)),
    );
    assert_eq!(response.worker_id, 124);
    assert_eq!(response.accepted_worker_run_id, RUN);
    let told = response.header.unwrap();
    assert!(told.error.is_none());
    assert_eq!(told.group_name, "root");
    assert_eq!(told.state.len(), 1);
}

#[test]
fn register_worker_publishes_live_run_only_after_raft_success() {
    let service = service();
    let req = registration("root");
    let accepted = || Ok(ApplySuccess::WorkerUpserted(WorkerId::new(124)));
    let registered = || service.admit_registration(&req, true, LOOPBACK).unwrap();

    let admitted = registered();
    service.propose_registration(&admitted, Ok(())).expect("proposed");
    let run = confirm_registration(admitted, accepted()).expect("a live run");
    assert_eq!(run.registration().address, "127.0.0.1:9091");
    assert_eq!(run.registration().identity.worker_id, WorkerId::new(124));
    assert_eq!(run.registration().identity.worker_run_id.to_text(), RUN);
    let outcome = publish_registration(run, Ok(()));
    let response = service.registration_response(&req.header, &outcome, None);
    assert!(response.header.as_ref().expect("header").error.is_none());
    assert_eq!(response.worker_id, 124);
    assert_eq!(response.accepted_worker_run_id, RUN);

    let error = MetadataError::InvalidArgument("another worker has this address".to_string());
    let refusal = service.propose_registration(&registered(), Err(error)).unwrap_err();
    assert_eq!(refusal.message, "another worker has this address");
    for reply in [
        Ok(ApplySuccess::WorkerUpserted(WorkerId::new(5))),
        Ok(ApplySuccess::RaftEntryApplied),
        Err(MetadataError::LeaderChanged("stepped down".to_string())),
    ] {
        let refusal = confirm_registration(registered(), reply).expect_err("no run");
        let response = service.registration_response(&req.header, &Err(refusal), None);
        assert!(response.header.expect("header").error.is_some());
        assert_eq!(response.worker_id, 0);
        assert_eq!(response.accepted_worker_run_id, "");
    }
    let run = confirm_registration(registered(), accepted()).unwrap();
    let outcome = publish_registration(run, Err(MetadataError::Internal("full".to_string())));
    let response = service.registration_response(&req.header, &outcome, None);
    assert!(response.header.expect("header").error.is_some());
}

#[test]
fn registrations_are_refused_for_every_reason() {
    let service = service();
    let refuse = |req: RegisterWorkerRequestProto, leads: bool, host: HostKind| {
        service.admit_registration(&req, leads, host).unwrap_err()
    };
    let error = refuse(registration("root"), false, LOOPBACK);
    assert_eq!(
        error.kind,
        ErrorKind::Metadata(MetadataErrorKind::NotLeader)
    );
    let error = refuse(registration("other"), true, LOOPBACK);
    assert_eq!(
        error.message,
        "register group_name other does not match served metadata group root"
    );
    let mut req = registration("root");
    req.worker_id = 0;
    assert_eq!(
        refuse(req, true, LOOPBACK).message,
        "worker_id must be non-zero"
    );
    let mut req = registration("root");
    req.worker_run_id = String::new();
    assert_eq!(
        refuse(req, true, LOOPBACK).message,
        "RegisterWorkerRequest.worker_run_id must not be empty"
    );
    let mut req = registration("root");
    req.advertised_endpoint = None;
    assert_eq!(
        refuse(req, true, LOOPBACK).message,
        "Missing advertised_endpoint"
    );
    let wildcard = HostKind::Address { is_v6: false, is_unspecified: true };
    assert_eq!(
        refuse(registration("root"), true, wildcard).message,
        "advertised_endpoint must not use a wildcard host"
    );
    let mut req = registration("root");
    req.header = None;
    let error = refuse(req, true, LOOPBACK);
    assert_eq!(error.message, "external request requires RequestHeader");
}

#[test]
fn endpoints_are_written_by_the_kind_of_their_host() {
    let v6 = HostKind::Address { is_v6: true, is_unspecified: false };
    assert_eq!(
        validate_advertised_endpoint(&endpoint("::1", 9), v6).unwrap(),
        "[::1]:9"
    );
    assert_eq!(
        validate_advertised_endpoint(&endpoint("worker-1", 65535), HostKind::Name).unwrap(),
        "worker-1:65535"
    );
    assert_eq!(
        validate_advertised_endpoint(&endpoint(" ", 9), HostKind::Name).unwrap_err(),
        "advertised_endpoint host must not be empty"
    );
    for port in [0, 65536] {
        assert_eq!(
            validate_advertised_endpoint(&endpoint("h", port), HostKind::Name).unwrap_err(),
            "advertised_endpoint port must be between 1 and 65535"
        );
    }
}

#[test]
fn a_heartbeat_is_accepted_with_the_blocks_to_remove() {
    let service = service();
    let req = heartbeat(RUN, 9090);
    let accepted = service.admit_heartbeat(&req, LOOPBACK).unwrap();
    assert_eq!(accepted.heartbeat_seq, 7);
    assert_eq!(accepted.tier_free.len(), 1);
    assert_eq!(accepted.tier_free[0].tier, Tier::Hdd);
    let descriptor = Some(WorkerDescriptor {
        address: "127.0.0.1:9090".to_string(),
        worker_net_protocol: 1,
    });
    service
        .check_heartbeat(&accepted, &descriptor, Some(WorkerRunId::parse(RUN).unwrap()))
        .unwrap();
    let block_id = BlockId::from_u64_u32(700, 0);
    let response =
        service.heartbeat_response(&req.header, &accepted.identity, &vec![block_id], None);
    assert_eq!(response.worker_id, 12);
    assert_eq!(response.accepted_worker_run_id, RUN);
    assert_eq!(response.liveness_timeout_ms, 1_500);
    assert_eq!(response.cleanup_commands.len(), 1);
    assert_eq!(response.cleanup_commands[0].block_id, Some(block_id.into()));
    let told = response.header.unwrap();
    assert!(told.error.is_none());
    assert_eq!(told.group_name, "root");
    assert!(told.state.is_empty());
}

#[test]
fn heartbeats_map_registration_mismatches_to_recovery() {
    let service = service();
    let accepted = service.admit_heartbeat(&heartbeat(RUN, 9090), LOOPBACK).unwrap();
    let descriptor = |address: &str| {
        Some(WorkerDescriptor {
            address: address.to_string(),
            worker_net_protocol: 1,
        })
    };
    let run = WorkerRunId::parse(RUN).unwrap();
    let other = WorkerRunId::parse(OTHER_RUN).unwrap();
    let cases = [
        (
            service.check_heartbeat(&accepted, &None, Some(run)),
            WorkerErrorKind::NotRegistered,
            HeartbeatMark::NeedRegister,
            "worker descriptor not found for group_name=root, worker_id=12",
        ),
        (
            service.check_heartbeat(&accepted, &descriptor("127.0.0.1:9090"), None),
            WorkerErrorKind::NotRegistered,
            HeartbeatMark::NeedRegister,
            "live worker registration not found for group_name=root, worker_id=12",
        ),
        (
            service.check_heartbeat(&accepted, &descriptor("127.0.0.1:9090"), Some(other)),
            WorkerErrorKind::RunMismatch,
            HeartbeatMark::RunMismatch,
            "worker_run_id mismatch for group_name=root, worker_id=12",
        ),
        (
            service.check_heartbeat(&accepted, &descriptor("127.0.0.1:9098"), Some(run)),
            WorkerErrorKind::DescriptorMismatch,
            HeartbeatMark::Nothing,
            "advertised endpoint or protocol does not match registration for group_name=root, \
             worker_id=12",
        ),
    ];
    for (checked, kind, mark, message) in cases {
        let refusal = checked.unwrap_err();
        assert_eq!(refusal.error.kind, ErrorKind::Worker(kind));
        assert_eq!(refusal.error.recovery, RecoveryAction::RegisterWorker);
        assert_eq!(refusal.error.message, message);
        assert_eq!(refusal.mark, mark);
        let told = error_response_header_from_request(&header("root"), &refusal.error, None);
        let decoded = rpc_error_from_proto(&told.error.unwrap());
        assert_eq!(decoded.kind, ErrorKind::Worker(kind));
    }
    let refusal = refuse_recorded_heartbeat(&MetadataError::StaleState("old".to_string()));
    assert_eq!(
        refusal.error.kind,
        ErrorKind::Worker(WorkerErrorKind::RunMismatch)
    );
    assert_eq!(refusal.mark, HeartbeatMark::RunMismatch);
}

#[test]
fn heartbeats_must_be_complete() {
    let service = service();
    let refuse = |req: HeartbeatRequestProto| {
        service.admit_heartbeat(&req, LOOPBACK).unwrap_err()
    };
    let mut req = heartbeat(RUN, 9090);
    req.capacity = None;
    assert_eq!(refuse(req).message, "Missing capacity");
    let mut req = heartbeat(RUN, 9090);
    req.load = None;
    assert_eq!(refuse(req).message, "Missing load");
    let mut req = heartbeat(RUN, 9090);
    req.header = header("other");
    assert_eq!(
        refuse(req).kind,
        ErrorKind::Metadata(MetadataErrorKind::GroupMismatch)
    );
    let error = parse_tier_free(&vec![TierFreeProto { tier: 0, free_bytes: 1 }]).unwrap_err();
    assert!(error.starts_with("capacity.tier_free tier invalid: "));
}

#[test]
fn a_delta_report_is_applied_on_a_published_baseline() {
    let service = service();
    let req = BlockReportRequestProto {
        header: header("root"),
        worker_id: 8,
        worker_run_id: RUN.to_string(),
        baseline_seq: 3,
        batch: Some(Batch::DeltaReport(DeltaBlockReportBatchProto {
            batch_seq: 0,
            entries: vec![DeltaBlockReportEntryProto {
                block: Some(Block::Absent(BlockIdProto { inode_id: 80, block_index: 0 })),
            }],
        })),
    };
    assert_eq!(block_report_kind(&req), "delta");
    let report = service.admit_block_report(&req).unwrap();
    let ReportBatch::Delta { batch_seq: 0, changes } = &report.batch else {
        panic!("a delta is applied")
    };
    assert_eq!(
        changes[0],
        BlockReportChange::Remove(BlockId::from_u64_u32(80, 0))
    );
    let response = service.block_report_response(
        &req.header,
        &report,
        Ok(ReportProgress { next_batch_seq: 1, baseline_published: false }),
        None,
    );
    assert!(response.header.as_ref().unwrap().error.is_none());
    assert_eq!(response.report_kind, BlockReportKindProto::BlockReportKindDelta);
    assert_eq!(response.baseline_seq, 3);
    assert_eq!(response.next_batch_seq, 1);
    assert!(response.baseline_published);

    let refused = service.block_report_response(
        &req.header,
        &report,
        Err(MetadataError::FullReportRequired("again".to_string())),
        None,
    );
    let error = rpc_error_from_proto(&refused.header.unwrap().error.unwrap());
    assert_eq!(
        error.kind,
        ErrorKind::Worker(WorkerErrorKind::FullReportRequired)
    );
    assert_eq!(error.recovery, RecoveryAction::SendFullBlockReport);
    assert_eq!(error.message, "again");
}

#[test]
fn reports_are_refused_for_every_reason() {
    let service = service();
    let full = |blocks: Vec<ReportedBlockProto>| BlockReportRequestProto {
        header: header("root"),
        worker_id: 8,
        worker_run_id: RUN.to_string(),
        baseline_seq: 3,
        batch: Some(Batch::FullReport(FullBlockReportBatchProto {
            batch_seq: 0,
            final_batch: true,
            blocks,
        })),
    };
    let refuse = |req: BlockReportRequestProto| service.admit_block_report(&req).unwrap_err();
    let mut req = full(Vec::new());
    req.baseline_seq = 0;
    assert_eq!(
        refuse(req).message,
        "block report baseline_seq must be non-zero"
    );
    let mut req = full(Vec::new());
    req.batch = None;
    assert_eq!(refuse(req).message, "block report batch is required");
    let mut block = reported_block(ReportedBlockStateProto::ReportedBlockStateReady);
    block.lease_epoch = 0;
    assert_eq!(
        refuse(full(vec![block])).message,
        "Ready block report entry lease_epoch must be non-zero"
    );
    let block = reported_block(ReportedBlockStateProto::ReportedBlockStateUnspecified);
    assert_eq!(
        refuse(full(vec![block])).message,
        "block report entry state must be specified"
    );
    let mut block = reported_block(ReportedBlockStateProto::ReportedBlockStateReady);
    block.block_id = None;
    assert_eq!(
        refuse(full(vec![block])).message,
        "block report entry missing block_id"
    );
    let ready = reported_block(ReportedBlockStateProto::ReportedBlockStateReady);
    let error = refuse(full(vec![ready; MAX_REPORT_ENTRIES + 1]));
    assert_eq!(
        error.kind,
        ErrorKind::Metadata(MetadataErrorKind::ResourceExhausted)
    );
    assert!(decode_full_batch(&vec![ready; 2]).unwrap().len() == 2);
    assert_eq!(
        decode_delta_batch(&Vec::new()).unwrap_err().message(),
        "delta block report entries must be non-empty"
    );
    assert_eq!(
        decode_delta_batch(&vec![DeltaBlockReportEntryProto { block: None }])
            .unwrap_err()
            .message(),
        "delta block report entry block must be specified"
    );
    let error = refuse_report(&MetadataError::NotFound("who".to_string()));
    assert_eq!(
        error.kind,
        ErrorKind::Worker(WorkerErrorKind::NotRegistered)
    );
}

#[test]
fn identities_are_looked_at_up_to_the_first_bad_entry() {
    let service = service();
    let report = |blocks: Vec<ReportedBlockProto>| BlockReportRequestProto {
        header: header("root"),
        worker_id: 8,
        worker_run_id: RUN.to_string(),
        baseline_seq: 3,
        batch: Some(Batch::FullReport(FullBlockReportBatchProto {
            batch_seq: 0,
            final_batch: true,
            blocks,
        })),
    };
    let ready = reported_block(ReportedBlockStateProto::ReportedBlockStateReady);
    let mut nameless = ready;
    nameless.block_id = Some(BlockIdProto { inode_id: 0, block_index: 0 });
    let mut missing = ready;
    missing.block_id = None;
    assert!(service.reaches_valid_blocks(&report(vec![ready])));
    assert!(!service.reaches_valid_blocks(&report(vec![ready, nameless])));
    assert!(service.reaches_valid_blocks(&report(vec![missing, nameless])));
    let mut elsewhere = report(vec![nameless]);
    elsewhere.header = header("other");
    assert!(service.reaches_valid_blocks(&elsewhere));
    let mut delta = report(Vec::new());
    delta.batch = Some(Batch::DeltaReport(DeltaBlockReportBatchProto {
        batch_seq: 0,
        entries: vec![DeltaBlockReportEntryProto { block: Some(Block::Present(nameless)) }],
    }));
    assert!(!service.reaches_valid_blocks(&delta));
}

#[test]
fn only_ready_blocks_carry_a_tier() {
    let ready =
        proto_to_report_block(reported_block(ReportedBlockStateProto::ReportedBlockStateReady))
            .unwrap();
    assert_eq!(ready.tier, Some(Tier::Hdd));
    assert_eq!(ready.block_state, BlockReportBlockState::Ready);
    let mut deleting = reported_block(ReportedBlockStateProto::ReportedBlockStateDeleting);
    deleting.tier = 0;
    deleting.lease_epoch = 0;
    let deleting = proto_to_report_block(deleting).unwrap();
    assert_eq!(deleting.tier, None);
    assert_eq!(deleting.block_state, BlockReportBlockState::Deleting);
}

#[test]
fn the_transport_completes_the_trace_context() {
    let transport = ExtractedContext {
        traceparent: Some("transport".to_string()),
        tracestate: Some("state".to_string()),
        baggage: None,
    };
    let mut request = header("root");
    request.as_mut().unwrap().trace_context = Some(TraceContextProto {
        traceparent: Some("header".to_string()),
        tracestate: None,
        baggage: None,
    });
    merge_request_header_transport_context(&mut request, &transport);
    let merged = request.unwrap().trace_context.unwrap();
    assert_eq!(merged.traceparent.as_deref(), Some("header"));
    assert_eq!(merged.tracestate.as_deref(), Some("state"));
    assert_eq!(merged.baggage, None);

    let nothing = ExtractedContext { traceparent: None, tracestate: None, baggage: None };
    let mut request = header("root");
    request.as_mut().unwrap().trace_context = Some(TraceContextProto {
        traceparent: None,
        tracestate: None,
        baggage: None,
    });
    merge_request_header_transport_context(&mut request, &nothing);
    assert!(request.unwrap().trace_context.is_none());
    let mut none = None;
    merge_request_header_transport_context(&mut none, &transport);
    assert!(none.is_none());
}

#[test]
fn outcomes_have_labels() {
    assert_eq!(metadata_worker_outcome_labels(Ok(None)), ("ok", "none"));
    assert_eq!(
        metadata_worker_outcome_labels(Ok(Some("busy"))),
        ("error", "busy")
    );
    assert_eq!(
        metadata_worker_outcome_labels(Err(tonic::Code::DeadlineExceeded as i32)),
        ("error", "timeout")
    );
    let labels = [
        (tonic::Code::Ok, "none"),
        (tonic::Code::InvalidArgument, "invalid_argument"),
        (tonic::Code::NotFound, "not_found"),
        (tonic::Code::FailedPrecondition, "failed_precondition"),
        (tonic::Code::PermissionDenied, "permission_denied"),
        (tonic::Code::ResourceExhausted, "resource_exhausted"),
        (tonic::Code::Unavailable, "unavailable"),
        (tonic::Code::Unimplemented, "unimplemented"),
        (tonic::Code::Cancelled, "cancelled"),
        (tonic::Code::Internal, "internal"),
        (tonic::Code::Aborted, "rpc_status"),
    ];
    for (code, label) in labels {
        assert_eq!(tonic_status_error_kind(code as i32), label);
    }
}
