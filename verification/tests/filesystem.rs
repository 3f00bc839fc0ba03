//! Scenarios of the file system operations, with storage and replication played by hand.

use beryl_metadata::error::MetadataError;
use beryl_metadata::filesystem::command::{
    route_write_ctx, route_write_mount, unexpected_raft_apply_success, ApplySuccess, Command,
    MountEntry, RoutedFsWriteCtx,
};
use beryl_metadata::filesystem::context::{
    failure_from_admission, fs_failure_from_metadata_error, missing_resolved_target_error,
    success_with_route_epoch, worker_endpoint_from_parts, AdmissionFailure, Authority,
    MountContext, RequestContext, ResolvedPath,
};
use beryl_metadata::filesystem::namespace::{
    admit_delete, admit_rename, begin_create, decode_directory, execute_rename, finish_create,
    plan_create_directory, plan_rename, require_create_deadline, route_create, CreateStep,
    RenameReads,
};
use beryl_metadata::filesystem::open::{
    admit_open, authorize_block_write, begin_open, confirm_lease, confirm_topology, finish_open,
    needs_tail, request_tail, settle_open, take_snapshot, take_tail, AuthorizeBlockWriteArgs,
    OpenWriteOutput,
};
use beryl_metadata::filesystem::write::{
    allocation_command, begin_allocation, find_owned_session, finish_abort, finish_allocation, plan_abort,
    renew_lease, request_placement, session_admission_mount, settle_allocation, AllocationStep,
};
use beryl_metadata::fs::{ContentGeneration, WriteMode};
use beryl_metadata::group_watermark::RaftLogId;
use beryl_metadata::header::{ClientInfo, Deadline, RequestHeader, TraceContext};
use beryl_metadata::ids::{
    BlockId, CallId, ClientId, GroupName, InodeId, MountId, WorkerId,
};
use beryl_metadata::inode::{FileData, Inode, InodeKind};
use beryl_metadata::layout::{BlockFormatId, BlockShape, FileLayout};
use beryl_metadata::lease::{FencingToken, LeaseEpoch};
use beryl_metadata::location::LocatedBlock;
use beryl_metadata::placement::{
    PlacementOp, PlacementPlanner, PlacementStatus, ReportedBlockLocation, WorkerPlacementView,
};
use beryl_metadata::rpc_error::{
    ErrorKind, InternalErrorKind, MetadataErrorKind, ProtocolErrorKind, RecoveryAction,
    RpcErrorDetail,
};
use beryl_metadata::session::registry::SessionRegistry;
use beryl_metadata::worker_info::{Tier, TierFree, WorkerRunId};

const BLOCK: u32 = 4096;

fn group_name(raw: &str) -> GroupName {
    GroupName::parse(raw).unwrap()
}

fn context_of(client: u128) -> RequestContext {
    RequestContext {
        caller: RequestHeader {
            client: ClientInfo {
                call_id: CallId::new(),
                client_id: ClientId::new(client),
                client_name: None,
            },
            trace_context: TraceContext {
                traceparent: None,
                tracestate: None,
                baggage: None,
            },
            group_name: None,
            mount_epoch: None,
            state: Vec::new(),
            route_epoch: None,
            deadline: Deadline::from_unix_ms(1_000_000),
            caller_context: None,
        },
        route_epoch: None,
    }
}

fn authority() -> Authority {
    Authority {
        group_name: Some(group_name("g6")),
        mount_epoch: Some(9),
        route_epoch: Some(3),
    }
}

fn file_data(len: u64, epoch: u64) -> FileData {
    let count = FileData::block_count(len, BLOCK).unwrap();
    FileData {
        layout: FileLayout::new(BLOCK),
        len,
        generation: ContentGeneration::new(4),
        blocks: (0..count as u32).map(|i| BlockId::from_u64_u32(490, i)).collect(),
        next_index: count as u64,
        lease_epoch: LeaseEpoch::new(epoch),
    }
}

fn file_inode(len: u64, epoch: u64) -> Inode {
    Inode {
        inode_id: InodeId::new(490),
        mount_id: MountId::new(49),
        kind: InodeKind::File(file_data(len, epoch)),
    }
}

fn directory(id: u64, mount: u64) -> Inode {
    Inode {
        inode_id: InodeId::new(id),
        mount_id: MountId::new(mount),
        kind: InodeKind::Dir,
    }
}

fn run_id() -> WorkerRunId {
    WorkerRunId::parse("550e8400-e29b-41d4-a716-446655440000").unwrap()
}

fn live_worker(id: u64) -> WorkerPlacementView {
    WorkerPlacementView {
        group_name: group_name("g6"),
        worker_id: WorkerId::new(id),
        worker_run_id: Some(run_id()),
        endpoint: "127.0.0.1:9001".to_string(),
        worker_net_protocol: 1,
        registered: true,
        lease_valid: true,
        ip: None,
        host: None,
        az: None,
        rack: None,
        region: None,
        tier_free: vec![TierFree { tier: Tier::Ssd, free_bytes: 1024 * 1024 }],
        supported_block_formats: vec![BlockFormatId::durable_prefix()],
    }
}

fn reported(worker: u64, len: u64) -> ReportedBlockLocation {
    ReportedBlockLocation {
        worker_id: WorkerId::new(worker),
        worker_run_id: run_id(),
        tier: Tier::Nvme,
        effective_len: len,
    }
}

/// Opens the file of `file_inode`, whose stored epoch is `epoch`.
fn open_file(
    registry: &mut SessionRegistry,
    ctx: &RequestContext,
    len: u64,
    epoch: u64,
    mode: WriteMode,
    tail: Option<LocatedBlock>,
    now_ms: u64,
) -> OpenWriteOutput {
    let chain = vec![InodeId::new(1), InodeId::new(490)];
    let inode = admit_open(
        ctx,
        InodeId::new(490),
        &chain,
        Ok(Some(file_inode(len, epoch))),
    )
    .expect("admitted");
    let (opening, command) = begin_open(
        registry,
        ctx,
        &authority(),
        "/file".to_string(),
        &inode,
        Ok(FileLayout::new(BLOCK)),
        chain,
        mode,
        now_ms,
    )
    .expect("opening");
    assert!(matches!(
        command,
        Command::AcquireWriteLease { inode_id, expected_lease_epoch }
            if inode_id == InodeId::new(490) && expected_lease_epoch == LeaseEpoch::new(epoch)
    ));
    confirm_lease(
        registry,
        ctx,
        &authority(),
        opening,
        Ok(ApplySuccess::WriteLeaseAcquired {
            inode_id: InodeId::new(490),
            lease_epoch: LeaseEpoch::new(epoch + 1),
        }),
    )
    .expect("lease");
    let file = take_snapshot(
        registry,
        ctx,
        &authority(),
        opening,
        Ok(Some(file_inode(len, epoch + 1))),
    )
    .expect("snapshot");
    finish_open(registry, ctx, &authority(), opening, &file, tail, now_ms).expect("session")
}

fn allocate(
    registry: &mut SessionRegistry,
    ctx: &RequestContext,
    epoch: u64,
    previous: Option<BlockId>,
    index: u32,
    now_ms: u64,
) -> LocatedBlock {
    let inode = InodeId::new(490);
    let session =
        find_owned_session(registry, ctx, "AllocateBlock", inode, now_ms).expect("session");
    let (reservation, chunk_size) = match begin_allocation(
        registry,
        ctx,
        &authority(),
        session,
        inode,
        LeaseEpoch::new(epoch),
        previous,
        now_ms,
    )
    .expect("step")
    {
        AllocationStep::Propose(reservation, chunk_size) => (reservation, chunk_size),
        AllocationStep::Replay(block) => return block,
    };
    assert!(matches!(
        allocation_command(&reservation),
        Command::AllocateBlock { inode_id, lease_epoch }
            if inode_id == inode && lease_epoch == LeaseEpoch::new(epoch)
    ));
    let block_id = BlockId::from_u64_u32(490, index);
    let request = request_placement(
        registry,
        ctx,
        &authority(),
        reservation,
        Ok(block_id),
        true,
        None,
    )
    .expect("request");
    assert_eq!(request.op, PlacementOp::Write);
    let plan = PlacementPlanner.plan(&request, &vec![live_worker(1)]);
    finish_allocation(
        registry,
        ctx,
        &authority(),
        reservation,
        block_id,
        chunk_size,
        &plan,
        now_ms,
    )
    .expect("target")
}

#[test]
fn mismatched_raft_success_fails_closed() {
    let error = unexpected_raft_apply_success("CreateFile", ApplySuccess::RaftEntryApplied);

    assert!(matches!(
        error,
        MetadataError::Internal(message)
            if message.contains("CreateFile") && message.contains("unexpected success")
    ));
}

#[test]
fn failure_without_resolved_authority_preserves_requested_group_identity() {
    let group_name = group_name("requested");
    let mut ctx = context_of(7);
    ctx.caller.group_name = Some(group_name.clone());

    let failure = fs_failure_from_metadata_error(
        &ctx,
        &MetadataError::NotFound("missing inode".to_string()),
        &Authority::unknown(),
    );

    assert_eq!(failure.group_name, Some(group_name));
}

#[test]
fn an_opened_file_is_busy_until_its_session_ends() {
    let mut registry = SessionRegistry::new(2, 1, 100, 100, 60_000);
    let ctx = context_of(7);
    let opened = open_file(&mut registry, &ctx, 0, 6, WriteMode::Overwrite, None, 0);
    assert_eq!(opened.inode_id, InodeId::new(490));
    assert_eq!(opened.lease_epoch, LeaseEpoch::new(7));
    assert_eq!(opened.generation, ContentGeneration::new(4));
    assert_eq!(opened.expires_at_ms, 60_000);
    assert!(opened.tail_block.is_none());

    let chain = vec![InodeId::new(490)];
    let duplicate = begin_open(
        &mut registry,
        &context_of(8),
        &authority(),
        "/file".to_string(),
        &file_inode(0, 7),
        Ok(FileLayout::new(BLOCK)),
        chain,
        WriteMode::Overwrite,
        1,
    )
    .expect_err("a second writer must be refused");
    assert_eq!(
        duplicate.error.kind,
        ErrorKind::Metadata(MetadataErrorKind::Busy)
    );
    assert_eq!(duplicate.error.recovery, RecoveryAction::Fail);
    assert_eq!(
        duplicate.error.message,
        "File already has an opening or active write session: 490"
    );

    let mut other = file_inode(0, 1);
    other.inode_id = InodeId::new(491);
    let limited = begin_open(
        &mut registry,
        &ctx,
        &authority(),
        "/second".to_string(),
        &other,
        Ok(FileLayout::new(BLOCK)),
        vec![InodeId::new(491)],
        WriteMode::Overwrite,
        1,
    )
    .expect_err("one session for each client");
    assert_eq!(
        limited.error.kind,
        ErrorKind::Metadata(MetadataErrorKind::ResourceExhausted)
    );
    assert!(matches!(limited.error.recovery, RecoveryAction::Retry { .. }));
    assert!(limited.error.message.contains("per_client limit 1"));
}

#[test]
fn an_opening_that_fails_releases_its_file() {
    let mut registry = SessionRegistry::default();
    let ctx = context_of(7);
    let begin = |registry: &mut SessionRegistry| {
        begin_open(
            registry,
            &ctx,
            &authority(),
            "/file".to_string(),
            &file_inode(0, 6),
            Ok(FileLayout::new(BLOCK)),
            vec![InodeId::new(490)],
            WriteMode::Overwrite,
            0,
        )
        .expect("opening")
        .0
    };
    let opening = begin(&mut registry);
    let failure = confirm_lease(
        &mut registry,
        &ctx,
        &authority(),
        opening,
        Ok(ApplySuccess::RenameApplied),
    )
    .expect_err("another success must fail closed");
    assert_eq!(
        failure.error.kind,
        ErrorKind::Internal(InternalErrorKind::Internal)
    );
    assert_eq!(
        failure.error.message,
        "AcquireWriteLease Raft command returned unexpected success: RenameApplied"
    );
    assert_eq!(registry.session_gauges(), (0, 0));

    let opening = begin(&mut registry);
    let failure = take_snapshot(
        &mut registry,
        &ctx,
        &authority(),
        opening,
        Ok(Some(file_inode(0, 9))),
    )
    .expect_err("a later epoch fences the writer");
    assert_eq!(
        failure.error.kind,
        ErrorKind::Metadata(MetadataErrorKind::SessionInvalid)
    );
    assert_eq!(failure.error.message, "opened writer was fenced");
    assert_eq!(registry.session_gauges(), (0, 0));
}

#[test]
fn corrupt_or_missing_inodes_are_not_opened() {
    let ctx = context_of(7);
    let inode = InodeId::new(481);
    let chain = vec![inode];
    let corrupt = admit_open(&ctx, inode, &chain, Ok(Some(file_inode(0, 1))))
        .expect_err("key and value must agree");
    assert_eq!(
        corrupt.error.message,
        "inode authority is corrupt for OpenWrite: key=481, value_id=490, kind=File, payload=File"
    );
    let missing = admit_open(&ctx, inode, &chain, Ok(None)).expect_err("missing");
    assert_eq!(missing.error.message, "Inode not found: 481");
    assert_eq!(
        missing.error.kind,
        ErrorKind::Metadata(MetadataErrorKind::NotFound)
    );
    let dir = admit_open(&ctx, inode, &chain, Ok(Some(directory(481, 49)))).expect_err("dir");
    assert_eq!(
        dir.error.kind,
        ErrorKind::Metadata(MetadataErrorKind::IsDirectory)
    );
    assert_eq!(dir.error.message, "Inode is not a file: 481");
    let empty = admit_open(&ctx, inode, &Vec::new(), Ok(None)).expect_err("chain");
    assert_eq!(
        empty.error.message,
        "write session ancestor chain cannot be empty"
    );
}

#[test]
fn an_append_takes_the_partial_tail() {
    let mut registry = SessionRegistry::default();
    let ctx = context_of(7);
    let file = file_data(BLOCK as u64 + 100, 7);
    assert!(needs_tail(WriteMode::Append, &file));
    assert!(!needs_tail(WriteMode::Overwrite, &file));
    assert!(!needs_tail(WriteMode::Append, &file_data(BLOCK as u64, 7)));

    let (opening, _) = begin_open(
        &mut registry,
        &ctx,
        &authority(),
        "/file".to_string(),
        &file_inode(BLOCK as u64 + 100, 6),
        Ok(FileLayout::new(BLOCK)),
        vec![InodeId::new(490)],
        WriteMode::Append,
        0,
    )
    .unwrap();
    let existing = vec![reported(1, 100), reported(2, 99)];
    let request = request_tail(
        &mut registry,
        &ctx,
        &authority(),
        opening,
        &file,
        true,
        existing.clone(),
    )
    .expect("request");
    assert_eq!(request.block_id, BlockId::from_u64_u32(490, 1));
    assert_eq!(request.visible_len, 100);
    let plan = PlacementPlanner.plan(&request, &vec![live_worker(1), live_worker(2)]);
    assert_eq!(plan.status, PlacementStatus::Placed);
    let tail = take_tail(
        &mut registry,
        &ctx,
        &authority(),
        opening,
        &file,
        &existing,
        &plan,
    )
    .expect("tail");
    assert_eq!(tail.write_offset, 100);
    assert_eq!(tail.file_offset, BLOCK as u64);
    assert_eq!(tail.tier, Tier::Nvme);
    assert_eq!(tail.worker_endpoints.len(), 1);
    assert_eq!(tail.worker_endpoints[0].worker_id, WorkerId::new(1));
    let opened = finish_open(
        &mut registry,
        &ctx,
        &authority(),
        opening,
        &file,
        Some(tail.clone()),
        0,
    )
    .expect("session");
    assert_eq!(opened.tail_block, Some(tail));
    assert_eq!(opened.base_size, BLOCK as u64 + 100);
}

#[test]
fn a_tail_that_no_worker_holds_refuses_the_opening() {
    let mut registry = SessionRegistry::default();
    let ctx = context_of(7);
    let file = file_data(100, 7);
    let begin = |registry: &mut SessionRegistry| {
        begin_open(
            registry,
            &ctx,
            &authority(),
            "/file".to_string(),
            &file_inode(100, 6),
            Ok(FileLayout::new(BLOCK)),
            vec![InodeId::new(490)],
            WriteMode::Append,
            0,
        )
        .unwrap()
        .0
    };
    let opening = begin(&mut registry);
    let failure = request_tail(
        &mut registry,
        &ctx,
        &authority(),
        opening,
        &file,
        false,
        Vec::new(),
    )
    .expect_err("no workers are known");
    assert_eq!(failure.error.message, "Worker manager is unavailable");
    let opening = begin(&mut registry);
    let failure = request_tail(
        &mut registry,
        &ctx,
        &Authority::unknown(),
        opening,
        &file,
        true,
        Vec::new(),
    )
    .expect_err("no group is known");
    assert_eq!(
        failure.error.message,
        "OpenWrite worker lookup requires authoritative metadata group"
    );
    let opening = begin(&mut registry);
    let existing = vec![reported(1, 99)];
    let request = request_tail(
        &mut registry,
        &ctx,
        &authority(),
        opening,
        &file,
        true,
        existing.clone(),
    )
    .unwrap();
    let plan = PlacementPlanner.plan(&request, &vec![live_worker(1)]);
    let failure = take_tail(
        &mut registry,
        &ctx,
        &authority(),
        opening,
        &file,
        &existing,
        &plan,
    )
    .expect_err("the prefix is too short");
    assert_eq!(
        failure.error.kind,
        ErrorKind::Internal(InternalErrorKind::NodeUnavailable)
    );
    assert_eq!(registry.session_gauges(), (0, 0));
}

fn resolved(chain: Vec<u64>) -> ResolvedPath {
    ResolvedPath {
        mount_ctx: MountContext {
            mount_id: MountId::new(49),
            mount_epoch: 9,
            owner_group_name: group_name("g6"),
            root_inode_id: InodeId::new(1),
        },
        inode_id: Some(InodeId::new(490)),
        parent_inode_id: Some(InodeId::new(1)),
        name: Some("file".to_string()),
        ancestor_inode_ids: chain.into_iter().map(InodeId::new).collect(),
        relative_components: vec!["file".to_string()],
    }
}

#[test]
fn a_path_that_moved_takes_the_new_session_back() {
    let mut registry = SessionRegistry::default();
    let ctx = context_of(7);
    let opened = open_file(&mut registry, &ctx, 0, 6, WriteMode::Overwrite, None, 0);
    let before = resolved(vec![1, 490]);
    confirm_topology(
        &mut registry,
        &ctx,
        &authority(),
        &before,
        &Some(resolved(vec![1, 490])),
        &opened,
    )
    .expect("the path is the same");
    let failure = confirm_topology(
        &mut registry,
        &ctx,
        &authority(),
        &before,
        &Some(resolved(vec![1, 681, 490])),
        &opened,
    )
    .expect_err("the file moved");
    assert_eq!(
        failure.error.kind,
        ErrorKind::Metadata(MetadataErrorKind::Conflict)
    );
    assert!(matches!(failure.error.recovery, RecoveryAction::Retry { .. }));
    assert!(registry.get_session(InodeId::new(490), 0).is_none());
}

#[test]
fn allocation_failures_release_their_step_and_replays_repeat_the_target() {
    let mut registry = SessionRegistry::default();
    let ctx = context_of(7);
    let opened = open_file(&mut registry, &ctx, 0, 6, WriteMode::Overwrite, None, 0);
    let inode = opened.inode_id;
    let session = find_owned_session(&mut registry, &ctx, "AllocateBlock", inode, 0).unwrap();
    let begin = |registry: &mut SessionRegistry| {
        begin_allocation(
            registry,
            &ctx,
            &authority(),
            session,
            inode,
            LeaseEpoch::new(7),
            None,
            0,
        )
    };
    let AllocationStep::Propose(reservation, chunk_size) = begin(&mut registry).unwrap() else {
        panic!("the first step reserves")
    };
    let pending = match begin(&mut registry) {
        Err(failure) => failure,
        Ok(_) => panic!("a pending step must be refused"),
    };
    assert_eq!(
        pending.error.kind,
        ErrorKind::Metadata(MetadataErrorKind::Conflict)
    );

    let block_id = BlockId::from_u64_u32(490, 0);
    let request = request_placement(
        &mut registry,
        &ctx,
        &authority(),
        reservation,
        Ok(block_id),
        true,
        None,
    )
    .unwrap();
    let plan = PlacementPlanner.plan(&request, &Vec::new());
    finish_allocation(
        &mut registry,
        &ctx,
        &authority(),
        reservation,
        block_id,
        chunk_size,
        &plan,
        0,
    )
    .expect_err("no live worker");
    assert_eq!(registry.write_target_gauges(), (0, 0));

    let block = allocate(&mut registry, &ctx, 7, None, 1, 0);
    assert_eq!(block.block_id, BlockId::from_u64_u32(490, 1));
    assert_eq!(block.tier, Tier::Ssd);
    assert_eq!(block.worker_endpoints[0].endpoint, "127.0.0.1:9001");
    let replay = allocate(&mut registry, &ctx, 7, None, 2, 0);
    assert_eq!(replay, block);
    assert_eq!(
        registry.get_session(inode, 0).unwrap().issued_targets,
        vec![block]
    );
}

#[test]
fn sessions_of_others_are_not_touched() {
    let mut registry = SessionRegistry::default();
    let ctx = context_of(7);
    let inode = InodeId::new(490);
    assert!(session_admission_mount(&mut registry, inode, 0).is_none());
    open_file(&mut registry, &ctx, 0, 6, WriteMode::Overwrite, None, 0);
    assert_eq!(
        session_admission_mount(&mut registry, inode, 0),
        Some(MountId::new(49))
    );
    let failure = find_owned_session(&mut registry, &context_of(8), "RenewLease", inode, 0)
        .expect_err("another client");
    assert_eq!(
        failure.error.message,
        "RenewLease client does not own inode_id=490"
    );
    assert!(matches!(
        failure.error.recovery,
        RecoveryAction::ReopenWriteSession { .. }
    ));
    let session = find_owned_session(&mut registry, &ctx, "RenewLease", inode, 0).unwrap();
    let expires = renew_lease(
        &mut registry,
        &ctx,
        &authority(),
        session,
        inode,
        LeaseEpoch::new(7),
        30_000,
    )
    .expect("renewed");
    assert_eq!(expires, 90_000);
    let failure = renew_lease(
        &mut registry,
        &ctx,
        &authority(),
        session,
        inode,
        LeaseEpoch::new(6),
        30_000,
    )
    .expect_err("another epoch");
    assert_eq!(
        failure.error.kind,
        ErrorKind::Metadata(MetadataErrorKind::SessionInvalid)
    );
}

#[test]
fn an_abort_ends_only_its_own_session() {
    let mut registry = SessionRegistry::default();
    let ctx = context_of(7);
    let inode = InodeId::new(490);
    open_file(&mut registry, &ctx, 0, 6, WriteMode::Overwrite, None, 0);
    let mount = plan_abort(&mut registry, &ctx, inode, LeaseEpoch::new(7), Ok(None), 0)
        .expect("the session is the caller's");
    assert_eq!(mount, Some(MountId::new(49)));
    finish_abort(
        &mut registry,
        &ctx,
        &authority(),
        inode,
        LeaseEpoch::new(7),
        Ok(ApplySuccess::RenameApplied),
    )
    .expect_err("another success must fail closed");
    assert!(registry.get_session(inode, 0).is_some());
    finish_abort(
        &mut registry,
        &ctx,
        &authority(),
        inode,
        LeaseEpoch::new(7),
        Ok(ApplySuccess::WriteLeaseEnded {
            inode_id: inode,
            lease_epoch: LeaseEpoch::new(8),
        }),
    )
    .expect("ended");
    assert!(registry.get_session(inode, 0).is_none());
}

#[test]
fn streams_are_authorized_for_issued_blocks_only() {
    let mut registry = SessionRegistry::default();
    let ctx = context_of(7);
    open_file(&mut registry, &ctx, 0, 6, WriteMode::Overwrite, None, 0);
    let block = allocate(&mut registry, &ctx, 7, None, 0, 0);
    let args = |offset: u64, worker: u64| AuthorizeBlockWriteArgs {
        group_name: group_name("g6"),
        worker_id: WorkerId::new(worker),
        worker_run_id: run_id(),
        fencing_token: block.fencing_token,
        write_offset: offset,
        shape: BlockShape::new(
            block.block_format_id,
            block.block_size,
            block.chunk_size,
            1,
        )
        .unwrap(),
        tier: block.tier,
    };
    let mount = || {
        Ok(Some(MountEntry {
            root_inode_id: InodeId::new(1),
            namespace_owner_group_name: group_name("g6"),
            mount_epoch: 9,
        }))
    };
    let asked = Some(group_name("g6"));
    let mut authorize = |args: AuthorizeBlockWriteArgs, epoch: u64, workers, now_ms: u64| {
        authorize_block_write(
            &mut registry,
            &asked,
            &args,
            Ok(Some(file_inode(0, epoch))),
            mount(),
            &workers,
            now_ms,
        )
    };
    assert_eq!(
        authorize(args(0, 1), 7, Some(vec![live_worker(1)]), 0).unwrap(),
        0
    );
    for refused in [
        authorize(args(0, 2), 7, Some(vec![live_worker(2)]), 0),
        authorize(args(BLOCK as u64, 1), 7, Some(vec![live_worker(1)]), 0),
        authorize(args(0, 1), 8, Some(vec![live_worker(1)]), 0),
        authorize(args(0, 1), 7, None, 0),
        authorize(args(0, 1), 7, Some(vec![live_worker(1)]), 60_000),
    ] {
        let error = refused.expect_err("not authorized");
        assert!(matches!(
            error,
            MetadataError::PermissionDenied(m) if m == "block writer is no longer authorized"
        ));
    }
}

#[test]
fn a_token_of_another_owner_is_not_authorized() {
    let mut registry = SessionRegistry::default();
    let ctx = context_of(7);
    open_file(&mut registry, &ctx, 0, 6, WriteMode::Overwrite, None, 0);
    let block = allocate(&mut registry, &ctx, 7, None, 0, 0);
    let args = AuthorizeBlockWriteArgs {
        group_name: group_name("g6"),
        worker_id: WorkerId::new(1),
        worker_run_id: run_id(),
        fencing_token: FencingToken::new(block.block_id, ClientId::new(8), LeaseEpoch::new(7)),
        write_offset: 0,
        shape: BlockShape::new(block.block_format_id, block.block_size, block.chunk_size, 1)
            .unwrap(),
        tier: block.tier,
    };
    assert!(authorize_block_write(
        &mut registry,
        &Some(group_name("g6")),
        &args,
        Ok(Some(file_inode(0, 7))),
        Ok(None),
        &Some(vec![live_worker(1)]),
        0,
    )
    .is_err());
}

#[test]
fn renames_and_deletes_do_not_cross_a_writer() {
    let mut registry = SessionRegistry::default();
    let ctx = context_of(7);
    let chain = vec![InodeId::new(1), InodeId::new(670), InodeId::new(490)];
    let (opening, _) = begin_open(
        &mut registry,
        &ctx,
        &authority(),
        "/source/file".to_string(),
        &file_inode(0, 6),
        Ok(FileLayout::new(BLOCK)),
        chain,
        WriteMode::Overwrite,
        0,
    )
    .unwrap();
    finish_open(
        &mut registry,
        &ctx,
        &authority(),
        opening,
        &file_data(0, 7),
        None,
        0,
    )
    .unwrap();

    let busy = admit_rename(
        &mut registry,
        &ctx,
        &authority(),
        InodeId::new(670),
        &Ok(None),
        &Ok(None),
        0,
    )
    .expect_err("the source holds a writer");
    assert_eq!(
        busy.error.kind,
        ErrorKind::Metadata(MetadataErrorKind::Busy)
    );
    assert_eq!(
        busy.error.message,
        "Rename source contains an active write lease: 670"
    );
    let busy = admit_rename(
        &mut registry,
        &ctx,
        &authority(),
        InodeId::new(680),
        &Ok(Some(InodeId::new(670))),
        &Ok(Some(directory(670, 49))),
        0,
    )
    .expect_err("the replaced target holds a writer");
    assert_eq!(
        busy.error.message,
        "Rename target contains an active write lease: 670"
    );
    admit_rename(
        &mut registry,
        &ctx,
        &authority(),
        InodeId::new(680),
        &Ok(None),
        &Ok(None),
        0,
    )
    .expect("no writer is crossed");

    let routed = routed();
    let components = || vec!["source".to_string()];
    let busy = match admit_delete(
        &mut registry,
        &ctx,
        &routed,
        components(),
        InodeId::new(670),
        &Ok(Some(directory(670, 49))),
        true,
        0,
    ) {
        Err(failure) => failure,
        Ok(_) => panic!("a writer below must refuse a recursive delete"),
    };
    assert_eq!(
        busy.error.kind,
        ErrorKind::Metadata(MetadataErrorKind::Busy)
    );
    let command = admit_delete(
        &mut registry,
        &ctx,
        &routed,
        components(),
        InodeId::new(670),
        &Ok(Some(directory(670, 49))),
        true,
        60_000,
    )
    .expect("the writer has expired");
    assert!(matches!(command, Command::Delete { recursive: true, .. }));
}

#[test]
fn an_opening_is_settled_in_one_step() {
    let mut registry = SessionRegistry::default();
    let ctx = context_of(7);
    let begin = |registry: &mut SessionRegistry, mode: WriteMode| {
        begin_open(
            registry,
            &ctx,
            &authority(),
            "/file".to_string(),
            &file_inode(100, 6),
            Ok(FileLayout::new(BLOCK)),
            vec![InodeId::new(490)],
            mode,
            0,
        )
        .unwrap()
        .0
    };
    let acquired = || {
        Ok(ApplySuccess::WriteLeaseAcquired {
            inode_id: InodeId::new(490),
            lease_epoch: LeaseEpoch::new(7),
        })
    };
    let opening = begin(&mut registry, WriteMode::Append);
    let failure = settle_open(
        &mut registry,
        &ctx,
        &authority(),
        opening,
        WriteMode::Append,
        acquired(),
        Ok(Some(file_inode(100, 7))),
        vec![reported(1, 99)],
        &Some(vec![live_worker(1)]),
        0,
    )
    .expect_err("nobody holds the tail");
    assert_eq!(
        failure.error.message,
        "no live replica holds the visible prefix"
    );
    assert_eq!(registry.session_gauges(), (0, 0));
    let opening = begin(&mut registry, WriteMode::Append);
    let opened = settle_open(
        &mut registry,
        &ctx,
        &authority(),
        opening,
        WriteMode::Append,
        acquired(),
        Ok(Some(file_inode(100, 7))),
        vec![reported(1, 100)],
        &Some(vec![live_worker(1)]),
        0,
    )
    .expect("opened");
    assert_eq!(opened.tail_block.unwrap().write_offset, 100);
    assert_eq!(registry.session_gauges(), (0, 1));
}

#[test]
fn an_allocation_is_settled_in_one_step() {
    let mut registry = SessionRegistry::default();
    let ctx = context_of(7);
    open_file(&mut registry, &ctx, 0, 6, WriteMode::Overwrite, None, 0);
    let inode = InodeId::new(490);
    let begin = |registry: &mut SessionRegistry| {
        let session = find_owned_session(registry, &ctx, "AllocateBlock", inode, 0).unwrap();
        match begin_allocation(
            registry,
            &ctx,
            &authority(),
            session,
            inode,
            LeaseEpoch::new(7),
            None,
            0,
        ) {
            Ok(AllocationStep::Propose(reservation, chunk_size)) => (reservation, chunk_size),
            _ => panic!("the step reserves"),
        }
    };
    let (reservation, chunk_size) = begin(&mut registry);
    let failure = settle_allocation(
        &mut registry,
        &ctx,
        &authority(),
        reservation,
        chunk_size,
        Ok(ApplySuccess::BlockAllocated(BlockId::from_u64_u32(491, 0))),
        &Some(vec![live_worker(1)]),
        None,
        0,
    )
    .expect_err("a block of another inode fails closed");
    assert_eq!(
        failure.error.kind,
        ErrorKind::Internal(InternalErrorKind::Internal)
    );
    assert_eq!(registry.write_target_gauges(), (0, 0));
    let (reservation, chunk_size) = begin(&mut registry);
    let target = settle_allocation(
        &mut registry,
        &ctx,
        &authority(),
        reservation,
        chunk_size,
        Ok(ApplySuccess::BlockAllocated(BlockId::from_u64_u32(490, 3))),
        &Some(vec![live_worker(4), live_worker(2)]),
        None,
        0,
    )
    .expect("placed");
    assert_eq!(target.block_id, BlockId::from_u64_u32(490, 3));
    assert_eq!(target.worker_endpoints[0].worker_id, WorkerId::new(2));
    assert_eq!(registry.write_target_gauges(), (0, 1));
}

#[test]
fn renames_are_checked_in_order() {
    let mut registry = SessionRegistry::default();
    let ctx = context_of(7);
    let plan = |flags: u32| {
        plan_rename(
            &ctx,
            "/file",
            resolved(vec![1, 490]),
            resolved(vec![1, 490]),
            Ok(Some(file_inode(0, 6))),
            flags,
        )
        .expect("planned")
    };
    let reads = |dst_mount: u64| RenameReads {
        src_parent: Ok(Some(directory(1, 49))),
        dst_parent: Ok(Some(directory(1, dst_mount))),
        dentry: Ok(Some(InodeId::new(490))),
        replaced: Ok(Some(file_inode(0, 6))),
    };
    let command = plan(0);
    assert!(matches!(
        &command,
        Command::Rename { expected_dst_lease_epoch: Some(epoch), .. } if *epoch == LeaseEpoch::new(6)
    ));
    let mut check = |command: &Command, reads: &RenameReads| {
        execute_rename(
            &mut registry,
            &ctx,
            command,
            reads,
            &authority(),
            Ok(routed()),
            0,
        )
    };
    assert_eq!(check(&command, &reads(49)).unwrap().mount_epoch, 9);
    assert_eq!(
        check(&plan(2), &reads(49)).unwrap_err().error.message,
        "Unsupported rename flags: 2"
    );
    let crossed = check(&command, &reads(50)).unwrap_err();
    assert_eq!(
        crossed.error.kind,
        ErrorKind::Metadata(MetadataErrorKind::CrossMountRename)
    );
    assert_eq!(
        crossed.error.message,
        "Cross-mount rename not allowed: src_mount=MountId(49), dst_mount=MountId(50)"
    );
    let failure = route_create(&ctx, FileLayout::new(0), Ok(routed())).unwrap_err();
    assert!(failure.error.message.starts_with("invalid file layout: "));
    assert!(route_create(&ctx, FileLayout::new(BLOCK), Ok(routed())).is_ok());
}

fn routed() -> RoutedFsWriteCtx {
    RoutedFsWriteCtx {
        mount_id: MountId::new(49),
        mount_root_inode_id: InodeId::new(1),
        group_name: group_name("g6"),
        mount_epoch: 9,
    }
}

#[test]
fn a_created_file_is_replayed_to_its_caller() {
    let mut registry = SessionRegistry::default();
    let ctx = context_of(7);
    let begin = |registry: &mut SessionRegistry| {
        begin_create(
            registry,
            &ctx,
            &routed(),
            "/created".to_string(),
            vec!["created".to_string()],
            vec![InodeId::new(1)],
            FileLayout::new(BLOCK),
            0,
        )
        .expect("create")
    };
    let CreateStep::Propose(opening, command) = begin(&mut registry) else {
        panic!("the first call reserves")
    };
    let Command::CreateFile { session_expires_at_ms, request_deadline_ms, .. } = command else {
        panic!("a create is proposed")
    };
    assert_eq!(session_expires_at_ms, 60_000);
    assert_eq!(request_deadline_ms, 1_000_000);
    let created = finish_create(
        &mut registry,
        &ctx,
        &routed(),
        opening,
        Ok(ApplySuccess::FileCreated {
            inode_id: InodeId::new(700),
            layout: FileLayout::new(BLOCK),
            lease_epoch: LeaseEpoch::new(1),
            expires_at_ms: session_expires_at_ms,
            generation: ContentGeneration::new(0),
        }),
        1,
    )
    .expect("created");
    assert_eq!(created.inode_id, InodeId::new(700));
    let CreateStep::Replay(again) = begin(&mut registry) else {
        panic!("the second call is a replay")
    };
    assert_eq!(again, created);

    assert!(require_create_deadline(&ctx, 999_999).is_ok());
    assert!(matches!(
        require_create_deadline(&ctx, 1_000_000),
        Err(MetadataError::InvalidArgument(m)) if m == "CreateFile request deadline has expired"
    ));
}

#[test]
fn directories_are_planned_below_their_parent() {
    let ctx = context_of(7);
    let mut path = resolved(vec![1]);
    path.inode_id = None;
    let command = plan_create_directory(&ctx, path).expect("planned");
    assert!(matches!(
        command,
        Command::CreateDirectory { root_inode_id, components, recursive: false }
            if root_inode_id == InodeId::new(1) && components == vec!["file".to_string()]
    ));
    let mut root = resolved(vec![1]);
    root.parent_inode_id = None;
    root.name = None;
    assert_eq!(
        missing_resolved_target_error(&root).message(),
        "resolved path has no target"
    );
    plan_create_directory(&ctx, root).expect_err("the mount root is no child");
    assert_eq!(
        missing_resolved_target_error(&resolved(vec![1])).message(),
        "Entry not found: file (parent inode: 1)"
    );
    let ensured = ApplySuccess::DirectoryEnsured { inode_id: InodeId::new(5) };
    let directory = decode_directory(Ok((ensured, Some("attributes")))).unwrap();
    assert_eq!(directory.inode_id, InodeId::new(5));
    assert_eq!(directory.attrs, "attributes");
    let error = decode_directory::<&str>(Ok((ApplySuccess::DeleteApplied, None))).unwrap_err();
    assert_eq!(
        error.message(),
        "CreateDirectory Raft command returned unexpected success: DeleteApplied"
    );
}

#[test]
fn writes_are_routed_to_one_mount() {
    let parents = vec![InodeId::new(1), InodeId::new(2)];
    let mount = route_write_mount(
        &parents,
        &vec![Ok(Some(directory(1, 49))), Ok(Some(directory(2, 49)))],
    )
    .unwrap();
    assert_eq!(mount, MountId::new(49));
    let crossed = route_write_mount(
        &parents,
        &vec![Ok(Some(directory(1, 49))), Ok(Some(directory(2, 50)))],
    )
    .unwrap_err();
    assert!(matches!(crossed, MetadataError::CrossMountRename(_)));
    let missing =
        route_write_mount(&parents, &vec![Ok(Some(directory(1, 49))), Ok(None)]).unwrap_err();
    assert_eq!(missing.message(), "Parent inode not found: 2");
    let route = route_write_ctx(
        mount,
        Ok(Some(MountEntry {
            root_inode_id: InodeId::new(1),
            namespace_owner_group_name: group_name("g6"),
            mount_epoch: 9,
        })),
    )
    .unwrap();
    assert_eq!(route.group_name.as_str(), "g6");
    let unknown = route_write_ctx(mount, Ok(None)).unwrap_err();
    assert_eq!(unknown.message(), "Mount not found: MountId(49)");
}

#[test]
fn answers_name_their_authority() {
    let success = success_with_route_epoch(5u8, &authority(), Some(RaftLogId::new(2, 1, 7)));
    assert_eq!(success.payload, 5);
    assert_eq!(success.mount_epoch, Some(9));
    assert_eq!(success.route_epoch, Some(3));
    assert_eq!(success.state.len(), 1);
    assert_eq!(success.state[0].group_name.as_str(), "g6");
    assert_eq!(success.state[0].state_id, RaftLogId::new(2, 1, 7));
    let silent = success_with_route_epoch((), &Authority::unknown(), Some(RaftLogId::new(2, 1, 7)));
    assert!(silent.state.is_empty());

    let refused = failure_from_admission(AdmissionFailure {
        err: RpcErrorDetail::fail(
            ErrorKind::Protocol(ProtocolErrorKind::InvalidArgument),
            "no".to_string(),
        ),
        group_name: None,
        mount_epoch: Some(2),
    });
    assert_eq!(refused.group_name, None);
    assert_eq!(refused.mount_epoch, Some(2));
    assert_eq!(refused.error.message, "no");

    let endpoint =
        worker_endpoint_from_parts(WorkerId::new(3), "h:1".to_string(), 1, run_id()).unwrap();
    assert_eq!(endpoint.worker_id, WorkerId::new(3));
    let error =
        worker_endpoint_from_parts(WorkerId::new(3), "h:1".to_string(), 2, run_id()).unwrap_err();
    assert_eq!(
        error.message(),
        "unsupported persisted worker network protocol 2"
    );
}
