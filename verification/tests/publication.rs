//! Scenarios of sync and commit.

use beryl_metadata::error::MetadataError;
use beryl_metadata::filesystem::command::{
    fence_command, ApplySuccess, Command, PublishMode, RoutedFsWriteCtx,
};
use beryl_metadata::filesystem::committed::{
    check_committed_inodes, committed_bytes, validate_committed_blocks, CloseWriteIntent,
};
use beryl_metadata::filesystem::context::{Authority, RequestContext};
use beryl_metadata::filesystem::publish::{
    answer_commit, answer_sync, begin_commit, begin_sync, check_mount_authority,
    finish_committed, finish_publication, finish_visible_sync, prepare_proposal,
    resolve_commit_receipt, resolve_synced_state, settle_publication, submit_publication,
    validate_publication, CloseWriteOutput, Proposal, PublicationEnd, PublishOperation,
    PublishStep, SyncWriteOutput, ValidPublication,
};
use beryl_metadata::filesystem::readiness::{
    after_wait, needs_observation, require_publish_deadline, require_publish_ready,
    wait_for_publish_ready, PublishReadyConflict, PublishReadyStatus, ReadyWait, WaitOutcome,
};
use beryl_metadata::fs::{ContentGeneration, WriteMode};
use beryl_metadata::header::{ClientInfo, Deadline, RequestHeader, TraceContext};
use beryl_metadata::ids::{BlockId, CallId, ClientId, GroupName, InodeId, MountId, WorkerId};
use beryl_metadata::inode::{FileData, Inode, InodeKind};
use beryl_metadata::layout::{BlockFormatId, FileLayout};
use beryl_metadata::lease::{FencingToken, LeaseEpoch, WriteHandle};
use beryl_metadata::location::{CommittedBlock, LocatedBlock};
use beryl_metadata::rpc_error::{ErrorKind, MetadataErrorKind, RecoveryAction, WorkerErrorKind};
use beryl_metadata::session::registry::{BeginAllocateBlock, SessionRegistry};
use beryl_metadata::session::types::BeginSessionInput;
use beryl_metadata::worker_info::{BlockReportBlockState, Tier, WorkerRunId};

const INODE: InodeId = InodeId(16);
const HANDLE: WriteHandle = WriteHandle {
    inode_id: InodeId(16),
    lease_epoch: LeaseEpoch(7),
};

fn group_name(raw: &str) -> GroupName {
    GroupName::parse(raw).unwrap()
}

fn context() -> RequestContext {
    RequestContext {
        caller: RequestHeader {
            client: ClientInfo {
                call_id: CallId::new(),
                client_id: ClientId::new(1),
                client_name: None,
            },
            trace_context: TraceContext {
                traceparent: None,
                tracestate: None,
                baggage: None,
            },
            group_name: None,
            mount_epoch: None,
            state: Vec::new(),
            route_epoch: None,
            deadline: Deadline::from_unix_ms(1_000),
            caller_context: None,
        },
        route_epoch: None,
    }
}

fn authority() -> Authority {
    Authority {
        group_name: Some(group_name("g1")),
        mount_epoch: Some(9),
        route_epoch: Some(2),
    }
}

fn routed() -> RoutedFsWriteCtx {
    RoutedFsWriteCtx {
        mount_id: MountId::new(1),
        mount_root_inode_id: InodeId::new(1),
        group_name: group_name("g1"),
        mount_epoch: 9,
    }
}

fn block_id(index: u32) -> BlockId {
    BlockId::from_u64_u32(16, index)
}

fn target(index: u32, file_offset: u64) -> LocatedBlock {
    LocatedBlock {
        write_offset: 0,
        block_id: block_id(index),
        file_offset,
        block_size: 64,
        worker_endpoints: Vec::new(),
        fencing_token: FencingToken::new(block_id(index), ClientId::new(1), LeaseEpoch::new(7)),
        chunk_size: BlockFormatId::durable_prefix()
            .format_spec()
            .unwrap()
            .storage_chunk_size,
        block_format_id: BlockFormatId::durable_prefix(),
        tier: Tier::Hdd,
    }
}

fn stored(len: u64, generation: u64, epoch: u64, blocks: Vec<BlockId>) -> Inode {
    Inode {
        inode_id: INODE,
        mount_id: MountId::new(1),
        kind: InodeKind::File(FileData {
            layout: FileLayout::new(64),
            len,
            generation: ContentGeneration::new(generation),
            blocks,
            next_index: 2,
            lease_epoch: LeaseEpoch::new(epoch),
        }),
    }
}

fn empty_file() -> Inode {
    stored(0, 0, 7, Vec::new())
}

/// A registry with an overwrite session that has two issued targets.
fn written() -> SessionRegistry {
    let mut registry = SessionRegistry::default();
    let opening = registry
        .begin_session_at(
            BeginSessionInput {
                normalized_path: "/file".to_string(),
                mount_id: MountId::new(1),
                inode_id: INODE,
                current_lease_epoch: LeaseEpoch::new(6),
                mode: WriteMode::Overwrite,
                open_client_id: ClientId::new(1),
                layout: FileLayout::new(64),
                ancestor_inode_ids: vec![INODE],
            },
            0,
        )
        .unwrap();
    let InodeKind::File(file) = empty_file().kind else {
        panic!("file")
    };
    opening
        .activate(&mut registry, LeaseEpoch::new(7), &file, None, 0)
        .unwrap();
    let mut previous = None;
    for index in 0..2 {
        let step = registry
            .begin_allocate_block(INODE, LeaseEpoch::new(7), previous, 0)
            .unwrap();
        let BeginAllocateBlock::Reserved(reservation) = step else {
            panic!("each step is new")
        };
        let issued = reservation
            .complete(&mut registry, target(index, u64::from(index) * 64), 0)
            .unwrap();
        previous = Some(issued.block_id);
    }
    registry
}

fn committed(blocks: &[(u32, u64)]) -> Vec<CommittedBlock> {
    blocks
        .iter()
        .map(|(index, len)| CommittedBlock {
            block_id: block_id(*index),
            len: *len,
        })
        .collect()
}

fn intent(blocks: &[(u32, u64)], final_size: u64) -> CloseWriteIntent {
    CloseWriteIntent {
        committed_blocks: committed(blocks),
        final_size,
        expected_file_size: 0,
    }
}

fn begin_publish(registry: &mut SessionRegistry, ctx: &RequestContext) -> ValidPublication {
    let step = begin_commit(
        registry,
        ctx,
        HANDLE,
        ContentGeneration::new(0),
        PublishMode::ReplaceIfUnchanged,
        Ok(Some(empty_file())),
        Ok(None),
        0,
    )
    .expect("begun");
    let PublishStep::Publish(publication) = step else {
        panic!("a new commit publishes")
    };
    validate_publication(
        registry,
        ctx,
        &authority(),
        PublishOperation::CommitFile,
        HANDLE,
        &intent(&[(0, 64), (1, 36)], 100),
        ContentGeneration::new(0),
        PublishMode::ReplaceIfUnchanged,
        publication,
        Ok(Some(empty_file())),
        0,
    )
    .expect("valid")
}

fn prepare(
    registry: &mut SessionRegistry,
    ctx: &RequestContext,
    valid: ValidPublication,
    status: PublishReadyStatus,
    now_ms: u64,
) -> Result<Proposal, beryl_metadata::filesystem::context::FsFailure> {
    prepare_proposal(
        registry,
        ctx,
        &authority(),
        PublishOperation::CommitFile,
        HANDLE,
        valid,
        true,
        status,
        Ok(routed()),
        now_ms,
    )
}

#[test]
fn a_commit_publishes_and_ends_its_session() {
    let mut registry = written();
    let ctx = context();
    let valid = begin_publish(&mut registry, &ctx);
    assert_eq!(valid.targets.len(), 2);
    assert_eq!(valid.targets[1].effective_len, 36);
    let proposal = prepare(&mut registry, &ctx, valid, PublishReadyStatus::Ready, 10).unwrap_or_else(
        |failure| panic!("unexpected {}", failure.error.message),
    );
    let Command::CommitFile { inode_id, client_id, publication, .. } = &proposal.command else {
        panic!("a commit is proposed")
    };
    assert_eq!(*inode_id, INODE);
    assert_eq!(*client_id, ClientId::new(1));
    assert_eq!(publication.blocks, committed(&[(0, 64), (1, 36)]));
    assert_eq!(publication.target_size, 100);
    let submitted = submit_publication(&mut registry, proposal.publication, 10).expect("submitted");
    assert!(registry.has_active_write(INODE, 100_000));
    let end = finish_publication(
        &mut registry,
        submitted,
        PublishOperation::CommitFile,
        HANDLE,
        100,
        Ok(ApplySuccess::FileCommitted {
            inode_id: INODE,
            lease_epoch: LeaseEpoch::new(8),
            generation: ContentGeneration::new(1),
        }),
        100_000,
    );
    let PublicationEnd::Applied(generation) = end else {
        panic!("the commit was applied")
    };
    assert_eq!(generation, ContentGeneration::new(1));
    let answer = answer_commit(&ctx, &proposal.routed, Some(2), 100, Ok(generation), None)
        .unwrap_or_else(|failure| panic!("unexpected {}", failure.error.message));
    assert_eq!(answer.payload, CloseWriteOutput { committed_size: 100 });
    assert_eq!(answer.group_name, Some(group_name("g1")));
    assert_eq!(answer.mount_epoch, Some(9));
    assert_eq!(answer.route_epoch, Some(2));
    assert!(registry.get_session(INODE, 10).is_none());
    assert_eq!(registry.write_target_gauges(), (0, 0));
}

#[test]
fn a_failed_commit_keeps_its_session_until_a_fence_rules_it_out() {
    for fenced in [false, true] {
        let mut registry = written();
        let ctx = context();
        let valid = begin_publish(&mut registry, &ctx);
        let proposal = prepare(&mut registry, &ctx, valid, PublishReadyStatus::Ready, 10)
            .unwrap_or_else(|failure| panic!("unexpected {}", failure.error.message));
        let submitted = submit_publication(&mut registry, proposal.publication, 10).unwrap();
        let end = finish_publication(
            &mut registry,
            submitted,
            PublishOperation::CommitFile,
            HANDLE,
            100,
            Ok(ApplySuccess::FileCommitted {
                inode_id: INODE,
                lease_epoch: LeaseEpoch::new(7),
                generation: ContentGeneration::new(1),
            }),
            10,
        );
        let PublicationEnd::Fence(publication, error) = end else {
            panic!("a commit that did not end the lease fails closed")
        };
        assert!(error.message().starts_with("CommitFile Raft command returned unexpected success"));
        assert!(matches!(
            fence_command(HANDLE),
            Command::EndWriteLease { inode_id: INODE, lease_epoch: LeaseEpoch(7) }
        ));
        settle_publication(
            &mut registry,
            publication,
            HANDLE,
            Ok(ApplySuccess::WriteLeaseEnded {
                inode_id: INODE,
                lease_epoch: LeaseEpoch::new(if fenced { 8 } else { 7 }),
            }),
        );
        assert_eq!(registry.get_session(INODE, 500_000).is_none(), fenced);
        let failure = answer_commit(&ctx, &proposal.routed, Some(2), 100, Err(error), None)
            .err()
            .expect("a failed commit is told");
        assert!(failure
            .error
            .message
            .contains("CommitFile Raft command returned unexpected success"));
    }
}

#[test]
fn a_sync_keeps_its_session_and_moves_it_on() {
    let mut registry = written();
    let ctx = context();
    let step = begin_sync(
        &mut registry,
        &ctx,
        HANDLE,
        &intent(&[(0, 50)], 50),
        ContentGeneration::new(0),
        PublishMode::ReplaceIfUnchanged,
        Ok(Some(empty_file())),
        Ok(false),
        0,
    )
    .expect("begun");
    let PublishStep::Publish(publication) = step else {
        panic!("a new sync publishes")
    };
    let submitted = submit_publication(&mut registry, publication, 0).unwrap();
    let end = finish_publication(
        &mut registry,
        submitted,
        PublishOperation::SyncWrite,
        HANDLE,
        50,
        Ok(ApplySuccess::FilePublished {
            inode_id: INODE,
            generation: ContentGeneration::new(1),
        }),
        0,
    );
    let PublicationEnd::Applied(generation) = end else {
        panic!("the sync was applied")
    };
    let answer = answer_sync(&ctx, &routed(), Some(2), 50, Ok(generation), None)
        .unwrap_or_else(|failure| panic!("unexpected {}", failure.error.message));
    assert_eq!(
        answer.payload,
        SyncWriteOutput { synced_size: 50, generation: Some(ContentGeneration::new(1)) }
    );
    assert_eq!(answer.route_epoch, Some(2));
    let failure = answer_sync(
        &ctx,
        &routed(),
        Some(2),
        50,
        Err(MetadataError::Internal("lost".to_string())),
        None,
    )
    .err()
    .expect("a failed sync is told");
    assert_eq!(failure.route_epoch, None);
    let session = registry.get_session(INODE, 0).unwrap();
    assert_eq!(session.generation, ContentGeneration::new(1));
    assert_eq!(session.base_size, 50);
    assert_eq!(session.mode, WriteMode::Append);
    assert_eq!(session.issued_targets.len(), 1);

    let broken = begin_sync(
        &mut registry,
        &ctx,
        HANDLE,
        &intent(&[(0, 50)], 50),
        ContentGeneration::new(0),
        PublishMode::ReplaceIfUnchanged,
        Ok(Some(stored(50, 1, 7, vec![block_id(0)]))),
        Ok(true),
        0,
    )
    .expect("a visible sync is answered");
    let PublishStep::Visible(state, publication) = broken else {
        panic!("the effect is visible")
    };
    assert_eq!(state.generation, ContentGeneration::new(1));
    let output = finish_visible_sync(
        &mut registry,
        &ctx,
        &authority(),
        state,
        publication,
        50,
        0,
    )
    .expect("answered");
    assert_eq!(output.synced_size, 50);
    assert_eq!(output.generation, Some(ContentGeneration::new(1)));
    assert!(registry
        .get_session(INODE, 0)
        .unwrap()
        .active_publication
        .is_none());
}

#[test]
fn after_the_deadline_nothing_is_published_and_the_session_stays() {
    let mut registry = written();
    let ctx = context();
    let valid = begin_publish(&mut registry, &ctx);
    let failure = match prepare(&mut registry, &ctx, valid, PublishReadyStatus::Ready, 1_000) {
        Err(failure) => failure,
        Ok(_) => panic!("the deadline has passed"),
    };
    assert_eq!(
        failure.error.message,
        "deadline expired before file publication"
    );
    assert_eq!(
        failure.error.kind,
        ErrorKind::Worker(WorkerErrorKind::BlockLocationUnavailable)
    );
    let session = registry.get_session(INODE, 1_000).expect("session stays");
    assert!(session.active_publication.is_none());
}

#[test]
fn changes_during_the_wait_prevent_a_commit() {
    let mut registry = written();
    let ctx = context();
    let valid = begin_publish(&mut registry, &ctx);
    registry.remove_session_if_epoch(INODE, LeaseEpoch::new(7));
    let failure = match prepare(&mut registry, &ctx, valid, PublishReadyStatus::Ready, 10) {
        Err(failure) => failure,
        Ok(_) => panic!("the session is gone"),
    };
    assert_eq!(
        failure.error.kind,
        ErrorKind::Metadata(MetadataErrorKind::SessionInvalid)
    );

    let mut registry = written();
    let valid = begin_publish(&mut registry, &ctx);
    let failure = match prepare(
        &mut registry,
        &ctx,
        valid,
        PublishReadyStatus::Pending { block_id: block_id(1) },
        10,
    ) {
        Err(failure) => failure,
        Ok(_) => panic!("a report was withdrawn"),
    };
    assert_eq!(
        failure.error.message,
        "Ready evidence changed before publishing block 16:1"
    );

    let mut moved = authority();
    moved.mount_epoch = Some(10);
    let failure = check_mount_authority(&ctx, PublishOperation::CommitFile, &authority(), &moved)
        .expect_err("the mount changed");
    assert_eq!(
        failure.error.message,
        "CommitFile mount authority changed during Ready wait"
    );
    assert_eq!(failure.mount_epoch, Some(10));
    assert_eq!(failure.route_epoch, Some(2));
    check_mount_authority(&ctx, PublishOperation::CommitFile, &authority(), &authority())
        .expect("nothing changed");
}

#[test]
fn commits_without_a_current_session_are_refused() {
    let mut registry = SessionRegistry::default();
    let ctx = context();
    let begin = |registry: &mut SessionRegistry, handle: WriteHandle, mode: PublishMode| {
        begin_commit(
            registry,
            &ctx,
            handle,
            ContentGeneration::new(0),
            mode,
            Ok(Some(empty_file())),
            Ok(None),
            0,
        )
    };
    let message = |r: Result<PublishStep, beryl_metadata::filesystem::context::FsFailure>| match r {
        Err(failure) => failure.error.message,
        Ok(_) => panic!("must be refused"),
    };
    assert_eq!(
        message(begin(&mut registry, HANDLE, PublishMode::ReplaceIfUnchanged)),
        "write session not found for inode_id=16"
    );
    let mut registry = written();
    assert_eq!(
        message(begin(&mut registry, HANDLE, PublishMode::AppendIfUnchanged)),
        "CommitFile publish precondition does not match the active session"
    );
    let other = WriteHandle { lease_epoch: LeaseEpoch::new(8), ..HANDLE };
    assert_eq!(
        message(begin(&mut registry, other, PublishMode::ReplaceIfUnchanged)),
        "CommitFile publish precondition does not match the active session"
    );
    assert!(registry
        .get_session(INODE, 0)
        .unwrap()
        .active_publication
        .is_none());
}

#[test]
fn a_commit_that_was_made_is_answered_without_a_session() {
    let mut registry = SessionRegistry::default();
    let ctx = context();
    let step = begin_commit(
        &mut registry,
        &ctx,
        HANDLE,
        ContentGeneration::new(0),
        PublishMode::ReplaceIfUnchanged,
        Ok(Some(stored(64, 1, 8, vec![block_id(0)]))),
        Ok(Some(ContentGeneration::new(1))),
        0,
    )
    .expect("answered");
    assert!(matches!(step, PublishStep::Committed(mount) if mount == MountId::new(1)));

    let mut registry = written();
    let output = finish_committed(&mut registry, HANDLE, 64);
    assert_eq!(output.committed_size, 64);
    assert!(registry.get_session(INODE, 0).is_none());

    let mut wrong = empty_file();
    wrong.inode_id = InodeId::new(17);
    let error = resolve_commit_receipt(INODE, Ok(Some(wrong)), Ok(None)).unwrap_err();
    assert_eq!(error.message(), "CommitFile inode authority is corrupt");
    let error = resolve_commit_receipt(INODE, Ok(None), Ok(None)).unwrap_err();
    assert_eq!(error.message(), "Inode not found: 16");
}

#[test]
fn visible_state_is_recognized_by_contents_and_generation() {
    let resolve = |generation: u64, epoch: u64, none: bool, matches: bool| {
        resolve_synced_state(
            HANDLE,
            none,
            ContentGeneration::new(3),
            Ok(Some(stored(0, generation, epoch, Vec::new()))),
            Ok(matches),
        )
    };
    let state = resolve(4, 7, false, true).unwrap().expect("next generation");
    assert_eq!(state.generation, ContentGeneration::new(4));
    assert!(resolve(3, 7, true, true).unwrap().is_some());
    assert!(resolve(3, 7, false, true).unwrap().is_none());
    assert!(resolve(3, 8, false, false).unwrap().is_none());
    assert!(matches!(
        resolve(5, 7, false, true).unwrap_err(),
        MetadataError::Again(m) if m == "content generation changed"
    ));
    assert!(matches!(
        resolve(3, 9, false, false).unwrap_err(),
        MetadataError::LeaseFenced { expected, got }
            if expected == LeaseEpoch::new(9) && got == LeaseEpoch::new(7)
    ));
}

#[test]
fn committed_blocks_must_cover_the_file_in_order() {
    let mut registry = written();
    let session = registry.get_session(INODE, 0).unwrap();
    let check = |blocks: &[(u32, u64)], size: u64| {
        validate_committed_blocks(&intent(blocks, size), &session).map_err(|e| e.message())
    };
    assert_eq!(
        check(&[(0, 64), (1, 36)], 100).unwrap(),
        committed(&[(0, 64), (1, 36)])
    );
    assert_eq!(check(&[], 0).unwrap(), Vec::new());
    let cover = "publication does not cover the target length".to_string();
    assert_eq!(check(&[(0, 64)], 100).unwrap_err(), cover);
    let order = "invalid ordered publication block".to_string();
    assert_eq!(check(&[(1, 64), (0, 36)], 100).unwrap_err(), order);
    assert_eq!(check(&[(0, 64), (0, 36)], 100).unwrap_err(), order);
    assert_eq!(check(&[(0, 64), (1, 37)], 100).unwrap_err(), order);
    assert_eq!(
        check(&[(5, 64)], 64).unwrap_err(),
        "block was not issued to this writer"
    );
    let mut other = intent(&[(0, 64)], 64);
    other.expected_file_size = 1;
    assert_eq!(
        validate_committed_blocks(&other, &session).unwrap_err().message(),
        "expected file size does not match session"
    );

    let mut append = session;
    append.mode = WriteMode::Append;
    append.base_size = 64;
    let check = |blocks: &[(u32, u64)], size: u64| {
        let mut asked = intent(blocks, size);
        asked.expected_file_size = 64;
        validate_committed_blocks(&asked, &append).map_err(|e| e.message())
    };
    assert_eq!(check(&[], 64).unwrap(), Vec::new());
    assert_eq!(check(&[(1, 6)], 70).unwrap(), committed(&[(1, 6)]));
    assert_eq!(check(&[], 63).unwrap_err(), cover);
    assert_eq!(check(&[(0, 64), (1, 6)], 70).unwrap_err(), cover);
}

#[test]
fn committed_blocks_are_counted_and_belong_to_the_request() {
    assert_eq!(committed_bytes(&committed(&[(0, 64), (1, 36)])), 100);
    assert_eq!(
        committed_bytes(&committed(&[(0, u64::MAX), (1, 36)])),
        u64::MAX
    );
    assert!(check_committed_inodes(&committed(&[(0, 1)]), INODE).is_ok());
    assert_eq!(
        check_committed_inodes(&committed(&[(0, 1)]), InodeId::new(17))
            .unwrap_err()
            .message(),
        "committed block inode_id does not match request"
    );
}

#[test]
fn waiting_follows_the_reports_and_the_deadline() {
    let ctx = context();
    let pending = PublishReadyStatus::Pending { block_id: block_id(1) };
    assert_eq!(
        wait_for_publish_ready(&ctx, &authority(), pending, 400).unwrap(),
        ReadyWait::Wait { block_id: block_id(1), remaining_ms: 600 }
    );
    assert_eq!(
        wait_for_publish_ready(&ctx, &authority(), PublishReadyStatus::Ready, 4_000).unwrap(),
        ReadyWait::Done
    );
    let failure = wait_for_publish_ready(&ctx, &authority(), pending, 1_000).unwrap_err();
    assert_eq!(
        failure.error.message,
        "deadline expired while waiting for Ready report for block 16:1"
    );
    assert!(after_wait(&ctx, &authority(), block_id(1), WaitOutcome::Observed).is_ok());
    assert_eq!(
        after_wait(&ctx, &authority(), block_id(1), WaitOutcome::Closed)
            .unwrap_err()
            .error
            .message,
        "worker publication observation channel closed"
    );
    assert!(after_wait(&ctx, &authority(), block_id(1), WaitOutcome::TimedOut).is_err());
    assert_eq!(
        needs_observation(&ctx, &authority(), &Vec::new(), false).unwrap(),
        false
    );
    assert!(require_publish_ready(&ctx, &authority(), &Vec::new(), false, pending).is_ok());
    assert!(require_publish_deadline(&ctx, &authority(), 999).is_ok());
    let failure = require_publish_deadline(&ctx, &Authority::unknown(), 1_000).unwrap_err();
    assert_eq!(
        failure.error.kind,
        ErrorKind::Metadata(MetadataErrorKind::Conflict)
    );
}

#[test]
fn every_conflict_names_its_kind_and_recovery() {
    let ctx = context();
    let run = WorkerRunId::parse("550e8400-e29b-41d4-a716-446655440000").unwrap();
    let worker_id = WorkerId::new(4);
    let id = block_id(1);
    let cases = [
        (
            PublishReadyConflict::MissingWriteEndpoint { block_id: id },
            WorkerErrorKind::BlockLocationUnavailable,
            true,
            "block 16:1 has no metadata-authorized write endpoint",
        ),
        (
            PublishReadyConflict::WorkerRunMismatch {
                block_id: id,
                worker_id,
                expected: run,
                current: None,
            },
            WorkerErrorKind::RunMismatch,
            true,
            "worker run changed before publishing block 16:1: worker_id=4, \
             expected=550e8400-e29b-41d4-a716-446655440000, current=None",
        ),
        (
            PublishReadyConflict::EndpointMismatch { block_id: id, worker_id },
            WorkerErrorKind::BlockLocationUnavailable,
            true,
            "worker endpoint changed before publishing block 16:1: worker_id=4",
        ),
        (
            PublishReadyConflict::LeaseEpochMismatch {
                block_id: id,
                worker_id,
                expected_epoch: LeaseEpoch::new(7),
                reported_epoch: LeaseEpoch::new(6),
            },
            WorkerErrorKind::Fencing,
            false,
            "worker reported the wrong writer epoch for block 16:1: worker_id=4, expected=7, \
             reported=6",
        ),
        (
            PublishReadyConflict::UnreadableBlock {
                block_id: id,
                worker_id,
                state: BlockReportBlockState::Corrupt,
            },
            WorkerErrorKind::Corrupt,
            false,
            "worker reported an unreadable block before publication: block_id=16:1, worker_id=4, \
             state=Corrupt",
        ),
    ];
    for (conflict, kind, resolve, message) in cases {
        let failure = wait_for_publish_ready(
            &ctx,
            &authority(),
            PublishReadyStatus::Conflict(conflict),
            0,
        )
        .unwrap_err();
        assert_eq!(failure.error.kind, ErrorKind::Worker(kind));
        assert_eq!(failure.error.message, message);
        let RecoveryAction::RefreshMetadata { hint } = failure.error.recovery else {
            panic!("a conflict asks for a refresh")
        };
        assert_eq!(hint.worker_resolve_required, resolve);
        assert_eq!(hint.group_name.as_deref(), Some("g1"));
        assert_eq!(hint.mount_epoch, Some(9));
        assert_eq!(hint.route_epoch, Some(2));
    }
}
