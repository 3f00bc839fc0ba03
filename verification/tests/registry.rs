//! Scenarios of the write session registry.

use beryl_metadata::config::{
    DEFAULT_MAX_SESSIONS_PER_CLIENT, DEFAULT_WRITE_LEASE_TIMEOUT_MS, MAX_PATH_COMPONENTS,
};
use beryl_metadata::fs::{ContentGeneration, WriteMode};
use beryl_metadata::ids::{BlockId, BlockIndex, CallId, ClientId, InodeId, MountId};
use beryl_metadata::inode::FileData;
use beryl_metadata::layout::{BlockFormatId, FileLayout};
use beryl_metadata::lease::{FencingToken, LeaseEpoch};
use beryl_metadata::location::LocatedBlock;
use beryl_metadata::session::index::{CreateFileOperationId, PathIndex};
use beryl_metadata::session::model::{
    BeginCreateSession, WriteOpening, MAX_EXPIRED_SESSION_RETIREMENTS_PER_CALL,
};
use beryl_metadata::session::registry::{BeginAllocateBlock, SessionRegistry};
use beryl_metadata::session::types::{
    validate_ancestor_chain, validate_parent_ancestor_chain,
    BeginAllocateBlockError, BeginCreateSessionError, BeginCreateSessionInput, BeginSessionError,
    BeginSessionInput, BeginWritePublicationError, CompleteWriteTargetError, InvalidTarget,
    PublicationError, WriteOpeningError, WriteSession, WriteSessionError, WriteSessionLimit,
    WriteTargetLimit, WriteTargetLimitExceeded,
};
use beryl_metadata::worker_info::Tier;

fn write_target(inode_id: InodeId, index: u32) -> LocatedBlock {
    let block_id = BlockId::new(inode_id, BlockIndex::new(index));
    LocatedBlock {
        write_offset: 0,
        block_id,
        file_offset: 0,
        block_size: 64,
        worker_endpoints: Vec::new(),
        fencing_token: FencingToken {
            block_id,
            owner: ClientId::new(1),
            epoch: LeaseEpoch::new(7),
        },
        chunk_size: BlockFormatId::current_for_new_file()
            .format_spec()
            .unwrap()
            .storage_chunk_size,
        block_format_id: BlockFormatId::current_for_new_file(),
        tier: Tier::Hdd,
    }
}

fn create_input(inode_id: InodeId) -> BeginSessionInput {
    BeginSessionInput {
        normalized_path: format!("/inode-{}", inode_id.as_raw()),
        inode_id,
        mount_id: MountId::new(1),
        current_lease_epoch: LeaseEpoch::new(6),
        mode: WriteMode::Overwrite,
        open_client_id: ClientId::new(1),
        layout: FileLayout::new(64),
        ancestor_inode_ids: vec![inode_id],
    }
}

fn opened_file(opening: &WriteOpening) -> FileData {
    FileData {
        layout: FileLayout::new(64),
        len: 0,
        generation: ContentGeneration::default(),
        blocks: Vec::new(),
        next_index: 0,
        lease_epoch: opening.proposed_lease_epoch,
    }
}

fn install_session(
    registry: &mut SessionRegistry,
    input: BeginSessionInput,
    now_ms: u64,
) -> Result<WriteSession, WriteOpeningError> {
    let opening = registry.begin_session_at(input, now_ms).expect("opening");
    let file = opened_file(&opening);
    opening.activate(registry, opening.proposed_lease_epoch(), &file, None, now_ms)
}

fn begin_create_input(operation_id: CreateFileOperationId) -> BeginCreateSessionInput {
    BeginCreateSessionInput {
        operation_id,
        request_deadline_ms: 100,
        normalized_path: "/created".to_string(),
        mount_id: MountId::new(1),
        expected_mount_epoch: 1,
        mount_root_inode_id: InodeId::new(1),
        open_client_id: operation_id.client_id,
        parent_ancestor_inode_ids: vec![InodeId::new(1)],
    }
}

fn issue_target(
    registry: &mut SessionRegistry,
    inode_id: InodeId,
    previous_block_id: Option<BlockId>,
    index: u32,
    file_offset: u64,
    now_ms: u64,
) -> LocatedBlock {
    let mut target = write_target(inode_id, index);
    target.file_offset = file_offset;
    let reservation = match registry
        .begin_allocate_block(inode_id, LeaseEpoch::new(7), previous_block_id, now_ms)
        .unwrap()
    {
        BeginAllocateBlock::Reserved(reservation) => reservation,
        BeginAllocateBlock::Replay(_) => panic!("new test target must reserve capacity"),
    };
    reservation.complete(registry, target, now_ms).unwrap()
}

/// Pending and issued targets together.
fn outstanding(registry: &SessionRegistry) -> usize {
    let (pending, issued) = registry.write_target_gauges();
    pending + issued
}

#[test]
fn stale_opening_drop_cannot_remove_replacement_with_same_proposed_epoch() {
    let mut registry = SessionRegistry::new(1, 1, 100, 100, 1);
    let inode_id = InodeId::new(31);
    let stale = registry.begin_session_at(create_input(inode_id), 0).unwrap();
    let replacement = registry.begin_session_at(create_input(inode_id), 1).unwrap();
    assert_eq!(stale.proposed_lease_epoch, replacement.proposed_lease_epoch);
    assert_ne!(stale.opening_id, replacement.opening_id);

    stale.release(&mut registry);
    assert_eq!(registry.session_gauges(), (1, 0));

    let session = registry
        .activate_opening(
            replacement.inode_id,
            replacement.opening_id,
            replacement.proposed_lease_epoch,
            1,
            &opened_file(&replacement),
            None,
        )
        .unwrap();
    assert_eq!(session.lease_epoch, LeaseEpoch::new(7));
}

#[test]
fn create_opening_reserves_capacity_and_replays_after_activation() {
    let mut registry = SessionRegistry::new(2, 1, 100, 100, 60_000);
    let now_ms = 1_000_000;
    let operation_id = CreateFileOperationId {
        client_id: ClientId::new(9),
        call_id: CallId::new(),
    };
    let opening = match registry
        .begin_create_session_at(begin_create_input(operation_id), now_ms)
        .unwrap()
    {
        BeginCreateSession::Reserved(opening) => opening,
        BeginCreateSession::Replay(_) => panic!("first CreateFile must reserve capacity"),
    };
    let expires_at_ms = opening.expires_at_ms;
    let mut wrong_deadline = begin_create_input(operation_id);
    wrong_deadline.request_deadline_ms += 1;
    assert!(matches!(
        registry.begin_create_session_at(wrong_deadline, now_ms + 1),
        Err(BeginCreateSessionError::IdentityMismatch)
    ));
    let other_operation = CreateFileOperationId {
        client_id: ClientId::new(8),
        call_id: CallId::new(),
    };
    assert!(matches!(
        registry.begin_create_session_at(begin_create_input(other_operation), now_ms + 1),
        Err(BeginCreateSessionError::PathBusy)
    ));
    let competing = |path: &str| {
        let mut input = create_input(InodeId::new(2));
        input.open_client_id = ClientId::new(9);
        input.normalized_path = path.to_string();
        input
    };
    assert!(matches!(
        registry.begin_session_at(competing("/created"), now_ms + 1),
        Err(BeginSessionError::Busy)
    ));
    assert!(matches!(
        registry.begin_session_at(competing("/other"), now_ms + 1),
        Err(BeginSessionError::LimitExceeded(_))
    ));

    let session = registry
        .activate_create_opening(
            opening.operation_id,
            opening.opening_id,
            InodeId::new(2),
            LeaseEpoch::new(1),
            expires_at_ms,
            FileLayout::new(64),
            ContentGeneration::new(0),
            now_ms + 1,
        )
        .unwrap();
    assert_eq!(session.inode_id, InodeId::new(2));

    registry
        .begin_publication(session.inode_id, session.lease_epoch, now_ms + 1)
        .unwrap()
        .complete_sync(&mut registry, ContentGeneration::new(1), 0, now_ms + 1)
        .unwrap();
    let renewed_expires_at_ms = registry
        .renew_session_at(
            session.inode_id,
            session.lease_epoch,
            session.open_client_id,
            now_ms + 10,
        )
        .unwrap();
    assert!(renewed_expires_at_ms >= expires_at_ms);

    let mut wrong_mount = begin_create_input(operation_id);
    wrong_mount.mount_id = MountId::new(2);
    assert!(matches!(
        registry.begin_create_session_at(wrong_mount, now_ms + 10),
        Err(BeginCreateSessionError::IdentityMismatch)
    ));
    let mut wrong_mount_epoch = begin_create_input(operation_id);
    wrong_mount_epoch.expected_mount_epoch = 2;
    assert!(matches!(
        registry.begin_create_session_at(wrong_mount_epoch, now_ms + 10),
        Err(BeginCreateSessionError::IdentityMismatch)
    ));
    let mut wrong_deadline = begin_create_input(operation_id);
    wrong_deadline.request_deadline_ms += 1;
    assert!(matches!(
        registry.begin_create_session_at(wrong_deadline, now_ms + 10),
        Err(BeginCreateSessionError::IdentityMismatch)
    ));
    let replay = registry
        .begin_create_session_at(begin_create_input(operation_id), now_ms + 10)
        .unwrap();
    let BeginCreateSession::Replay(current) = replay else {
        panic!("active CreateFile must replay its session")
    };
    assert_eq!(current.inode_id, session.inode_id);
    assert_eq!(current.lease_epoch, session.lease_epoch);
    assert_eq!(current.expires_at_ms, expires_at_ms);
    assert_eq!(current.generation, ContentGeneration::new(0));
    assert_eq!(
        registry
            .get_session(session.inode_id, now_ms + 10)
            .unwrap()
            .generation,
        ContentGeneration::new(1)
    );
}

#[test]
fn failed_create_activation_releases_capacity_and_path_exclusion() {
    let mut registry = SessionRegistry::new(2, 2, 100, 100, 60_000);
    let operation_id = CreateFileOperationId {
        client_id: ClientId::new(9),
        call_id: CallId::new(),
    };
    let opening = match registry
        .begin_create_session_at(begin_create_input(operation_id), 0)
        .unwrap()
    {
        BeginCreateSession::Reserved(opening) => opening,
        BeginCreateSession::Replay(_) => panic!("first CreateFile must reserve capacity"),
    };
    let expires_at_ms = opening.expires_at_ms();
    let inode_id = InodeId::new(2);
    install_session(&mut registry, create_input(inode_id), 0).unwrap();

    assert!(matches!(
        opening.activate(
            &mut registry,
            inode_id,
            LeaseEpoch::new(1),
            expires_at_ms,
            FileLayout::new(64),
            ContentGeneration::new(0),
            0,
        ),
        Err(WriteOpeningError::NotCurrent)
    ));
    assert_eq!(registry.session_gauges(), (0, 1));

    registry
        .remove_session_if_epoch(inode_id, LeaseEpoch::new(7))
        .unwrap();
    assert!(matches!(
        registry.begin_create_session_at(begin_create_input(operation_id), 0),
        Ok(BeginCreateSession::Reserved(_))
    ));
}

#[test]
fn delayed_cleanup_cannot_remove_a_newer_session() {
    let mut registry = SessionRegistry::default();
    let inode_id = InodeId::new(20);
    install_session(&mut registry, create_input(inode_id), 0).unwrap();
    registry
        .remove_session_if_epoch(inode_id, LeaseEpoch::new(7))
        .unwrap();
    let mut replacement = create_input(inode_id);
    replacement.current_lease_epoch = LeaseEpoch::new(7);
    install_session(&mut registry, replacement, 0).unwrap();

    assert!(registry
        .remove_session_if_epoch(inode_id, LeaseEpoch::new(7))
        .is_none());
    assert_eq!(
        registry.get_session(inode_id, 0).unwrap().lease_epoch,
        LeaseEpoch::new(8)
    );
}

#[test]
fn expiry_sweep_is_bounded_and_queries_ignore_residual_expired_entries() {
    let historical_expired_count = MAX_EXPIRED_SESSION_RETIREMENTS_PER_CALL * 3 + 17;
    let mut registry = SessionRegistry::new(
        historical_expired_count + 1,
        historical_expired_count + 1,
        100,
        100,
        10,
    );
    let residual_expired_count = MAX_EXPIRED_SESSION_RETIREMENTS_PER_CALL * 2 + 3;
    for raw in 1..=historical_expired_count {
        let inode_id = InodeId::new(raw as u64);
        install_session(&mut registry, create_input(inode_id), 0).unwrap();
    }
    for raw in 1..=(historical_expired_count - residual_expired_count) {
        registry
            .remove_session_if_epoch(InodeId::new(raw as u64), LeaseEpoch::new(7))
            .unwrap();
    }
    let active_inode_id = InodeId::new(20_000);
    let mut active = create_input(active_inode_id);
    active.ancestor_inode_ids = vec![active_inode_id];
    install_session(&mut registry, active, 1).unwrap();

    assert!(registry.has_active_write_under(active_inode_id, 10));
    assert_eq!(
        registry.session_gauges(),
        (
            0,
            residual_expired_count + 1 - MAX_EXPIRED_SESSION_RETIREMENTS_PER_CALL
        )
    );

    let residual_expired_inode_id = InodeId::new(historical_expired_count as u64);
    assert!(!registry.has_active_write_under(residual_expired_inode_id, 10));
    let mut sweeps = 0;
    while registry.session_gauges() != (0, 1) {
        assert!(registry.has_active_write_under(active_inode_id, 10));
        sweeps += 1;
        assert!(sweeps < 10, "expired sessions must all be retired");
    }

    registry
        .remove_session_if_epoch(active_inode_id, LeaseEpoch::new(7))
        .unwrap();
    assert_eq!(registry.session_gauges(), (0, 0));
    assert!(!registry.has_active_write_under(active_inode_id, 10));
    assert_eq!(registry.retire_expired_batch(u64::MAX), 0);
}

#[test]
fn allocation_and_publication_preserve_only_the_active_replay_chain() {
    let mut registry = SessionRegistry::default();
    let inode_id = InodeId::new(16);
    let now_ms = 5;
    install_session(&mut registry, create_input(inode_id), now_ms).unwrap();
    let first = issue_target(&mut registry, inode_id, None, 0, 0, now_ms);
    let reservation = match registry
        .begin_allocate_block(inode_id, LeaseEpoch::new(7), Some(first.block_id), now_ms)
        .unwrap()
    {
        BeginAllocateBlock::Reserved(reservation) => reservation,
        BeginAllocateBlock::Replay(_) => panic!("new predecessor must reserve"),
    };
    assert!(matches!(
        registry.begin_publication(inode_id, LeaseEpoch::new(7), now_ms),
        Err(BeginWritePublicationError::AllocateBlockPending)
    ));
    reservation.release(&mut registry);

    let publication = registry
        .begin_publication(inode_id, LeaseEpoch::new(7), now_ms)
        .expect("released AllocateBlock must unblock publication");
    assert!(matches!(
        registry.begin_allocate_block(inode_id, LeaseEpoch::new(7), Some(first.block_id), now_ms),
        Err(BeginAllocateBlockError::PublicationInProgress)
    ));
    publication.release(&mut registry);

    let second = issue_target(&mut registry, inode_id, Some(first.block_id), 1, 64, now_ms);
    assert_eq!(second.file_offset, 64);
    assert_eq!(outstanding(&registry), 2);
    assert_eq!(registry.write_target_gauges().0, 0);

    let publication = registry
        .begin_publication(inode_id, LeaseEpoch::new(7), now_ms)
        .unwrap();
    assert!(matches!(
        registry.begin_allocate_block(inode_id, LeaseEpoch::new(7), None, now_ms),
        Ok(BeginAllocateBlock::Replay(block)) if block == first
    ));
    publication
        .complete_sync(&mut registry, ContentGeneration::new(1), 64, now_ms)
        .unwrap();
    assert_eq!(outstanding(&registry), 1);
    for previous in [second.block_id, BlockId::from_u64_u32(999, 0)] {
        assert!(matches!(
            registry.begin_allocate_block(inode_id, LeaseEpoch::new(7), Some(previous), now_ms),
            Err(BeginAllocateBlockError::InvalidArgument(_))
        ));
    }
    let replacement = issue_target(&mut registry, inode_id, Some(first.block_id), 2, 64, now_ms);
    for (previous, expected) in [(None, first.clone()), (Some(first.block_id), replacement)] {
        assert!(matches!(
            registry.begin_allocate_block(inode_id, LeaseEpoch::new(7), previous, now_ms),
            Ok(BeginAllocateBlock::Replay(block)) if block == expected
        ));
    }
    let mut publication = registry
        .begin_publication(inode_id, LeaseEpoch::new(7), now_ms)
        .unwrap();
    registry.mark_submitted(&mut publication, now_ms).unwrap();
    let expired_at = publication.session().expires_at_ms + 1;
    assert!(registry.has_active_write_under(inode_id, expired_at));
    assert!(!registry.retire_expired_entry_for_inode(inode_id, expired_at));
    assert_eq!(registry.retire_expired_batch(expired_at), 0);
    assert!(matches!(
        registry.renew_session_at(inode_id, LeaseEpoch::new(7), ClientId::new(1), expired_at),
        Err(WriteSessionError::Expired)
    ));
    assert!(registry.get_session_identity(inode_id, now_ms).is_some());
    publication.complete_commit(&mut registry);
    assert!(registry.get_session(inode_id, now_ms).is_none());
    assert_eq!(outstanding(&registry), 0);
    install_session(&mut registry, create_input(inode_id), now_ms).unwrap();
    let old = registry
        .begin_publication(inode_id, LeaseEpoch::new(7), now_ms)
        .unwrap();
    registry
        .remove_session_if_epoch(inode_id, LeaseEpoch::new(7))
        .unwrap();
    let mut input = create_input(inode_id);
    input.current_lease_epoch = LeaseEpoch::new(7);
    install_session(&mut registry, input, now_ms).unwrap();
    old.complete_commit(&mut registry);
    assert_eq!(
        registry.get_session(inode_id, now_ms).unwrap().lease_epoch,
        LeaseEpoch::new(8)
    );
}

#[test]
fn submitted_sync_releases_expiry_pin_after_apply_or_exact_replay() {
    for changes_content in [false, true] {
        let mut registry = SessionRegistry::default();
        let inode_id = InodeId::new(16);
        install_session(&mut registry, create_input(inode_id), 0).unwrap();
        let mut publication = registry
            .begin_publication(inode_id, LeaseEpoch::new(7), 0)
            .unwrap();
        registry.mark_submitted(&mut publication, 0).unwrap();
        let expired_at = publication.session().expires_at_ms + 1;
        assert!(registry.has_active_write_under(inode_id, expired_at));
        registry
            .complete_sync_publication(
                inode_id,
                LeaseEpoch::new(7),
                publication.publication_id,
                ContentGeneration::new(u64::from(changes_content)),
                if changes_content { 64 } else { 0 },
                expired_at,
            )
            .unwrap();
        publication.release(&mut registry);
        assert!(!registry.has_active_write_under(inode_id, expired_at));
        assert_eq!(registry.session_gauges(), (0, 0));
        assert_eq!(outstanding(&registry), 0);
    }
}

#[test]
fn target_limits_count_pending_and_issued_while_replay_bypasses_capacity() {
    let mut registry = SessionRegistry::new(3, 3, 2, 1, 60_000);
    let first_inode = InodeId::new(31);
    let second_inode = InodeId::new(32);
    let third_inode = InodeId::new(33);
    for inode_id in [first_inode, second_inode, third_inode] {
        install_session(&mut registry, create_input(inode_id), 0).unwrap();
    }

    let first = issue_target(&mut registry, first_inode, None, 0, 0, 0);
    assert!(matches!(
        registry.begin_allocate_block(first_inode, LeaseEpoch::new(7), Some(first.block_id), 0),
        Err(BeginAllocateBlockError::LimitExceeded(WriteTargetLimitExceeded {
            limit: WriteTargetLimit::PerSession,
            maximum: 1,
        }))
    ));
    issue_target(&mut registry, second_inode, None, 0, 0, 0);
    assert!(matches!(
        registry.begin_allocate_block(third_inode, LeaseEpoch::new(7), None, 0),
        Err(BeginAllocateBlockError::LimitExceeded(WriteTargetLimitExceeded {
            limit: WriteTargetLimit::Global,
            maximum: 2,
        }))
    ));
    assert!(matches!(
        registry.begin_allocate_block(first_inode, LeaseEpoch::new(7), None, 0),
        Ok(BeginAllocateBlock::Replay(target)) if target == first
    ));

    registry
        .remove_session_if_epoch(second_inode, LeaseEpoch::new(7))
        .unwrap();
    assert!(matches!(
        registry.begin_allocate_block(third_inode, LeaseEpoch::new(7), None, 0),
        Ok(BeginAllocateBlock::Reserved(_))
    ));
}

#[test]
fn openings_never_exceed_the_global_or_the_client_capacity() {
    let mut registry = SessionRegistry::new(3, 2, 100, 100, 60_000);
    let opening_of = |inode: u64, client: u128| {
        let mut input = create_input(InodeId::new(inode));
        input.open_client_id = ClientId::new(client);
        input
    };
    let first = registry.begin_session_at(opening_of(1, 1), 0).unwrap();
    registry.begin_session_at(opening_of(2, 1), 0).unwrap();
    let refused = registry.begin_session_at(opening_of(3, 1), 0).unwrap_err();
    assert!(matches!(
        refused,
        BeginSessionError::LimitExceeded(e)
            if e.limit == WriteSessionLimit::PerClient && e.maximum == 2
    ));
    registry.begin_session_at(opening_of(3, 2), 0).unwrap();
    let refused = registry.begin_session_at(opening_of(4, 2), 0).unwrap_err();
    assert!(matches!(
        refused,
        BeginSessionError::LimitExceeded(e)
            if e.limit == WriteSessionLimit::Global && e.maximum == 3
    ));
    first.release(&mut registry);
    assert_eq!(registry.session_gauges(), (2, 0));
    registry.begin_session_at(opening_of(4, 1), 0).unwrap();
}

#[test]
fn a_second_step_waits_for_the_pending_one_and_issues_one_target() {
    let mut registry = SessionRegistry::default();
    let inode_id = InodeId::new(15);
    install_session(&mut registry, create_input(inode_id), 0).unwrap();
    let reservation = match registry
        .begin_allocate_block(inode_id, LeaseEpoch::new(7), None, 0)
        .unwrap()
    {
        BeginAllocateBlock::Reserved(reservation) => reservation,
        BeginAllocateBlock::Replay(_) => panic!("first step must reserve"),
    };
    assert!(matches!(
        registry.begin_allocate_block(inode_id, LeaseEpoch::new(7), None, 0),
        Err(BeginAllocateBlockError::Pending)
    ));
    let issued = reservation
        .complete(&mut registry, write_target(inode_id, 0), 0)
        .unwrap();
    let session = registry.get_session(inode_id, 0).unwrap();
    assert_eq!(session.issued_targets, vec![issued]);
    assert_eq!(session.issued_steps.len(), 1);
    assert_eq!(registry.write_target_gauges(), (0, 1));
}

#[test]
fn openings_are_refused_for_every_other_reason() {
    let mut registry = SessionRegistry::new(4, 4, 100, 100, 10);
    let inode_id = InodeId::new(3);
    let opening = registry.begin_session_at(create_input(inode_id), 0).unwrap();
    assert_eq!(opening.proposed_lease_epoch(), LeaseEpoch::new(7));
    assert!(matches!(
        registry.begin_session_at(create_input(inode_id), 0),
        Err(BeginSessionError::Busy)
    ));
    let mut exhausted = create_input(InodeId::new(4));
    exhausted.current_lease_epoch = LeaseEpoch::new(u64::MAX);
    assert!(matches!(
        registry.begin_session_at(exhausted, 0),
        Err(BeginSessionError::LeaseEpochExhausted)
    ));
    let mut cyclic = create_input(InodeId::new(4));
    cyclic.ancestor_inode_ids = vec![InodeId::new(4), InodeId::new(9), InodeId::new(4)];
    assert!(matches!(
        registry.begin_session_at(cyclic, 0),
        Err(BeginSessionError::InvalidAncestorChain)
    ));

    let file = opened_file(&opening);
    assert!(matches!(
        opening.activate(&mut registry, LeaseEpoch::new(8), &file, None, 0),
        Err(WriteOpeningError::LeaseEpochMismatch { expected, got })
            if expected == LeaseEpoch::new(7) && got == LeaseEpoch::new(8)
    ));
    let late = registry.begin_session_at(create_input(inode_id), 1).unwrap();
    assert!(matches!(
        late.activate(&mut registry, LeaseEpoch::new(7), &file, None, 11),
        Err(WriteOpeningError::Expired)
    ));
    assert!(matches!(
        late.activate(&mut registry, LeaseEpoch::new(7), &file, None, 11),
        Err(WriteOpeningError::NotCurrent)
    ));
}

#[test]
fn an_opening_that_is_not_activated_leaves_its_inode_free() {
    let mut registry = SessionRegistry::new(4, 4, 100, 100, 10);
    let inode_id = InodeId::new(3);
    let opening = registry.begin_session_at(create_input(inode_id), 0).unwrap();
    let mut file = opened_file(&opening);
    file.layout = FileLayout::new(128);
    assert!(matches!(
        opening.activate(&mut registry, LeaseEpoch::new(7), &file, None, 0),
        Err(WriteOpeningError::NotCurrent)
    ));
    assert_eq!(registry.session_gauges(), (0, 0));
    assert!(!registry.has_active_write(inode_id, 0));
    install_session(&mut registry, create_input(inode_id), 0).expect("the inode is free again");
}

#[test]
fn a_sweep_retires_the_earliest_up_to_its_budget() {
    let count = MAX_EXPIRED_SESSION_RETIREMENTS_PER_CALL as u64 + 6;
    let mut registry = SessionRegistry::new(200, 200, 100, 100, 1_000);
    for n in 0..count {
        install_session(&mut registry, create_input(InodeId::new(count - n)), n).unwrap();
    }
    let now_ms = 1_000 + count;
    assert_eq!(
        registry.retire_expired_batch(now_ms),
        MAX_EXPIRED_SESSION_RETIREMENTS_PER_CALL
    );
    assert_eq!(registry.session_gauges(), (0, 6));
    for raw in 1..=6 {
        assert!(registry.retire_expired_entry_for_inode(InodeId::new(raw), now_ms));
    }
    assert_eq!(registry.session_gauges(), (0, 0));
}

#[test]
fn every_fault_of_a_captured_path_is_worded() {
    let root = InodeId::new(1);
    let file = InodeId::new(2);
    let deep: Vec<InodeId> = (1..=MAX_PATH_COMPONENTS as u64 + 2).map(InodeId::new).collect();
    let chain = |path: &Vec<InodeId>| validate_ancestor_chain(file, path).unwrap_err().message();
    assert_eq!(chain(&Vec::new()), "write session ancestor chain cannot be empty");
    assert_eq!(
        chain(&deep),
        "write session ancestor chain exceeds the path depth limit"
    );
    assert_eq!(
        chain(&vec![root]),
        "write session ancestor chain must end at the file inode"
    );
    assert_eq!(
        chain(&vec![file, root, file]),
        "write session ancestor chain contains a cycle"
    );
    assert_eq!(validate_ancestor_chain(file, &vec![root, file]), Ok(()));

    let parent = |path: &Vec<InodeId>| validate_parent_ancestor_chain(path).unwrap_err().message();
    assert_eq!(
        parent(&Vec::new()),
        "create session parent ancestor chain cannot be empty"
    );
    assert_eq!(
        parent(&deep),
        "create session parent ancestor chain exceeds the path depth limit"
    );
    assert_eq!(
        parent(&vec![root, file, root]),
        "create session parent ancestor chain contains a cycle"
    );
    assert_eq!(validate_parent_ancestor_chain(&vec![root]), Ok(()));
}

#[test]
fn a_default_registry_has_the_default_limits() {
    let mut registry = SessionRegistry::default();
    for raw in 1..=DEFAULT_MAX_SESSIONS_PER_CLIENT as u64 {
        install_session(&mut registry, create_input(InodeId::new(raw)), 0).unwrap();
    }
    assert!(matches!(
        registry.begin_session_at(create_input(InodeId::new(100_000)), 0),
        Err(BeginSessionError::LimitExceeded(exceeded))
            if exceeded.limit == WriteSessionLimit::PerClient
    ));
    let session = registry.get_session(InodeId::new(1), 0).unwrap();
    assert_eq!(session.expires_at_ms, DEFAULT_WRITE_LEASE_TIMEOUT_MS);
}

#[test]
fn held_paths_are_counted() {
    let mut paths = PathIndex::new();
    let mount = MountId::new(1);
    let operation = CreateFileOperationId { client_id: ClientId::new(1), call_id: CallId::new() };
    assert_eq!(paths.len(), 0);
    paths.insert(mount, "/a".to_string(), operation);
    paths.insert(mount, "/b".to_string(), operation);
    assert_eq!(paths.len(), 2);
}

#[test]
fn a_target_that_does_not_fit_is_refused_and_releases_its_step() {
    let mut registry = SessionRegistry::default();
    let inode_id = InodeId::new(5);
    install_session(&mut registry, create_input(inode_id), 0).unwrap();
    let reserve = |registry: &mut SessionRegistry| match registry
        .begin_allocate_block(inode_id, LeaseEpoch::new(7), None, 0)
        .unwrap()
    {
        BeginAllocateBlock::Reserved(reservation) => reservation,
        BeginAllocateBlock::Replay(_) => panic!("step must reserve"),
    };

    let mut displaced = write_target(inode_id, 0);
    displaced.file_offset = 64;
    let reservation = reserve(&mut registry);
    assert!(matches!(
        reservation.complete(&mut registry, displaced, 0),
        Err(CompleteWriteTargetError::InvalidTarget(InvalidTarget::OffsetChanged {
            expected: 0,
            got: 64
        }))
    ));
    let reservation = reserve(&mut registry);
    assert!(matches!(
        reservation.complete(&mut registry, write_target(InodeId::new(6), 0), 0),
        Err(CompleteWriteTargetError::InvalidTarget(InvalidTarget::InodeMismatch))
    ));
    let mut foreign = write_target(inode_id, 0);
    foreign.fencing_token.owner = ClientId::new(2);
    let reservation = reserve(&mut registry);
    assert!(matches!(
        reservation.complete(&mut registry, foreign, 0),
        Err(CompleteWriteTargetError::InvalidTarget(InvalidTarget::FencingTokenMismatch))
    ));
    let mut started = write_target(inode_id, 0);
    started.write_offset = 1;
    let reservation = reserve(&mut registry);
    assert!(matches!(
        reservation.complete(&mut registry, started, 0),
        Err(CompleteWriteTargetError::InvalidTarget(InvalidTarget::NonZeroWriteOffset))
    ));
    assert_eq!(outstanding(&registry), 0);
}

#[test]
fn publications_are_refused_for_every_reason() {
    let mut registry = SessionRegistry::default();
    let inode_id = InodeId::new(5);
    assert!(matches!(
        registry.begin_publication(inode_id, LeaseEpoch::new(7), 0),
        Err(BeginWritePublicationError::Session(_))
    ));
    install_session(&mut registry, create_input(inode_id), 0).unwrap();
    let publication = registry
        .begin_publication(inode_id, LeaseEpoch::new(7), 0)
        .unwrap();
    assert!(matches!(
        registry.begin_publication(inode_id, LeaseEpoch::new(7), 0),
        Err(BeginWritePublicationError::PublicationInProgress)
    ));
    assert!(matches!(
        registry.complete_sync_publication(
            inode_id,
            LeaseEpoch::new(7),
            publication.publication_id,
            ContentGeneration::new(0),
            1,
            0,
        ),
        Err(PublicationError::ReplaySizeChanged { expected: 0, got: 1 })
    ));
    assert!(matches!(
        registry.complete_sync_publication(
            inode_id,
            LeaseEpoch::new(7),
            publication.publication_id,
            ContentGeneration::new(2),
            1,
            0,
        ),
        Err(PublicationError::GenerationChanged { due, given })
            if due == ContentGeneration::new(1) && given == ContentGeneration::new(2)
    ));
    let mut late = publication;
    let expires = late.session().expires_at_ms;
    assert!(matches!(
        registry.mark_submitted(&mut late, expires),
        Err(PublicationError::ChangedOrExpired)
    ));
    registry
        .cancel_publication(inode_id, LeaseEpoch::new(7), late.publication_id);
    assert!(matches!(
        registry.revalidate_publication(inode_id, LeaseEpoch::new(7), late.publication_id, 0),
        Err(PublicationError::NotCurrent)
    ));
}

#[test]
fn renewals_extend_only_a_live_lease_of_the_same_client() {
    let mut registry = SessionRegistry::new(4, 4, 100, 100, 10);
    let inode_id = InodeId::new(8);
    install_session(&mut registry, create_input(inode_id), 0).unwrap();
    assert_eq!(
        registry.renew_session_at(inode_id, LeaseEpoch::new(7), ClientId::new(1), 4),
        Ok(14)
    );
    assert!(registry
        .renew_session_at(inode_id, LeaseEpoch::new(7), ClientId::new(2), 5)
        .is_err());
    assert!(registry
        .renew_session_at(inode_id, LeaseEpoch::new(8), ClientId::new(1), 5)
        .is_err());
    assert_eq!(
        registry.renew_session_at(inode_id, LeaseEpoch::new(7), ClientId::new(1), 14),
        Err(WriteSessionError::Expired)
    );
    assert!(registry.get_session(inode_id, 14).is_none());
}
