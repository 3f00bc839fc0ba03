//! Scenarios of reads.

use beryl_metadata::filesystem::context::{Authority, FileRange, RequestContext};
use beryl_metadata::filesystem::read::{
    admit_layout, admit_listing, check_applied_state, classify_unavailable_read_location,
    get_attr, get_file_layout, has_usable_read_endpoint, plan_file_layout, plan_inode_mount,
    read_dir_entries, BlockObservation, DirChild, StaleStateStatus,
};
use beryl_metadata::error::MetadataError;
use beryl_metadata::fs::{ContentGeneration, FileType};
use beryl_metadata::header::{ClientInfo, Deadline, RequestHeader, TraceContext};
use beryl_metadata::ids::{BlockId, CallId, ClientId, GroupName, InodeId, MountId, WorkerId};
use beryl_metadata::inode::{FileData, Inode, InodeKind};
use beryl_metadata::layout::{BlockFormatId, FileLayout};
use beryl_metadata::lease::LeaseEpoch;
use beryl_metadata::placement::{ReportedBlockLocation, WorkerPlacementView};
use beryl_metadata::rpc_error::{ErrorKind, MetadataErrorKind, RecoveryAction, WorkerErrorKind};
use beryl_metadata::worker_info::{Tier, WorkerRunId};

fn group_name(raw: &str) -> GroupName {
    GroupName::parse(raw).unwrap()
}

fn context() -> RequestContext {
    RequestContext {
        caller: RequestHeader {
            client: ClientInfo {
                call_id: CallId::new(),
                client_id: ClientId::new(7),
                client_name: None,
            },
            trace_context: TraceContext {
                traceparent: None,
                tracestate: None,
                baggage: None,
            },
            group_name: None,
            mount_epoch: None,
            state: Vec::new(),
            route_epoch: None,
            deadline: Deadline::from_unix_ms(1_000),
            caller_context: None,
        },
        route_epoch: None,
    }
}

fn authority() -> Authority {
    Authority {
        group_name: Some(group_name("g15")),
        mount_epoch: Some(9),
        route_epoch: Some(2),
    }
}

fn run_id(last: u32) -> WorkerRunId {
    WorkerRunId::parse(&format!("550e8400-e29b-41d4-a716-{last:012}")).unwrap()
}

fn file(len: u64) -> FileData {
    let count = FileData::block_count(len, 1024).unwrap();
    FileData {
        layout: FileLayout::new(1024),
        len,
        generation: ContentGeneration::new(1),
        blocks: (0..count as u32).map(|i| BlockId::from_u64_u32(530, i)).collect(),
        next_index: count as u64,
        lease_epoch: LeaseEpoch::new(1),
    }
}

fn inode(id: u64, kind: InodeKind) -> Inode {
    Inode {
        inode_id: InodeId::new(id),
        mount_id: MountId::new(53),
        kind,
    }
}

fn worker(id: u64, run: WorkerRunId) -> WorkerPlacementView {
    WorkerPlacementView {
        group_name: group_name("g15"),
        worker_id: WorkerId::new(id),
        worker_run_id: Some(run),
        endpoint: "127.0.0.1:9101".to_string(),
        worker_net_protocol: 1,
        registered: true,
        lease_valid: true,
        ip: None,
        host: None,
        az: None,
        rack: None,
        region: None,
        tier_free: Vec::new(),
        supported_block_formats: vec![BlockFormatId::durable_prefix()],
    }
}

fn report(id: u64, run: WorkerRunId, len: u64) -> ReportedBlockLocation {
    ReportedBlockLocation {
        worker_id: WorkerId::new(id),
        worker_run_id: run,
        tier: Tier::Hdd,
        effective_len: len,
    }
}

#[test]
fn a_layout_names_the_blocks_of_the_range_and_their_workers() {
    let ctx = context();
    let file = file(2_500);
    let plan = plan_file_layout(
        &ctx,
        &authority(),
        InodeId::new(530),
        &file,
        Some(FileRange { offset: 1_000, len: 25 }),
        true,
    )
    .unwrap();
    assert_eq!(plan.ordinals, vec![0, 1]);
    let observed = || BlockObservation {
        reported: vec![report(1, run_id(1), 1_024)],
        workers: vec![worker(2, run_id(1)), worker(1, run_id(1))],
    };
    let output = get_file_layout(
        &ctx,
        &authority(),
        InodeId::new(530),
        &file,
        &plan,
        None,
        vec![observed(), observed()],
    )
    .unwrap();
    assert_eq!(output.file_size, 2_500);
    assert_eq!(output.generation, Some(ContentGeneration::new(1)));
    assert_eq!(output.locations.len(), 2);
    assert_eq!(output.locations[1].file_offset, 1_024);
    assert_eq!(output.locations[1].len, 1_024);
    assert_eq!(output.locations[1].workers[0].worker_id, WorkerId::new(1));

    let all = plan_file_layout(&ctx, &authority(), InodeId::new(530), &file, None, false).unwrap();
    assert_eq!(all.ordinals, vec![0, 1, 2]);
    assert!(all.worker_group.is_none());
    let output = get_file_layout(
        &ctx,
        &authority(),
        InodeId::new(530),
        &file,
        &all,
        None,
        Vec::new(),
    )
    .unwrap();
    assert_eq!(output.locations[2].len, 452);
    assert!(output.locations[2].workers.is_empty());
}

#[test]
fn ranges_without_an_end_and_empty_ranges() {
    let ctx = context();
    let file = file(2_500);
    let plan = |range, known: Authority| {
        plan_file_layout(&ctx, &known, InodeId::new(530), &file, Some(range), true)
    };
    let failure = plan(FileRange { offset: u64::MAX, len: 1 }, authority()).unwrap_err();
    assert_eq!(failure.error.message, "range end overflows");
    let none = plan(FileRange { offset: 5, len: 0 }, authority()).unwrap();
    assert!(none.ordinals.is_empty());
    assert!(none.worker_group.is_none());
    let past = plan(FileRange { offset: 2_500, len: 10 }, authority()).unwrap();
    assert!(past.ordinals.is_empty());
    let failure = plan(FileRange { offset: 0, len: 1 }, Authority::unknown()).unwrap_err();
    assert_eq!(
        failure.error.message,
        "GetFileLayout worker lookup requires authoritative metadata group"
    );
    let mut broken = file;
    broken.blocks.pop();
    let failure = plan_file_layout(
        &ctx,
        &authority(),
        InodeId::new(530),
        &broken,
        None,
        true,
    )
    .unwrap_err();
    assert_eq!(
        failure.error.message,
        "file block count does not match the file length"
    );
}

#[test]
fn unavailable_or_stale_locations_are_not_named() {
    let ctx = context();
    let file = file(1_000);
    let locate = |observed: BlockObservation| {
        let plan =
            plan_file_layout(&ctx, &authority(), InodeId::new(530), &file, None, true).unwrap();
        get_file_layout(
            &ctx,
            &authority(),
            InodeId::new(530),
            &file,
            &plan,
            None,
            vec![observed],
        )
    };
    let short = locate(BlockObservation {
        reported: vec![report(1, run_id(1), 999)],
        workers: vec![worker(1, run_id(1))],
    })
    .unwrap_err();
    assert_eq!(
        short.error.kind,
        ErrorKind::Worker(WorkerErrorKind::BlockLocationUnavailable)
    );
    assert_eq!(
        short.error.message,
        "no live replica holds the visible prefix of block 530:0"
    );
    let RecoveryAction::RefreshMetadata { hint } = short.error.recovery else {
        panic!("the caller is to refresh")
    };
    assert!(hint.worker_resolve_required);
    let restarted = locate(BlockObservation {
        reported: vec![report(1, run_id(1), 1_000)],
        workers: vec![worker(1, run_id(2))],
    })
    .unwrap_err();
    assert_eq!(
        restarted.error.kind,
        ErrorKind::Worker(WorkerErrorKind::RunMismatch)
    );
    let mut unusable = worker(1, run_id(1));
    unusable.endpoint = String::new();
    assert!(!has_usable_read_endpoint(&unusable));
    assert!(locate(BlockObservation {
        reported: vec![report(1, run_id(1), 1_000)],
        workers: vec![unusable],
    })
    .is_err());
    assert_eq!(
        classify_unavailable_read_location(&Vec::new(), &vec![worker(1, run_id(1))]),
        ErrorKind::Worker(WorkerErrorKind::BlockLocationUnavailable)
    );
}

#[test]
fn key_and_value_of_an_inode_must_agree() {
    let ctx = context();
    let stored = || inode(482, InodeKind::File(file(0)));
    let failure = admit_layout(&ctx, InodeId::new(481), Ok(Some(stored()))).unwrap_err();
    assert!(failure.error.message.contains("inode authority is corrupt"));
    assert!(admit_layout(&ctx, InodeId::new(482), Ok(Some(stored()))).is_ok());
    let failure = plan_inode_mount(&ctx, InodeId::new(482), Ok(Some(inode(482, InodeKind::Dir))))
        .unwrap_err();
    assert_eq!(
        failure.error.kind,
        ErrorKind::Metadata(MetadataErrorKind::IsDirectory)
    );
    assert_eq!(
        plan_inode_mount(&ctx, InodeId::new(482), Ok(Some(stored()))).unwrap(),
        MountId::new(53)
    );
}

#[test]
fn a_status_carries_kind_length_and_attributes() {
    let ctx = context();
    let (mount, status) = get_attr(
        &ctx,
        InodeId::new(530),
        Ok(Some((inode(530, InodeKind::File(file(2_500))), "attrs"))),
    )
    .unwrap();
    assert_eq!(mount, MountId::new(53));
    assert_eq!(status.kind, FileType::File);
    assert_eq!(status.len, 2_500);
    assert_eq!(status.attrs, "attrs");
    let failure = get_attr::<u8>(&ctx, InodeId::new(530), Ok(None)).unwrap_err();
    assert_eq!(failure.error.message, "Inode not found: 530");
}

#[test]
fn listings_join_every_entry_or_fail() {
    let ctx = context();
    let parent = InodeId::new(710);
    assert_eq!(
        admit_listing(&ctx, parent, Ok(Some(inode(710, InodeKind::Dir)))).unwrap(),
        MountId::new(53)
    );
    let failure =
        admit_listing(&ctx, parent, Ok(Some(inode(710, InodeKind::File(file(0)))))).unwrap_err();
    assert_eq!(failure.error.message, "Parent is not a directory: 710");
    let failure = admit_listing(&ctx, parent, Ok(None)).unwrap_err();
    assert_eq!(failure.error.message, "Parent inode not found: 710");

    let child = |name: &str, id: u64, read| DirChild {
        name: name.to_string(),
        inode_id: InodeId::new(id),
        read,
    };
    let entries = read_dir_entries(
        &ctx,
        &authority(),
        parent,
        vec![
            child("a", 1, Ok(Some((inode(1, InodeKind::Dir), 10)))),
            child("b", 2, Ok(Some((inode(2, InodeKind::File(file(7))), 20)))),
        ],
    )
    .unwrap();
    assert_eq!(entries.len(), 2);
    assert_eq!(entries[0].name, "a");
    assert_eq!(entries[0].kind, FileType::Dir);
    assert_eq!(entries[1].len, 7);
    assert_eq!(entries[1].attrs, 20);

    let failure = read_dir_entries(
        &ctx,
        &authority(),
        parent,
        vec![
            child("a", 1, Ok(None)),
            child("b", 2, Err(MetadataError::Internal("later".to_string()))),
        ],
    )
    .map(|_: Vec<beryl_metadata::filesystem::read::ReadDirEntry<u8>>| ())
    .unwrap_err();
    assert_eq!(
        failure.error.message,
        "Directory dentry 'a' under parent inode 710 points to missing inode 1"
    );
    assert_eq!(failure.route_epoch, Some(2));
    let failure = read_dir_entries(
        &ctx,
        &authority(),
        parent,
        vec![child("a", 1, Ok(Some((inode(3, InodeKind::Dir), 0u8))))],
    )
    .map(|_| ())
    .unwrap_err();
    assert_eq!(
        failure.error.message,
        "child inode authority is corrupt for ListStatus: key=1, value_id=3, kind=Dir, payload=Dir"
    );
}

#[test]
fn reads_need_a_known_applied_state() {
    let ctx = context();
    assert!(check_applied_state(&ctx, &authority(), StaleStateStatus::Ready).is_ok());
    let failure = check_applied_state(&ctx, &authority(), StaleStateStatus::UnknownLastApplied)
        .unwrap_err();
    assert_eq!(
        failure.error.kind,
        ErrorKind::Metadata(MetadataErrorKind::StaleState)
    );
    assert_eq!(
        failure.error.message,
        "local applied state is unavailable for read freshness validation"
    );
}
