//! Placement of blocks on workers.

use beryl_metadata::ids::{BlockId, BlockIndex, GroupName, InodeId, WorkerId};
use beryl_metadata::layout::{BlockFormatId, FileLayout};
use beryl_metadata::placement::{
    CallerContextFields, PlacementOp, PlacementPlanner, PlacementRequest, PlacementStatus,
    ReportedBlockLocation, WorkerPlacementView,
};
use beryl_metadata::worker_info::{Tier, TierFree, WorkerRunId};

fn run_id(suffix: u32) -> WorkerRunId {
    WorkerRunId::parse(&format!("550e8400-e29b-41d4-a716-{suffix:012}"))
        .expect("valid worker run id")
}

fn block(inode_id: u64, index: u32) -> BlockId {
    BlockId::new(InodeId::new(inode_id), BlockIndex::new(index))
}

fn group_name(raw: &str) -> GroupName {
    GroupName::parse(raw).unwrap()
}

fn worker(
    group_name: &GroupName,
    worker_id: u64,
    worker_run_id: WorkerRunId,
    host: &str,
) -> WorkerPlacementView {
    WorkerPlacementView {
        group_name: group_name.clone(),
        worker_id: WorkerId::new(worker_id),
        worker_run_id: Some(worker_run_id),
        endpoint: format!("{host}:19101"),
        worker_net_protocol: 1,
        registered: true,
        lease_valid: true,
        ip: None,
        host: Some(host.to_string()),
        az: None,
        rack: None,
        region: None,
        tier_free: vec![TierFree { tier: Tier::Hdd, free_bytes: 4096 }],
        supported_block_formats: vec![BlockFormatId::durable_prefix()],
    }
}

fn request(group_name: &GroupName, op: PlacementOp, block_id: BlockId) -> PlacementRequest {
    let layout = FileLayout::new(4096);
    PlacementRequest {
        group_name: group_name.clone(),
        op,
        block_id,
        visible_len: 64,
        layout,
        caller: None,
        existing: Vec::new(),
        exclude_workers: Vec::new(),
        target_replicas: 1,
    }
}

#[test]
fn write_filters_workers_without_required_block_format() {
    let group = group_name("g9");
    let unsupported = || WorkerPlacementView {
        supported_block_formats: Vec::new(),
        ..worker(&group, 1, run_id(11), "host-a")
    };
    let supported = worker(&group, 2, run_id(12), "host-b");
    let req = request(&group, PlacementOp::Write, block(55, 0));

    let plan = PlacementPlanner.plan(&req, &vec![unsupported(), supported]);
    assert_eq!(plan.status, PlacementStatus::Placed);
    assert_eq!(
        plan.workers.iter().map(|w| w.worker_id).collect::<Vec<_>>(),
        vec![WorkerId::new(2)]
    );

    let plan = PlacementPlanner.plan(&req, &vec![unsupported()]);
    assert_eq!(plan.status, PlacementStatus::UnsupportedBlockFormat);
    assert!(plan.workers.is_empty());
}

#[test]
fn write_uses_single_replica_and_prefers_caller_locality() {
    let group = group_name("g10");
    let block_id = block(66, 0);
    let mut req = request(&group, PlacementOp::Write, block_id);
    req.caller = Some(CallerContextFields {
        host: Some("host-b".to_string()),
        ip: None,
        rack: None,
        az: None,
        region: None,
    });
    let workers = vec![
        worker(&group, 1, run_id(21), "host-a"),
        worker(&group, 2, run_id(22), "host-b"),
    ];

    let plan = PlacementPlanner.plan(&req, &workers);

    assert_eq!(req.target_replicas, 1);
    assert_eq!(plan.status, PlacementStatus::Placed);
    assert_eq!(
        plan.workers.iter().map(|w| w.worker_id).collect::<Vec<_>>(),
        vec![WorkerId::new(2)]
    );
}

#[test]
fn every_failed_placement_says_why() {
    let group = group_name("g11");
    let write = request(&group, PlacementOp::Write, block(1, 0));
    let none = PlacementPlanner.plan(&write, &Vec::new());
    assert_eq!(none.status, PlacementStatus::NoLiveWorker);
    assert_eq!(none.failure_message(), "no live worker");

    let mut full = worker(&group, 1, run_id(1), "host-a");
    full.tier_free = vec![TierFree { tier: Tier::Hdd, free_bytes: 4095 }];
    let plan = PlacementPlanner.plan(&write, &vec![full]);
    assert_eq!(plan.status, PlacementStatus::NoSpace);

    let mut dead = worker(&group, 1, run_id(1), "host-a");
    dead.lease_valid = false;
    let plan = PlacementPlanner.plan(&write, &vec![dead]);
    assert_eq!(plan.status, PlacementStatus::NoLiveWorker);

    let mut read = request(&group, PlacementOp::Read, block(1, 0));
    read.existing = vec![ReportedBlockLocation {
        worker_id: WorkerId::new(1),
        worker_run_id: run_id(1),
        tier: Tier::Hdd,
        effective_len: 63,
    }];
    let workers = vec![worker(&group, 1, run_id(1), "host-a")];
    let plan = PlacementPlanner.plan(&read, &workers);
    assert_eq!(plan.status, PlacementStatus::NoLiveReplica);
    read.existing[0].effective_len = 64;
    let plan = PlacementPlanner.plan(&read, &workers);
    assert_eq!(plan.status, PlacementStatus::Placed);
    assert_eq!(plan.workers[0].worker_id, WorkerId::new(1));
    assert_eq!(plan.workers[0].endpoint, "host-a:19101");
}

#[test]
fn equal_workers_are_ordered_by_identity() {
    let group = group_name("g12");
    let mut req = request(&group, PlacementOp::Write, block(1, 0));
    req.target_replicas = 2;
    let workers = vec![
        worker(&group, 9, run_id(9), "host-a"),
        worker(&group, 3, run_id(3), "host-a"),
        worker(&group, 5, run_id(5), "host-a"),
    ];
    let plan = PlacementPlanner.plan(&req, &workers);
    assert_eq!(
        plan.workers.iter().map(|w| w.worker_id).collect::<Vec<_>>(),
        vec![WorkerId::new(3), WorkerId::new(5)]
    );
    req.exclude_workers = vec![WorkerId::new(3), WorkerId::new(9)];
    let plan = PlacementPlanner.plan(&req, &workers);
    assert_eq!(
        plan.workers.iter().map(|w| w.worker_id).collect::<Vec<_>>(),
        vec![WorkerId::new(5)]
    );
}
