//! Choice of the workers that hold a block.

use vstd::prelude::*;

use crate::ids::{BlockId, GroupName, WorkerId};
use crate::layout::{BlockFormatId, FileLayout};
use crate::rpc_error::optional_text;
use crate::worker_info::{Tier, TierFree, WorkerRunId};

verus! {

/// What a placement is for.
#[derive(Clone, Copy, Debug, PartialEq, Eq, Hash, Structural)]
pub enum PlacementOp {
    Write,
    Read,
}

/// Where a caller runs, as far as it says so.
#[derive(Debug)]
pub struct CallerContextFields {
    pub host: Option<String>,
    pub ip: Option<String>,
    pub rack: Option<String>,
    pub az: Option<String>,
    pub region: Option<String>,
}

/// A block that a worker process reported.
#[derive(Clone, Copy, Debug, PartialEq, Eq, Hash, Structural)]
pub struct ReportedBlockLocation {
    pub worker_id: WorkerId,
    pub worker_run_id: WorkerRunId,
    pub tier: Tier,
    /// Readable prefix of the block.
    pub effective_len: u64,
}

/// What is asked of a placement.
#[derive(Debug)]
pub struct PlacementRequest {
    pub group_name: GroupName,
    pub op: PlacementOp,
    pub block_id: BlockId,
    /// Bytes of the block that a reader must find.
    pub visible_len: u64,
    pub layout: FileLayout,
    pub caller: Option<CallerContextFields>,
    /// Replicas that workers reported.
    pub existing: Vec<ReportedBlockLocation>,
    pub exclude_workers: Vec<WorkerId>,
    pub target_replicas: u8,
}

/// What is known of a worker.
#[derive(Debug)]
pub struct WorkerPlacementView {
    pub group_name: GroupName,
    pub worker_id: WorkerId,
    pub worker_run_id: Option<WorkerRunId>,
    pub endpoint: String,
    pub worker_net_protocol: i32,
    pub registered: bool,
    pub lease_valid: bool,
    pub ip: Option<String>,
    pub host: Option<String>,
    pub az: Option<String>,
    pub rack: Option<String>,
    pub region: Option<String>,
    pub tier_free: Vec<TierFree>,
    pub supported_block_formats: Vec<BlockFormatId>,
}

/// How a placement ended.
#[derive(Clone, Copy, Debug, PartialEq, Eq, Hash, Structural)]
pub enum PlacementStatus {
    Placed,
    /// No worker of the group is alive.
    NoLiveWorker,
    /// No live worker supports the block format.
    UnsupportedBlockFormat,
    /// No live worker has room for a block.
    NoSpace,
    /// No live worker holds the visible prefix.
    NoLiveReplica,
}

/// A worker that was chosen.
#[derive(Debug)]
pub struct PlannedWorker {
    pub worker_id: WorkerId,
    pub endpoint: String,
    pub worker_net_protocol: i32,
    pub worker_run_id: WorkerRunId,
    /// Tier for a new replica.
    pub tier: Option<Tier>,
}

/// The value of a `PlannedWorker`.
pub struct PlannedWorkerView {
    pub worker_id: WorkerId,
    pub endpoint: Seq<char>,
    pub worker_net_protocol: i32,
    pub worker_run_id: WorkerRunId,
    pub tier: Option<Tier>,
}

impl View for PlannedWorker {
    type V = PlannedWorkerView;

    open spec fn view(&self) -> PlannedWorkerView {
        PlannedWorkerView {
            worker_id: self.worker_id,
            endpoint: self.endpoint@,
            worker_net_protocol: self.worker_net_protocol,
            worker_run_id: self.worker_run_id,
            tier: self.tier,
        }
    }
}

/// The values of a sequence of chosen workers.
pub open spec fn planned_views(workers: Seq<PlannedWorker>) -> Seq<PlannedWorkerView> {
    workers.map_values(|w: PlannedWorker| w@)
}

/// How a placement ended, and the workers that it chose.
#[derive(Debug)]
pub struct PlacementPlan {
    pub status: PlacementStatus,
    pub workers: Vec<PlannedWorker>,
}

/// Whether a worker of the group is alive and may be chosen.
pub open spec fn is_live(req: PlacementRequest, worker: WorkerPlacementView) -> bool {
    &&& worker.group_name@ == req.group_name@
    &&& worker.registered
    &&& worker.lease_valid
    &&& worker.worker_run_id is Some
    &&& !req.exclude_workers@.contains(worker.worker_id)
}

/// Whether a worker supports the block format.
pub open spec fn supports_format(req: PlacementRequest, worker: WorkerPlacementView) -> bool {
    worker.supported_block_formats@.contains(req.layout.block_format_id)
}

/// The first tier of the worker that has room for a full block, among those from `from` on.
pub open spec fn room_tier(tiers: Seq<TierFree>, block_size: u32, from: int) -> Option<Tier>
    decreases tiers.len() - from,
{
    if from >= tiers.len() || from < 0 {
        None
    } else if tiers[from].free_bytes >= block_size {
        Some(tiers[from].tier)
    } else {
        room_tier(tiers, block_size, from + 1)
    }
}

/// The tier that is found has room for a full block; where none is found, none has.
pub proof fn room_is_for_a_full_block(tiers: Seq<TierFree>, block_size: u32, from: int)
    requires
        0 <= from <= tiers.len(),
    ensures
        match room_tier(tiers, block_size, from) {
            Some(t) => exists|i: int|
                from <= i < tiers.len() && (#[trigger] tiers[i]).tier == t && tiers[i].free_bytes
                    >= block_size,
            None => forall|i: int|
                from <= i < tiers.len() ==> (#[trigger] tiers[i]).free_bytes < block_size,
        },
    decreases tiers.len() - from,
{
    if from < tiers.len() {
        if tiers[from].free_bytes >= block_size {
            assert(tiers[from].tier == room_tier(tiers, block_size, from)->0);
        } else {
            room_is_for_a_full_block(tiers, block_size, from + 1);
        }
    }
}

/// Whether the worker's process reported the visible prefix of the block.
pub open spec fn holds_prefix(req: PlacementRequest, worker: WorkerPlacementView) -> bool {
    exists|i: int|
        0 <= i < req.existing@.len() && (#[trigger] req.existing@[i]).worker_id == worker.worker_id
            && Some(req.existing@[i].worker_run_id) == worker.worker_run_id
            && req.existing@[i].effective_len >= req.visible_len
}

/// Whether a worker can be chosen.
pub open spec fn is_eligible(req: PlacementRequest, worker: WorkerPlacementView) -> bool {
    &&& is_live(req, worker)
    &&& supports_format(req, worker)
    &&& match req.op {
        PlacementOp::Write => room_tier(worker.tier_free@, req.layout.block_size, 0) is Some,
        PlacementOp::Read => holds_prefix(req, worker),
    }
}

/// Whether both texts are known and the same.
pub open spec fn same_known(a: Option<Seq<char>>, b: Option<Seq<char>>) -> bool {
    a is Some && a == b
}

/// How far a worker is from the caller: the same host or address, rack, zone or region, or
/// none of these.
pub open spec fn distance(caller: Option<CallerContextFields>, worker: WorkerPlacementView) -> u8 {
    match caller {
        None => 4,
        Some(c) => if same_known(optional_text(c.host), optional_text(worker.host)) || same_known(
            optional_text(c.ip),
            optional_text(worker.ip),
        ) {
            0
        } else if same_known(optional_text(c.rack), optional_text(worker.rack)) {
            1
        } else if same_known(optional_text(c.az), optional_text(worker.az)) {
            2
        } else if same_known(optional_text(c.region), optional_text(worker.region)) {
            3
        } else {
            4
        },
    }
}

/// Whether the worker at `i` is preferred to the one at `j`: the nearer one, then the one
/// with the smaller identity, then the one listed first.
pub open spec fn is_preferred(
    req: PlacementRequest,
    workers: Seq<WorkerPlacementView>,
    i: int,
    j: int,
) -> bool {
    let a = distance(req.caller, workers[i]);
    let b = distance(req.caller, workers[j]);
    ||| a < b
    ||| a == b && workers[i].worker_id.0 < workers[j].worker_id.0
    ||| a == b && workers[i].worker_id == workers[j].worker_id && i <= j
}

/// Whether the worker at `i` is the best eligible one that is not yet taken.
pub open spec fn is_best(
    req: PlacementRequest,
    workers: Seq<WorkerPlacementView>,
    taken: Seq<int>,
    i: int,
) -> bool {
    &&& 0 <= i < workers.len()
    &&& is_eligible(req, workers[i])
    &&& !taken.contains(i)
    &&& forall|j: int|
        0 <= j < workers.len() && is_eligible(req, #[trigger] workers[j]) && !taken.contains(j)
            ==> is_preferred(req, workers, i, j)
}

/// Whether `chosen` are the best eligible workers in order of preference: each is the best
/// one besides those before it.
pub open spec fn is_selection(
    req: PlacementRequest,
    workers: Seq<WorkerPlacementView>,
    chosen: Seq<int>,
) -> bool {
    forall|k: int|
        0 <= k < chosen.len() ==> is_best(req, workers, chosen.take(k), #[trigger] chosen[k])
}

/// What a chosen worker is told as.
pub open spec fn planned_view(req: PlacementRequest, worker: WorkerPlacementView) -> PlannedWorkerView {
    PlannedWorkerView {
        worker_id: worker.worker_id,
        endpoint: worker.endpoint@,
        worker_net_protocol: worker.worker_net_protocol,
        worker_run_id: worker.worker_run_id->0,
        tier: match req.op {
            PlacementOp::Write => room_tier(worker.tier_free@, req.layout.block_size, 0),
            PlacementOp::Read => None,
        },
    }
}

/// Whether `planned` are the wanted number of best eligible workers, or all eligible ones
/// where there are fewer, in order of preference.
pub open spec fn is_plan(
    req: PlacementRequest,
    workers: Seq<WorkerPlacementView>,
    planned: Seq<PlannedWorkerView>,
) -> bool {
    exists|chosen: Seq<int>|
        #![trigger is_selection(req, workers, chosen)]
        {
            &&& is_selection(req, workers, chosen)
            &&& chosen.len() == planned.len()
            &&& planned.len() <= req.target_replicas
            &&& planned.len() < req.target_replicas ==> forall|j: int|
                0 <= j < workers.len() && is_eligible(req, #[trigger] workers[j])
                    ==> chosen.contains(j)
            &&& forall|k: int|
                0 <= k < chosen.len() ==> #[trigger] planned[k] == planned_view(
                    req,
                    workers[chosen[k]],
                )
        }
}

/// Why nothing can be chosen, or that something can.
pub open spec fn placement_status(
    req: PlacementRequest,
    workers: Seq<WorkerPlacementView>,
) -> PlacementStatus {
    let live = exists|i: int| 0 <= i < workers.len() && is_live(req, #[trigger] workers[i]);
    let formatted = exists|i: int|
        0 <= i < workers.len() && is_live(req, #[trigger] workers[i]) && supports_format(
            req,
            workers[i],
        );
    let eligible = exists|i: int|
        0 <= i < workers.len() && is_eligible(req, #[trigger] workers[i]);
    if req.op == PlacementOp::Read {
        if eligible {
            PlacementStatus::Placed
        } else {
            PlacementStatus::NoLiveReplica
        }
    } else if !live {
        PlacementStatus::NoLiveWorker
    } else if !formatted {
        PlacementStatus::UnsupportedBlockFormat
    } else if !eligible {
        PlacementStatus::NoSpace
    } else {
        PlacementStatus::Placed
    }
}

fn contains_worker(ids: &Vec<WorkerId>, id: WorkerId) -> (r: bool)
    ensures
        r == ids@.contains(id),
{
    let mut i: usize = 0;
    while i < ids.len()
        invariant
            i <= ids@.len(),
            forall|k: int| 0 <= k < i ==> #[trigger] ids@[k] != id,
        decreases ids.len() - i,
    {
        if ids[i] == id {
            assert(ids@[i as int] == id);
            return true;
        }
        i += 1;
    }
    false
}

fn contains_format(formats: &Vec<BlockFormatId>, format: BlockFormatId) -> (r: bool)
    ensures
        r == formats@.contains(format),
{
    let mut i: usize = 0;
    while i < formats.len()
        invariant
            i <= formats@.len(),
            forall|k: int| 0 <= k < i ==> #[trigger] formats@[k] != format,
        decreases formats.len() - i,
    {
        if formats[i] == format {
            assert(formats@[i as int] == format);
            return true;
        }
        i += 1;
    }
    false
}

fn find_room(tiers: &Vec<TierFree>, block_size: u32) -> (r: Option<Tier>)
    ensures
        r == room_tier(tiers@, block_size, 0),
{
    let mut i: usize = 0;
    while i < tiers.len()
        invariant
            i <= tiers@.len(),
            room_tier(tiers@, block_size, 0) == room_tier(tiers@, block_size, i as int),
        decreases tiers.len() - i,
    {
        if tiers[i].free_bytes >= block_size as u64 {
            return Some(tiers[i].tier);
        }
        i += 1;
    }
    None
}

fn same_known_text(a: &Option<String>, b: &Option<String>) -> (r: bool)
    ensures
        r == same_known(optional_text(*a), optional_text(*b)),
{
    match (a, b) {
        (Some(x), Some(y)) => *x == *y,
        _ => false,
    }
}

fn worker_distance(caller: &Option<CallerContextFields>, worker: &WorkerPlacementView) -> (r: u8)
    ensures
        r == distance(*caller, *worker),
{
    match caller {
        None => 4,
        Some(c) => if same_known_text(&c.host, &worker.host) || same_known_text(
            &c.ip,
            &worker.ip,
        ) {
            0
        } else if same_known_text(&c.rack, &worker.rack) {
            1
        } else if same_known_text(&c.az, &worker.az) {
            2
        } else if same_known_text(&c.region, &worker.region) {
            3
        } else {
            4
        },
    }
}

/// Chooses workers for blocks.
#[derive(Clone, Copy, Debug)]
pub struct PlacementPlanner;

impl PlacementPlanner {
    fn live(req: &PlacementRequest, worker: &WorkerPlacementView) -> (r: bool)
        ensures
            r == is_live(*req, *worker),
    {
        worker.group_name.same(&req.group_name) && worker.registered && worker.lease_valid
            && worker.worker_run_id.is_some() && !contains_worker(
            &req.exclude_workers,
            worker.worker_id,
        )
    }

    fn reported_prefix(req: &PlacementRequest, worker: &WorkerPlacementView) -> (r: bool)
        ensures
            r == holds_prefix(*req, *worker),
    {
        let run_id = match worker.worker_run_id {
            Some(run_id) => run_id,
            None => return false,
        };
        let mut i: usize = 0;
        while i < req.existing.len()
            invariant
                i <= req.existing@.len(),
                worker.worker_run_id == Some(run_id),
                forall|k: int|
                    0 <= k < i ==> !((#[trigger] req.existing@[k]).worker_id == worker.worker_id
                        && Some(req.existing@[k].worker_run_id) == worker.worker_run_id
                        && req.existing@[k].effective_len >= req.visible_len),
            decreases req.existing.len() - i,
        {
            let location = req.existing[i];
            if location.worker_id == worker.worker_id && location.worker_run_id == run_id
                && location.effective_len >= req.visible_len {
                assert(req.existing@[i as int].worker_id == worker.worker_id);
                return true;
            }
            i += 1;
        }
        false
    }

    fn eligible(req: &PlacementRequest, worker: &WorkerPlacementView) -> (r: bool)
        ensures
            r == is_eligible(*req, *worker),
    {
        Self::live(req, worker) && contains_format(
            &worker.supported_block_formats,
            req.layout.block_format_id,
        ) && match req.op {
            PlacementOp::Write => find_room(&worker.tier_free, req.layout.block_size).is_some(),
            PlacementOp::Read => Self::reported_prefix(req, worker),
        }
    }

    fn is_taken(taken: &Vec<usize>, i: usize) -> (r: bool)
        ensures
            r == taken@.map_values(|t: usize| t as int).contains(i as int),
    {
        let ghost ints = taken@.map_values(|t: usize| t as int);
        let mut k: usize = 0;
        while k < taken.len()
            invariant
                k <= taken@.len(),
                ints == taken@.map_values(|t: usize| t as int),
                forall|j: int| 0 <= j < k ==> #[trigger] ints[j] != i as int,
            decreases taken.len() - k,
        {
            if taken[k] == i {
                assert(ints[k as int] == i as int);
                return true;
            }
            k += 1;
        }
        false
    }

    fn best(req: &PlacementRequest, workers: &Vec<WorkerPlacementView>, taken: &Vec<usize>) -> (r:
        Option<usize>)
        ensures
            ({
                let ints = taken@.map_values(|t: usize| t as int);
                match r {
                    Some(i) => is_best(*req, workers@, ints, i as int),
                    None => forall|j: int|
                        0 <= j < workers@.len() && is_eligible(*req, #[trigger] workers@[j])
                            ==> ints.contains(j),
                }
            }),
    {
        let ghost ints = taken@.map_values(|t: usize| t as int);
        let mut found: Option<usize> = None;
        let mut i: usize = 0;
        while i < workers.len()
            invariant
                i <= workers@.len(),
                ints == taken@.map_values(|t: usize| t as int),
                match found {
                    Some(f) => {
                        &&& f < i
                        &&& is_eligible(*req, workers@[f as int])
                        &&& !ints.contains(f as int)
                        &&& forall|j: int|
                            0 <= j < i && is_eligible(*req, #[trigger] workers@[j])
                                && !ints.contains(j) ==> is_preferred(
                                *req,
                                workers@,
                                f as int,
                                j,
                            )
                    },
                    None => forall|j: int|
                        0 <= j < i && is_eligible(*req, #[trigger] workers@[j]) ==> ints.contains(
                            j,
                        ),
                },
            decreases workers.len() - i,
        {
            if Self::eligible(req, &workers[i]) && !Self::is_taken(taken, i) {
                let better = match found {
                    None => true,
                    Some(f) => {
                        let mine: u8 = worker_distance(&req.caller, &workers[i]);
                        let best: u8 = worker_distance(&req.caller, &workers[f]);
                        mine < best || (mine == best && workers[i].worker_id.0
                            < workers[f].worker_id.0)
                    },
                };
                if better {
                    found = Some(i);
                }
            }
            i += 1;
        }
        found
    }

    fn status(req: &PlacementRequest, workers: &Vec<WorkerPlacementView>) -> (r: PlacementStatus)
        ensures
            r == placement_status(*req, workers@),
    {
        let mut live = false;
        let mut formatted = false;
        let mut i: usize = 0;
        while i < workers.len()
            invariant
                i <= workers@.len(),
                live <==> exists|k: int| 0 <= k < i && is_live(*req, #[trigger] workers@[k]),
                formatted <==> exists|k: int|
                    0 <= k < i && is_live(*req, #[trigger] workers@[k]) && supports_format(
                        *req,
                        workers@[k],
                    ),
                forall|k: int| 0 <= k < i ==> !is_eligible(*req, #[trigger] workers@[k]),
            decreases workers.len() - i,
        {
            if Self::eligible(req, &workers[i]) {
                assert(is_eligible(*req, workers@[i as int]));
                assert(is_live(*req, workers@[i as int]));
                return PlacementStatus::Placed;
            }
            if Self::live(req, &workers[i]) {
                assert(is_live(*req, workers@[i as int]));
                live = true;
                if contains_format(
                    &workers[i].supported_block_formats,
                    req.layout.block_format_id,
                ) {
                    assert(supports_format(*req, workers@[i as int]));
                    formatted = true;
                }
            }
            i += 1;
        }
        match req.op {
            PlacementOp::Read => PlacementStatus::NoLiveReplica,
            PlacementOp::Write => if !live {
                PlacementStatus::NoLiveWorker
            } else if !formatted {
                PlacementStatus::UnsupportedBlockFormat
            } else {
                PlacementStatus::NoSpace
            },
        }
    }

    /// Chooses up to the wanted number of workers, the preferred ones first. Workers that
    /// are not alive, do not support the block format, have no room for a new block or do
    /// not hold the visible prefix of an existing one are never chosen.
    pub fn plan(&self, req: &PlacementRequest, workers: &Vec<WorkerPlacementView>) -> (r:
        PlacementPlan)
        ensures
            r.status == placement_status(*req, workers@),
            r.status != PlacementStatus::Placed ==> r.workers@.len() == 0,
            is_plan(*req, workers@, planned_views(r.workers@)),
    {
        let status = Self::status(req, workers);
        let mut taken: Vec<usize> = Vec::new();
        let mut planned: Vec<PlannedWorker> = Vec::new();
        let mut done = false;
        while taken.len() < req.target_replicas as usize && !done
            invariant
                taken@.len() <= req.target_replicas,
                planned@.len() == taken@.len(),
                is_selection(*req, workers@, taken@.map_values(|t: usize| t as int)),
                forall|k: int|
                    0 <= k < taken@.len() ==> taken@[k] < workers@.len() && (
                    #[trigger] planned@[k])@ == planned_view(*req, workers@[taken@[k] as int]),
                forall|k: int|
                    0 <= k < taken@.len() ==> is_eligible(
                        *req,
                        workers@[#[trigger] taken@[k] as int],
                    ),
                done ==> forall|j: int|
                    0 <= j < workers@.len() && is_eligible(*req, #[trigger] workers@[j])
                        ==> taken@.map_values(|t: usize| t as int).contains(j),
            decreases req.target_replicas - taken@.len(), !done as int,
        {
            match Self::best(req, workers, &taken) {
                None => {
                    done = true;
                },
                Some(i) => {
                    let worker = &workers[i];
                    let run_id = match worker.worker_run_id {
                        Some(run_id) => run_id,
                        None => {
                            assert(false);
                            WorkerRunId(0)
                        },
                    };
                    let tier = match req.op {
                        PlacementOp::Write => find_room(
                            &worker.tier_free,
                            req.layout.block_size,
                        ),
                        PlacementOp::Read => None,
                    };
                    let ghost before = taken@.map_values(|t: usize| t as int);
                    planned.push(
                        PlannedWorker {
                            worker_id: worker.worker_id,
                            endpoint: worker.endpoint.clone(),
                            worker_net_protocol: worker.worker_net_protocol,
                            worker_run_id: run_id,
                            tier,
                        },
                    );
                    taken.push(i);
                    proof {
                        let after = taken@.map_values(|t: usize| t as int);
                        assert(after =~= before.push(i as int));
                        assert forall|k: int| 0 <= k < after.len() implies is_best(
                            *req,
                            workers@,
                            after.take(k),
                            #[trigger] after[k],
                        ) by {
                            if k < before.len() {
                                assert(after.take(k) =~= before.take(k));
                                assert(after[k] == before[k]);
                            } else {
                                assert(after.take(k) =~= before);
                            }
                        }
                    }
                },
            }
        }
        proof {
            let chosen = taken@.map_values(|t: usize| t as int);
            assert(is_selection(*req, workers@, chosen));
            if status != PlacementStatus::Placed {
                if planned@.len() > 0 {
                    assert(planned@[0]@ == planned_view(*req, workers@[taken@[0] as int]));
                    assert(is_eligible(*req, workers@[taken@[0] as int]));
                    assert(is_live(*req, workers@[taken@[0] as int]));
                    assert(supports_format(*req, workers@[taken@[0] as int]));
                }
            }
            let views = planned_views(planned@);
            assert forall|k: int| 0 <= k < chosen.len() implies #[trigger] views[k]
                == planned_view(*req, workers@[chosen[k]]) by {
                assert(chosen[k] == taken@[k] as int);
                assert(views[k] == planned@[k]@);
            }
        }
        PlacementPlan { status, workers: planned }
    }
}

/// The order of preference is total, so the selection of a given length is unique.
pub proof fn selections_are_unique(
    req: PlacementRequest,
    workers: Seq<WorkerPlacementView>,
    a: Seq<int>,
    b: Seq<int>,
)
    requires
        is_selection(req, workers, a),
        is_selection(req, workers, b),
        a.len() == b.len(),
    ensures
        a == b,
    decreases a.len(),
{
    if a.len() == 0 {
        assert(a =~= b);
    } else {
        let n = a.len() - 1;
        let a0 = a.take(n);
        let b0 = b.take(n);
        assert forall|k: int| 0 <= k < a0.len() implies is_best(
            req,
            workers,
            a0.take(k),
            #[trigger] a0[k],
        ) by {
            assert(a0.take(k) =~= a.take(k));
            assert(a0[k] == a[k]);
        }
        assert forall|k: int| 0 <= k < b0.len() implies is_best(
            req,
            workers,
            b0.take(k),
            #[trigger] b0[k],
        ) by {
            assert(b0.take(k) =~= b.take(k));
            assert(b0[k] == b[k]);
        }
        selections_are_unique(req, workers, a0, b0);
        assert(is_best(req, workers, a0, a[n]));
        assert(is_best(req, workers, b0, b[n]));
        assert(is_preferred(req, workers, a[n], b[n]));
        assert(is_preferred(req, workers, b[n], a[n]));
        assert(a[n] == b[n]);
        assert(a =~= a0.push(a[n]));
        assert(b =~= b0.push(b[n]));
    }
}

/// The wording for a placement that chose nothing.
pub open spec fn placement_failure_text(status: PlacementStatus) -> Seq<char> {
    match status {
        PlacementStatus::Placed => "placement succeeded"@,
        PlacementStatus::NoLiveWorker => "no live worker"@,
        PlacementStatus::UnsupportedBlockFormat => "no live worker supports the block format"@,
        PlacementStatus::NoSpace => "no live worker has room for a block"@,
        PlacementStatus::NoLiveReplica => "no live replica holds the visible prefix"@,
    }
}

impl PlacementPlan {
    /// Returns the wording for a placement that chose nothing.
    pub fn failure_message(&self) -> (r: String)
        ensures
            r@ == placement_failure_text(self.status),
    {
        match self.status {
            PlacementStatus::Placed => "placement succeeded".to_owned(),
            PlacementStatus::NoLiveWorker => "no live worker".to_owned(),
            PlacementStatus::UnsupportedBlockFormat =>
                "no live worker supports the block format".to_owned(),
            PlacementStatus::NoSpace => "no live worker has room for a block".to_owned(),
            PlacementStatus::NoLiveReplica =>
                "no live replica holds the visible prefix".to_owned(),
        }
    }
}

/// A worker that was chosen is alive, belongs to the group, supports the block format, and
/// has room for a new block or holds the visible prefix of an existing one.
pub proof fn planned_workers_are_eligible(
    req: PlacementRequest,
    workers: Seq<WorkerPlacementView>,
    planned: Seq<PlannedWorkerView>,
    k: int,
)
    requires
        is_plan(req, workers, planned),
        0 <= k < planned.len(),
    ensures
        exists|i: int|
            0 <= i < workers.len() && #[trigger] is_eligible(req, workers[i]) && planned[k]
                == planned_view(req, workers[i]),
{
    let chosen = choose|chosen: Seq<int>|
        #![trigger is_selection(req, workers, chosen)]
        {
            &&& is_selection(req, workers, chosen)
            &&& chosen.len() == planned.len()
            &&& planned.len() <= req.target_replicas
            &&& planned.len() < req.target_replicas ==> forall|j: int|
                0 <= j < workers.len() && is_eligible(req, #[trigger] workers[j])
                    ==> chosen.contains(j)
            &&& forall|k: int|
                0 <= k < chosen.len() ==> #[trigger] planned[k] == planned_view(
                    req,
                    workers[chosen[k]],
                )
        };
    assert(is_best(req, workers, chosen.take(k), chosen[k]));
    assert(planned[k] == planned_view(req, workers[chosen[k]]));
    assert(is_eligible(req, workers[chosen[k]]));
}

/// Where one worker is wanted, a placement that succeeds names exactly the best one.
pub proof fn a_single_replica_is_the_best_worker(
    req: PlacementRequest,
    workers: Seq<WorkerPlacementView>,
    planned: Seq<PlannedWorkerView>,
)
    requires
        is_plan(req, workers, planned),
        req.target_replicas == 1,
        placement_status(req, workers) == PlacementStatus::Placed,
    ensures
        planned.len() == 1,
        exists|i: int|
            #[trigger] is_best(req, workers, Seq::empty(), i) && planned[0] == planned_view(
                req,
                workers[i],
            ),
{
    let chosen = choose|chosen: Seq<int>|
        #![trigger is_selection(req, workers, chosen)]
        {
            &&& is_selection(req, workers, chosen)
            &&& chosen.len() == planned.len()
            &&& planned.len() <= req.target_replicas
            &&& planned.len() < req.target_replicas ==> forall|j: int|
                0 <= j < workers.len() && is_eligible(req, #[trigger] workers[j])
                    ==> chosen.contains(j)
            &&& forall|k: int|
                0 <= k < chosen.len() ==> #[trigger] planned[k] == planned_view(
                    req,
                    workers[chosen[k]],
                )
        };
    let eligible = choose|i: int|
        0 <= i < workers.len() && is_eligible(req, #[trigger] workers[i]);
    if planned.len() == 0 {
        assert(is_eligible(req, workers[eligible]));
        assert(chosen.contains(eligible));
    }
    assert(chosen.take(0) =~= Seq::empty());
    assert(is_best(req, workers, chosen.take(0), chosen[0]));
    assert(planned[0] == planned_view(req, workers[chosen[0]]));
}

} // verus!
