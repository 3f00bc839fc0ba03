//! Worker identities, endpoints and storage tiers.

use vstd::prelude::*;

use crate::ids::WorkerId;
use crate::outside_uuid::{format_uuid, hyphenated_text, parse_uuid, uuid_parse};
use crate::text::join;

verus! {

/// Largest number of entries that one block report batch may hold.
pub const MAX_REPORT_ENTRIES: usize = 4096;

/// Storage tier of a worker.
#[derive(Clone, Copy, Debug, PartialEq, Eq, Hash, Structural)]
pub enum Tier {
    Mem,
    Nvme,
    Ssd,
    Hdd,
}

/// Free space that a worker reports for one tier.
#[derive(Clone, Copy, Debug, PartialEq, Eq, Hash, Structural)]
pub struct TierFree {
    pub tier: Tier,
    pub free_bytes: u64,
}

/// State of a block that a worker reports.
#[derive(Clone, Copy, Debug, PartialEq, Eq, Hash, Structural)]
pub enum BlockReportBlockState {
    Ready,
    Corrupt,
    Deleting,
}

impl BlockReportBlockState {
    /// The name of the state, as diagnostics print it.
    pub open spec fn text(self) -> Seq<char> {
        match self {
            BlockReportBlockState::Ready => "Ready"@,
            BlockReportBlockState::Corrupt => "Corrupt"@,
            BlockReportBlockState::Deleting => "Deleting"@,
        }
    }

    /// Returns the name of the state, as diagnostics print it.
    pub fn name(self) -> (r: &'static str)
        ensures
            r@ == self.text(),
    {
        match self {
            BlockReportBlockState::Ready => "Ready",
            BlockReportBlockState::Corrupt => "Corrupt",
            BlockReportBlockState::Deleting => "Deleting",
        }
    }
}

/// Protocol that a worker speaks with clients.
#[derive(Clone, Copy, Debug, PartialEq, Eq, Hash, Structural)]
pub enum WorkerNetProtocol {
    Grpc,
}

/// Identity of one start of a worker process: the number of a UUID.
#[derive(Clone, Copy, Debug, PartialEq, Eq, Hash, Structural)]
pub struct WorkerRunId(pub u128);

impl WorkerRunId {
    /// What a parsed UUID, or the wording of the parse error, says as a run identity.
    pub open spec fn parsed_spec(parsed: Result<u128, Seq<char>>) -> Result<
        WorkerRunId,
        Seq<char>,
    > {
        match parsed {
            Err(e) => Err("invalid worker_run_id: "@ + e),
            Ok(value) => if value == 0 {
                Err("worker_run_id must be non-zero"@)
            } else {
                Ok(WorkerRunId(value))
            },
        }
    }

    /// Turns a parsed UUID, or the wording of the parse error, into a run identity.
    pub fn from_parsed(parsed: Result<u128, String>) -> (r: Result<Self, String>)
        ensures
            ({
                let outcome = match parsed {
                    Ok(value) => Ok::<u128, Seq<char>>(value),
                    Err(e) => Err::<u128, Seq<char>>(e@),
                };
                match r {
                    Ok(id) => Self::parsed_spec(outcome) == Ok::<WorkerRunId, Seq<char>>(id),
                    Err(e) => Self::parsed_spec(outcome) == Err::<WorkerRunId, Seq<char>>(e@),
                }
            }),
    {
        match parsed {
            Err(e) => Err(join("invalid worker_run_id: ", e.as_str())),
            Ok(value) => if value == 0 {
                Err("worker_run_id must be non-zero".to_owned())
            } else {
                Ok(Self(value))
            },
        }
    }

    /// Reads a non-zero run identity from its UUID text.
    pub fn parse(value: &str) -> (r: Result<Self, String>)
        ensures
            match r {
                Ok(id) => Self::parsed_spec(uuid_parse(value@)) == Ok::<WorkerRunId, Seq<char>>(
                    id,
                ),
                Err(e) => Self::parsed_spec(uuid_parse(value@)) == Err::<WorkerRunId, Seq<char>>(
                    e@,
                ),
            },
    {
        Self::from_parsed(parse_uuid(value))
    }

    /// Returns the hyphenated text of the identity, which reads back as the identity.
    pub fn to_text(&self) -> (r: String)
        ensures
            r@ == hyphenated_text(self.0),
            uuid_parse(r@) == Ok::<u128, Seq<char>>(self.0),
    {
        format_uuid(self.0)
    }

    /// Returns whether both identities name the same process start.
    pub fn matches(self, other: WorkerRunId) -> (r: bool)
        ensures
            r == (self == other),
    {
        self.0 == other.0
    }
}

/// Where a worker process can be reached, and which process start that was.
#[derive(Debug, PartialEq, Eq)]
pub struct WorkerEndpointInfo {
    pub worker_id: WorkerId,
    pub endpoint: String,
    pub worker_net_protocol: WorkerNetProtocol,
    pub worker_run_id: WorkerRunId,
}

/// The value of a `WorkerEndpointInfo`.
pub struct WorkerEndpointInfoView {
    pub worker_id: WorkerId,
    pub endpoint: Seq<char>,
    pub worker_net_protocol: WorkerNetProtocol,
    pub worker_run_id: WorkerRunId,
}

impl View for WorkerEndpointInfo {
    type V = WorkerEndpointInfoView;

    open spec fn view(&self) -> WorkerEndpointInfoView {
        WorkerEndpointInfoView {
            worker_id: self.worker_id,
            endpoint: self.endpoint@,
            worker_net_protocol: self.worker_net_protocol,
            worker_run_id: self.worker_run_id,
        }
    }
}

impl Clone for WorkerEndpointInfo {
    fn clone(&self) -> (r: Self)
        ensures
            r@ == self@,
    {
        WorkerEndpointInfo {
            worker_id: self.worker_id,
            endpoint: self.endpoint.clone(),
            worker_net_protocol: self.worker_net_protocol,
            worker_run_id: self.worker_run_id,
        }
    }
}

/// The values of a sequence of endpoints.
pub open spec fn endpoint_views(endpoints: Seq<WorkerEndpointInfo>) -> Seq<WorkerEndpointInfoView> {
    endpoints.map_values(|e: WorkerEndpointInfo| e@)
}

/// Returns a copy of the endpoints.
pub fn copy_endpoints(endpoints: &Vec<WorkerEndpointInfo>) -> (r: Vec<WorkerEndpointInfo>)
    ensures
        endpoint_views(r@) == endpoint_views(endpoints@),
{
    let mut out: Vec<WorkerEndpointInfo> = Vec::new();
    let mut i: usize = 0;
    while i < endpoints.len()
        invariant
            i <= endpoints@.len(),
            out@.len() == i,
            forall|k: int| 0 <= k < i ==> #[trigger] out@[k]@ == endpoints@[k]@,
        decreases endpoints.len() - i,
    {
        out.push(endpoints[i].clone());
        i += 1;
    }
    assert(endpoint_views(out@) =~= endpoint_views(endpoints@));
    out
}

} // verus!
