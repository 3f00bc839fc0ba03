//! Applied progress of the state machine of each metadata Raft group.

use std::cmp::Ordering;
use vstd::prelude::*;

use crate::ids::GroupName;

verus! {

/// Identity of one applied Raft log entry, ordered by term, then leader, then index.
#[derive(Clone, Copy, Debug, PartialEq, Eq, Hash, Structural)]
pub struct RaftLogId {
    pub term: u64,
    pub leader_node_id: u64,
    pub index: u64,
}

impl RaftLogId {
    /// Creates a log identity.
    pub fn new(term: u64, leader_node_id: u64, index: u64) -> (r: Self)
        ensures
            r == (RaftLogId { term, leader_node_id, index }),
    {
        Self { term, leader_node_id, index }
    }

    /// Whether this entry comes before `other`.
    pub open spec fn is_before(self, other: RaftLogId) -> bool {
        ||| self.term < other.term
        ||| self.term == other.term && self.leader_node_id < other.leader_node_id
        ||| self.term == other.term && self.leader_node_id == other.leader_node_id && self.index
            < other.index
    }

    /// Returns whether an applied state with this identity includes `required`.
    pub fn has_reached(&self, required: &RaftLogId) -> (r: bool)
        ensures
            r == !self.is_before(*required),
    {
        if self.term != required.term {
            self.term > required.term
        } else if self.leader_node_id != required.leader_node_id {
            self.leader_node_id > required.leader_node_id
        } else {
            self.index >= required.index
        }
    }

    /// Returns the order of the two entries.
    pub fn order(&self, other: &RaftLogId) -> (r: Ordering)
        ensures
            r == Ordering::Less <==> self.is_before(*other),
            r == Ordering::Greater <==> other.is_before(*self),
            r == Ordering::Equal <==> *self == *other,
    {
        if self.has_reached(other) {
            if other.has_reached(self) {
                Ordering::Equal
            } else {
                Ordering::Greater
            }
        } else {
            Ordering::Less
        }
    }
}

/// Log identities are totally ordered: the order is transitive, and of two different
/// identities exactly one comes before the other.
pub proof fn log_order_is_total(a: RaftLogId, b: RaftLogId, c: RaftLogId)
    ensures
        a.is_before(b) && b.is_before(c) ==> a.is_before(c),
        !(a.is_before(b) && b.is_before(a)),
        a == b || a.is_before(b) || b.is_before(a),
        !a.is_before(a),
{
}

/// Applied state that a caller requires of one metadata Raft group.
#[derive(Debug)]
pub struct GroupStateWatermark {
    /// Group that this watermark applies to.
    pub group_name: GroupName,
    /// Applied log identity that must be reached.
    pub state_id: RaftLogId,
}

/// The value of a `GroupStateWatermark`.
pub struct GroupStateWatermarkView {
    pub group_name: Seq<char>,
    pub state_id: RaftLogId,
}

impl View for GroupStateWatermark {
    type V = GroupStateWatermarkView;

    open spec fn view(&self) -> GroupStateWatermarkView {
        GroupStateWatermarkView { group_name: self.group_name@, state_id: self.state_id }
    }
}

impl Clone for GroupStateWatermark {
    fn clone(&self) -> (r: Self)
        ensures
            r@ == self@,
    {
        GroupStateWatermark { group_name: self.group_name.clone(), state_id: self.state_id }
    }
}

/// The values of a sequence of watermarks.
pub open spec fn watermark_views(marks: Seq<GroupStateWatermark>) -> Seq<GroupStateWatermarkView> {
    marks.map_values(|m: GroupStateWatermark| m@)
}

/// Returns a copy of the watermarks.
pub fn copy_watermarks(marks: &Vec<GroupStateWatermark>) -> (r: Vec<GroupStateWatermark>)
    ensures
        watermark_views(r@) == watermark_views(marks@),
{
    let mut out: Vec<GroupStateWatermark> = Vec::new();
    let mut i: usize = 0;
    while i < marks.len()
        invariant
            i <= marks@.len(),
            out@.len() == i,
            forall|k: int| 0 <= k < i ==> #[trigger] out@[k]@ == marks@[k]@,
        decreases marks.len() - i,
    {
        out.push(marks[i].clone());
        i += 1;
    }
    assert(watermark_views(out@) =~= watermark_views(marks@));
    out
}

impl GroupStateWatermark {
    /// Creates a watermark.
    pub fn new(group_name: GroupName, state_id: RaftLogId) -> (r: Self)
        ensures
            r@ == (GroupStateWatermarkView { group_name: group_name@, state_id }),
    {
        Self { group_name, state_id }
    }

    /// Returns whether the applied state has reached this watermark.
    pub fn is_reached(&self, applied_state_id: &RaftLogId) -> (r: bool)
        ensures
            r == !applied_state_id.is_before(self.state_id),
    {
        applied_state_id.has_reached(&self.state_id)
    }

    /// Returns the order of two watermarks of the same group, or `None` where the groups
    /// differ.
    pub fn cmp_same_group(&self, other: &Self) -> (r: Option<Ordering>)
        ensures
            r is Some <==> self.group_name@ == other.group_name@,
            r == Some(Ordering::Less) <==> self.group_name@ == other.group_name@
                && self.state_id.is_before(other.state_id),
            r == Some(Ordering::Greater) <==> self.group_name@ == other.group_name@
                && other.state_id.is_before(self.state_id),
            r == Some(Ordering::Equal) <==> self@ == other@,
    {
        if !self.group_name.same(&other.group_name) {
            return None;
        }
        Some(self.state_id.order(&other.state_id))
    }
}

/// A watermark that is reached stays reached as the applied state advances, and it
/// implies every earlier watermark of its group.
pub proof fn reached_watermarks_are_downward_closed(
    earlier: RaftLogId,
    later: RaftLogId,
    applied: RaftLogId,
    advanced: RaftLogId,
)
    requires
        !later.is_before(earlier),
        !advanced.is_before(applied),
        !applied.is_before(later),
    ensures
        !applied.is_before(earlier),
        !advanced.is_before(later),
{
}

/// Configuration version of a mount, for route consistency checks.
#[derive(Clone, Copy, Debug, PartialEq, Eq, Hash, Structural)]
pub struct MountEpoch(pub u64);

impl MountEpoch {
    /// Creates a mount epoch.
    pub fn new(epoch: u64) -> (r: Self)
        ensures
            r.0 == epoch,
    {
        Self(epoch)
    }

    /// Returns the epoch value.
    pub fn as_u64(&self) -> (r: u64)
        ensures
            r == self.0,
    {
        self.0
    }
}

impl Default for MountEpoch {
    fn default() -> (r: Self)
        ensures
            r.0 == 0,
    {
        Self(0)
    }
}

} // verus!
