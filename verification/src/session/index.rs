//! The indexes that the session registry keeps beside its primary tables.

use std::collections::BTreeMap;
use std::collections::BTreeSet;
use std::collections::HashMap;
use vstd::prelude::*;

use crate::ids::{CallId, ClientId, InodeId, MountId};

verus! {

broadcast use {
    vstd::std_specs::hash::group_hash_axioms,
    vstd::std_specs::btree::group_btree_axioms,
    vstd::laws_cmp::group_laws_cmp,
};

/// Stable identity of one replayable create operation.
#[derive(Clone, Copy, Debug, PartialEq, Eq, Hash, Structural)]
pub struct CreateFileOperationId {
    pub client_id: ClientId,
    pub call_id: CallId,
}

/// Whether `a` comes before `b` or is `b`, in the order of pairs.
pub open spec fn pair_le(a: (u64, u64), b: (u64, u64)) -> bool {
    a.0 < b.0 || (a.0 == b.0 && a.1 <= b.1)
}

/// A set of expiry times, each with the identity that expires then.
pub struct ExpirySet {
    pairs: BTreeSet<(u64, u64)>,
}

impl View for ExpirySet {
    type V = Set<(u64, u64)>;

    closed spec fn view(&self) -> Set<(u64, u64)> {
        self.pairs@
    }
}

/// `BTreeSet::first`: the smallest pair of the set, or `None` where the set is empty.
#[verifier::external_body]
fn first_pair(pairs: &BTreeSet<(u64, u64)>) -> (r: Option<(u64, u64)>)
    ensures
        r is None <==> pairs@ == Set::<(u64, u64)>::empty(),
        r is Some ==> pairs@.contains(r->0),
        r is Some ==> forall|p: (u64, u64)| pairs@.contains(p) ==> #[trigger] pair_le(r->0, p),
{
    pairs.first().copied()
}

/// `BTreeMap::last_key_value`: the largest key of the map, or `None` where the map is
/// empty.
#[verifier::external_body]
fn last_key(counts: &BTreeMap<u64, usize>) -> (r: Option<u64>)
    ensures
        r is None <==> counts@.dom() == Set::<u64>::empty(),
        r is Some ==> counts@.contains_key(r->0),
        r is Some ==> forall|k: u64| #[trigger] counts@.contains_key(k) ==> k <= r->0,
{
    counts.last_key_value().map(|pair| *pair.0)
}

impl ExpirySet {
    /// Creates an empty set.
    pub fn new() -> (r: Self)
        ensures
            r@ == Set::<(u64, u64)>::empty(),
    {
        ExpirySet { pairs: BTreeSet::new() }
    }

    /// Adds a pair.
    pub fn insert(&mut self, expires_at_ms: u64, id: u64)
        ensures
            final(self)@ == old(self)@.insert((expires_at_ms, id)),
    {
        self.pairs.insert((expires_at_ms, id));
    }

    /// Takes a pair out.
    pub fn remove(&mut self, expires_at_ms: u64, id: u64)
        ensures
            final(self)@ == old(self)@.remove((expires_at_ms, id)),
    {
        let pair: (u64, u64) = (expires_at_ms, id);
        self.pairs.remove(&pair);
    }

    /// Returns the pair that expires first, the smaller identity first among equals.
    pub fn first(&self) -> (r: Option<(u64, u64)>)
        ensures
            r is None <==> self@ == Set::<(u64, u64)>::empty(),
            r is Some ==> self@.contains(r->0),
            r is Some ==> forall|p: (u64, u64)| self@.contains(p) ==> #[trigger] pair_le(r->0, p),
    {
        first_pair(&self.pairs)
    }

    /// Returns the number of pairs.
    pub fn len(&self) -> (r: usize)
        ensures
            r == self@.len(),
    {
        self.pairs.len()
    }
}

/// A multiset of expiry times: how often each occurs.
pub struct ExpiryCounts {
    counts: BTreeMap<u64, usize>,
}

impl ExpiryCounts {
    spec fn ok(&self) -> bool {
        forall|e: u64| #[trigger] self.counts@.contains_key(e) ==> self.counts@[e] > 0
    }

    /// How often `expires_at_ms` occurs.
    spec fn count(&self, expires_at_ms: u64) -> nat {
        if self.counts@.contains_key(expires_at_ms) {
            self.counts@[expires_at_ms] as nat
        } else {
            0
        }
    }
}

/// For each inode, the expiry times of the write sessions whose path holds it.
pub struct AncestorActivity {
    by_inode: HashMap<u64, ExpiryCounts>,
}

impl AncestorActivity {
    /// Every inode that is listed has an expiry time, and every one that is listed occurs.
    pub closed spec fn ok(&self) -> bool {
        forall|i: u64| #[trigger]
            self.by_inode@.contains_key(i) ==> {
                &&& self.by_inode@[i].ok()
                &&& self.by_inode@[i].counts@ != Map::<u64, usize>::empty()
            }
    }

    /// How many sessions below `inode` expire at `expires_at_ms`.
    pub closed spec fn count(&self, inode: u64, expires_at_ms: u64) -> nat {
        if self.by_inode@.contains_key(inode) {
            self.by_inode@[inode].count(expires_at_ms)
        } else {
            0
        }
    }

    /// Creates an empty index.
    pub fn new() -> (r: Self)
        ensures
            r.ok(),
            forall|i: u64, e: u64| #[trigger] r.count(i, e) == 0,
    {
        AncestorActivity { by_inode: HashMap::new() }
    }

    /// Adds one session below `inode`.
    pub fn add(&mut self, inode: u64, expires_at_ms: u64)
        requires
            old(self).ok(),
            old(self).count(inode, expires_at_ms) < usize::MAX,
        ensures
            final(self).ok(),
            forall|i: u64, e: u64| #[trigger]
                final(self).count(i, e) == old(self).count(i, e) + if i == inode && e
                    == expires_at_ms {
                    1nat
                } else {
                    0nat
                },
    {
        let mut counts = match self.by_inode.remove(&inode) {
            Some(activity) => activity.counts,
            None => BTreeMap::new(),
        };
        let count: usize = match counts.get(&expires_at_ms) {
            Some(count) => *count,
            None => 0,
        };
        counts.insert(expires_at_ms, count + 1);
        proof {
            assert(counts@.contains_key(expires_at_ms));
        }
        self.by_inode.insert(inode, ExpiryCounts { counts });
    }

    /// Takes one session below `inode` out. An inode without sessions is not listed.
    pub fn take(&mut self, inode: u64, expires_at_ms: u64)
        requires
            old(self).ok(),
            old(self).count(inode, expires_at_ms) > 0,
        ensures
            final(self).ok(),
            forall|i: u64, e: u64| #[trigger]
                final(self).count(i, e) == old(self).count(i, e) - if i == inode && e
                    == expires_at_ms {
                    1int
                } else {
                    0int
                },
    {
        let mut counts = match self.by_inode.remove(&inode) {
            Some(activity) => activity.counts,
            None => BTreeMap::new(),
        };
        let count: usize = match counts.get(&expires_at_ms) {
            Some(count) => *count,
            None => 1,
        };
        if count == 1 {
            counts.remove(&expires_at_ms);
        } else {
            counts.insert(expires_at_ms, count - 1);
        }
        if !counts.is_empty() {
            self.by_inode.insert(inode, ExpiryCounts { counts });
        } else {
            assert(counts@.dom() =~= Set::empty());
        }
    }

    /// Adds one session below each inode of a path.
    pub fn add_path(&mut self, path: &Vec<InodeId>, expires_at_ms: u64)
        requires
            old(self).ok(),
            path@.no_duplicates(),
            forall|i: u64| path@.contains(InodeId(i)) ==> #[trigger] old(self).count(
                i,
                expires_at_ms,
            ) < usize::MAX,
        ensures
            final(self).ok(),
            forall|i: u64, e: u64| #[trigger]
                final(self).count(i, e) == old(self).count(i, e) + if path@.contains(InodeId(i))
                    && e == expires_at_ms {
                    1nat
                } else {
                    0nat
                },
    {
        let ghost before = *self;
        let mut k: usize = 0;
        while k < path.len()
            invariant
                k <= path@.len(),
                self.ok(),
                path@.no_duplicates(),
                forall|i: u64| path@.contains(InodeId(i)) ==> #[trigger] before.count(
                    i,
                    expires_at_ms,
                ) < usize::MAX,
                forall|i: u64, e: u64| #[trigger]
                    self.count(i, e) == before.count(i, e) + if path@.take(k as int).contains(
                        InodeId(i),
                    ) && e == expires_at_ms {
                        1nat
                    } else {
                        0nat
                    },
            decreases path.len() - k,
        {
            let ghost prefix = path@.take(k as int);
            let ghost longer = path@.take(k as int + 1);
            proof {
                assert(longer =~= prefix.push(path@[k as int]));
                if prefix.contains(path@[k as int]) {
                    let j = choose|j: int| 0 <= j < prefix.len() && prefix[j] == path@[k as int];
                    assert(path@[j] == path@[k as int]);
                }
                assert(path@.contains(InodeId(path@[k as int].0)));
                assert forall|i: u64| #[trigger] longer.contains(InodeId(i)) <==> prefix.contains(
                    InodeId(i),
                ) || i == path@[k as int].0 by {
                    if prefix.contains(InodeId(i)) {
                        let j = choose|j: int| 0 <= j < prefix.len() && prefix[j] == InodeId(i);
                        assert(longer[j] == InodeId(i));
                    }
                    if i == path@[k as int].0 {
                        assert(longer[k as int] == InodeId(i));
                    }
                }
            }
            self.add(path[k].0, expires_at_ms);
            k += 1;
        }
        assert(path@.take(k as int) =~= path@);
    }

    /// Takes one session below each inode of a path out.
    pub fn take_path(&mut self, path: &Vec<InodeId>, expires_at_ms: u64)
        requires
            old(self).ok(),
            path@.no_duplicates(),
            forall|i: u64| path@.contains(InodeId(i)) ==> #[trigger] old(self).count(
                i,
                expires_at_ms,
            ) > 0,
        ensures
            final(self).ok(),
            forall|i: u64, e: u64| #[trigger]
                final(self).count(i, e) == old(self).count(i, e) - if path@.contains(InodeId(i))
                    && e == expires_at_ms {
                    1int
                } else {
                    0int
                },
    {
        let ghost before = *self;
        let mut k: usize = 0;
        while k < path.len()
            invariant
                k <= path@.len(),
                self.ok(),
                path@.no_duplicates(),
                forall|i: u64| path@.contains(InodeId(i)) ==> #[trigger] before.count(
                    i,
                    expires_at_ms,
                ) > 0,
                forall|i: u64, e: u64| #[trigger]
                    self.count(i, e) == before.count(i, e) - if path@.take(k as int).contains(
                        InodeId(i),
                    ) && e == expires_at_ms {
                        1int
                    } else {
                        0int
                    },
            decreases path.len() - k,
        {
            let ghost prefix = path@.take(k as int);
            let ghost longer = path@.take(k as int + 1);
            proof {
                assert(longer =~= prefix.push(path@[k as int]));
                if prefix.contains(path@[k as int]) {
                    let j = choose|j: int| 0 <= j < prefix.len() && prefix[j] == path@[k as int];
                    assert(path@[j] == path@[k as int]);
                }
                assert(path@.contains(InodeId(path@[k as int].0)));
                assert forall|i: u64| #[trigger] longer.contains(InodeId(i)) <==> prefix.contains(
                    InodeId(i),
                ) || i == path@[k as int].0 by {
                    if prefix.contains(InodeId(i)) {
                        let j = choose|j: int| 0 <= j < prefix.len() && prefix[j] == InodeId(i);
                        assert(longer[j] == InodeId(i));
                    }
                    if i == path@[k as int].0 {
                        assert(longer[k as int] == InodeId(i));
                    }
                }
            }
            self.take(path[k].0, expires_at_ms);
            k += 1;
        }
        assert(path@.take(k as int) =~= path@);
    }

    /// Returns the latest expiry time of the sessions below `inode`, if there are any.
    pub fn latest(&self, inode: u64) -> (r: Option<u64>)
        requires
            self.ok(),
        ensures
            r is None <==> (forall|e: u64| #[trigger] self.count(inode, e) == 0),
            r is Some ==> self.count(inode, r->0) > 0,
            r is Some ==> forall|e: u64| #[trigger] self.count(inode, e) > 0 ==> e <= r->0,
    {
        match self.by_inode.get(&inode) {
            Some(activity) => {
                let last = last_key(&activity.counts);
                proof {
                    if last is Some {
                        assert(self.count(inode, last->0) > 0);
                    }
                    assert forall|e: u64| #[trigger] self.count(inode, e) > 0 implies last is Some
                        && e <= last->0 by {
                        assert(activity.counts@.contains_key(e));
                    }
                }
                last
            },
            None => None,
        }
    }

    /// The inodes with sessions below them.
    pub open spec fn listed(&self) -> Set<u64> {
        Set::new(|i: u64| exists|e: u64| #[trigger] self.count(i, e) > 0)
    }

    /// Returns the number of inodes that are listed: those with sessions below them.
    pub fn len(&self) -> (r: usize)
        ensures
            self.ok() ==> self.listed().finite() && r == self.listed().len(),
            r == 0 ==> forall|i: u64, e: u64| #[trigger] self.count(i, e) == 0,
    {
        proof {
            if self.by_inode@.len() == 0 {
                assert(self.by_inode@.dom() =~= Set::empty());
            }
            if self.ok() {
                assert forall|i: u64| #[trigger]
                    self.by_inode@.dom().contains(i) <==> self.listed().contains(i) by {
                    if self.by_inode@.contains_key(i) {
                        let counts = self.by_inode@[i].counts@;
                        if forall|e: u64| !#[trigger] counts.contains_key(e) {
                            assert(counts =~= Map::empty());
                        }
                        let e = choose|e: u64| #[trigger] counts.contains_key(e);
                        assert(self.count(i, e) > 0);
                    }
                }
                assert(self.listed() =~= self.by_inode@.dom());
            }
        }
        self.by_inode.len()
    }
}

/// How many sessions each client holds.
pub struct ClientOccupancy {
    counts: HashMap<u128, usize>,
}

impl ClientOccupancy {
    /// Every client that is listed holds a session.
    pub closed spec fn ok(&self) -> bool {
        forall|c: u128| #[trigger] self.counts@.contains_key(c) ==> self.counts@[c] > 0
    }

    /// How many sessions `client` holds.
    pub closed spec fn count(&self, client: ClientId) -> nat {
        if self.counts@.contains_key(client.0) {
            self.counts@[client.0] as nat
        } else {
            0
        }
    }

    /// Creates an empty index.
    pub fn new() -> (r: Self)
        ensures
            r.ok(),
            forall|c: ClientId| #[trigger] r.count(c) == 0,
    {
        ClientOccupancy { counts: HashMap::new() }
    }

    /// Returns how many sessions `client` holds.
    pub fn get(&self, client: ClientId) -> (r: usize)
        ensures
            r == self.count(client),
    {
        match self.counts.get(&client.0) {
            Some(count) => *count,
            None => 0,
        }
    }

    /// Adds one session of `client`.
    pub fn add(&mut self, client: ClientId)
        requires
            old(self).ok(),
            old(self).count(client) < usize::MAX,
        ensures
            final(self).ok(),
            forall|c: ClientId| #[trigger]
                final(self).count(c) == old(self).count(c) + if c == client {
                    1nat
                } else {
                    0nat
                },
    {
        let count: usize = self.get(client);
        self.counts.insert(client.0, count + 1);
    }

    /// Takes one session of `client` out. A client without sessions is not listed.
    pub fn take(&mut self, client: ClientId)
        requires
            old(self).ok(),
            old(self).count(client) > 0,
        ensures
            final(self).ok(),
            forall|c: ClientId| #[trigger]
                final(self).count(c) == old(self).count(c) - if c == client {
                    1int
                } else {
                    0int
                },
    {
        let count: usize = self.get(client);
        if count == 1 {
            self.counts.remove(&client.0);
        } else {
            self.counts.insert(client.0, count - 1);
        }
    }
}

/// A map from create operations to values.
#[verifier::reject_recursive_types(V)]
pub struct OperationMap<V> {
    by_client: HashMap<u128, HashMap<u128, V>>,
    count: usize,
    contents: Ghost<Map<CreateFileOperationId, V>>,
}

impl<V> View for OperationMap<V> {
    type V = Map<CreateFileOperationId, V>;

    closed spec fn view(&self) -> Map<CreateFileOperationId, V> {
        self.contents@
    }
}

impl<V> OperationMap<V> {
    /// The nested tables hold what the map holds.
    pub closed spec fn ok(&self) -> bool {
        &&& self.contents@.dom().finite()
        &&& self.count == self.contents@.dom().len()
        &&& forall|op: CreateFileOperationId| #[trigger]
            self.contents@.contains_key(op) <==> self.by_client@.contains_key(op.client_id.0)
                && self.by_client@[op.client_id.0]@.contains_key(op.call_id.0)
        &&& forall|op: CreateFileOperationId| #[trigger]
            self.contents@.contains_key(op) ==> self.contents@[op]
                == self.by_client@[op.client_id.0]@[op.call_id.0]
    }

    pub proof fn lemma_finite(&self)
        requires
            self.ok(),
        ensures
            self@.dom().finite(),
    {
    }

    /// Creates an empty map.
    pub fn new() -> (r: Self)
        ensures
            r.ok(),
            r@ == Map::<CreateFileOperationId, V>::empty(),
    {
        OperationMap { by_client: HashMap::new(), count: 0, contents: Ghost(Map::empty()) }
    }

    /// Returns the number of operations.
    pub fn len(&self) -> (r: usize)
        requires
            self.ok(),
        ensures
            r == self@.dom().len(),
            self@.dom().finite(),
    {
        self.count
    }

    /// Returns the value of an operation.
    pub fn get(&self, op: CreateFileOperationId) -> (r: Option<&V>)
        requires
            self.ok(),
        ensures
            r is Some <==> self@.contains_key(op),
            r is Some ==> *r->0 == self@[op],
    {
        match self.by_client.get(&op.client_id.0) {
            Some(calls) => calls.get(&op.call_id.0),
            None => None,
        }
    }

    /// Adds an operation.
    pub fn insert(&mut self, op: CreateFileOperationId, value: V)
        requires
            old(self).ok(),
            !old(self)@.contains_key(op),
            old(self)@.dom().len() < usize::MAX,
        ensures
            final(self).ok(),
            final(self)@ == old(self)@.insert(op, value),
    {
        let ghost before = *self;
        let mut calls = match self.by_client.remove(&op.client_id.0) {
            Some(calls) => calls,
            None => HashMap::new(),
        };
        calls.insert(op.call_id.0, value);
        self.by_client.insert(op.client_id.0, calls);
        self.count = self.count + 1;
        self.contents = Ghost(self.contents@.insert(op, value));
        proof {
            assert forall|o: CreateFileOperationId| #[trigger]
                self.contents@.contains_key(o) <==> self.by_client@.contains_key(o.client_id.0)
                    && self.by_client@[o.client_id.0]@.contains_key(o.call_id.0) by {
                assert(before.contents@.contains_key(o) <==> before.by_client@.contains_key(
                    o.client_id.0,
                ) && before.by_client@[o.client_id.0]@.contains_key(o.call_id.0));
            }
        }
    }

    /// Takes an operation out.
    pub fn remove(&mut self, op: CreateFileOperationId) -> (r: Option<V>)
        requires
            old(self).ok(),
        ensures
            final(self).ok(),
            final(self)@ == old(self)@.remove(op),
            r is Some <==> old(self)@.contains_key(op),
            r is Some ==> r->0 == old(self)@[op],
    {
        let ghost before = *self;
        match self.by_client.remove(&op.client_id.0) {
            None => {
                assert(!before.contents@.contains_key(op));
                assert(before.contents@.remove(op) =~= before.contents@);
                assert(self.by_client@ =~= before.by_client@);
                None
            },
            Some(calls) => {
                let mut calls = calls;
                let removed = calls.remove(&op.call_id.0);
                if !calls.is_empty() {
                    self.by_client.insert(op.client_id.0, calls);
                } else {
                    assert(calls@.dom() =~= Set::empty());
                }
                if removed.is_some() {
                    proof {
                        assert(before.contents@.contains_key(op));
                        assert(before.contents@.dom().contains(op));
                    }
                    self.count = self.count - 1;
                } else {
                    assert(!before.contents@.contains_key(op));
                    assert(before.contents@.remove(op) =~= before.contents@);
                }
                self.contents = Ghost(self.contents@.remove(op));
                proof {
                    assert forall|o: CreateFileOperationId| #[trigger]
                        self.contents@.contains_key(o) <==> self.by_client@.contains_key(
                            o.client_id.0,
                        ) && self.by_client@[o.client_id.0]@.contains_key(o.call_id.0) by {
                        assert(before.contents@.contains_key(o) <==> before.by_client@.contains_key(
                            o.client_id.0,
                        ) && before.by_client@[o.client_id.0]@.contains_key(o.call_id.0));
                        if o.client_id == op.client_id && o.call_id == op.call_id {
                            assert(o == op);
                        }
                    }
                }
                removed
            },
        }
    }
}

/// One path of the path index.
struct PathEntry {
    mount_id: MountId,
    path: String,
    operation_id: CreateFileOperationId,
}

/// The paths that pending creates hold, each with the operation that holds it.
pub struct PathIndex {
    entries: Vec<PathEntry>,
}

impl PathIndex {
    spec fn lists(&self, i: int, mount: MountId, path: Seq<char>) -> bool {
        0 <= i < self.entries@.len() && self.entries@[i].mount_id == mount
            && self.entries@[i].path@ == path
    }

    /// No path is listed twice.
    pub closed spec fn ok(&self) -> bool {
        forall|i: int, j: int|
            0 <= i < j < self.entries@.len() ==> !((#[trigger] self.entries@[i]).mount_id == (
            #[trigger] self.entries@[j]).mount_id && self.entries@[i].path@
                == self.entries@[j].path@)
    }

    /// The operation that holds the path, if one does.
    pub closed spec fn holder(&self, mount: MountId, path: Seq<char>) -> Option<
        CreateFileOperationId,
    > {
        if exists|i: int| self.lists(i, mount, path) {
            Some(self.entries@[choose|i: int| self.lists(i, mount, path)].operation_id)
        } else {
            None
        }
    }

    proof fn lemma_holder(&self, i: int)
        requires
            self.ok(),
            0 <= i < self.entries@.len(),
        ensures
            self.holder(self.entries@[i].mount_id, self.entries@[i].path@) == Some(
                self.entries@[i].operation_id,
            ),
    {
        let mount = self.entries@[i].mount_id;
        let path = self.entries@[i].path@;
        assert(self.lists(i, mount, path));
        let j = choose|j: int| self.lists(j, mount, path);
        assert(self.lists(j, mount, path));
        assert(i == j);
    }

    /// Creates an empty index.
    pub fn new() -> (r: Self)
        ensures
            r.ok(),
            forall|m: MountId, p: Seq<char>| #[trigger] r.holder(m, p) is None,
    {
        PathIndex { entries: Vec::new() }
    }

    fn find(&self, mount: MountId, path: &String) -> (r: Option<usize>)
        requires
            self.ok(),
        ensures
            r is Some ==> self.lists(r->0 as int, mount, path@),
            r is None ==> forall|i: int| !self.lists(i, mount, path@),
    {
        let mut i: usize = 0;
        while i < self.entries.len()
            invariant
                i <= self.entries@.len(),
                forall|k: int| 0 <= k < i ==> !self.lists(k, mount, path@),
            decreases self.entries.len() - i,
        {
            if self.entries[i].mount_id == mount && self.entries[i].path == *path {
                return Some(i);
            }
            i += 1;
        }
        None
    }

    /// Returns whether an operation holds the path.
    pub fn contains(&self, mount: MountId, path: &String) -> (r: bool)
        requires
            self.ok(),
        ensures
            r == (self.holder(mount, path@) is Some),
    {
        let found = self.find(mount, path);
        proof {
            if found is Some {
                self.lemma_holder(found->0 as int);
            }
        }
        found.is_some()
    }

    /// Lists a path that is not held.
    pub fn insert(&mut self, mount: MountId, path: String, operation_id: CreateFileOperationId)
        requires
            old(self).ok(),
            old(self).holder(mount, path@) is None,
        ensures
            final(self).ok(),
            forall|m: MountId, p: Seq<char>| #[trigger]
                final(self).holder(m, p) == if m == mount && p == path@ {
                    Some(operation_id)
                } else {
                    old(self).holder(m, p)
                },
    {
        let ghost before = *self;
        let ghost n = self.entries@.len() as int;
        self.entries.push(PathEntry { mount_id: mount, path, operation_id });
        proof {
            assert forall|i: int, j: int| 0 <= i < j < self.entries@.len() implies !((
            #[trigger] self.entries@[i]).mount_id == (#[trigger] self.entries@[j]).mount_id
                && self.entries@[i].path@ == self.entries@[j].path@) by {
                if j == n {
                    assert(before.lists(i, mount, path@) ==> before.holder(mount, path@) is Some);
                    assert(self.entries@[i] == before.entries@[i]);
                } else {
                    assert(self.entries@[i] == before.entries@[i]);
                    assert(self.entries@[j] == before.entries@[j]);
                }
            }
            assert forall|m: MountId, p: Seq<char>| #[trigger]
                self.holder(m, p) == if m == mount && p == path@ {
                    Some(operation_id)
                } else {
                    before.holder(m, p)
                } by {
                if m == mount && p == path@ {
                    self.lemma_holder(n);
                } else if before.holder(m, p) is Some {
                    let i = choose|i: int| before.lists(i, m, p);
                    assert(before.lists(i, m, p));
                    assert(self.entries@[i] == before.entries@[i]);
                    self.lemma_holder(i);
                } else if self.holder(m, p) is Some {
                    let i = choose|i: int| self.lists(i, m, p);
                    assert(self.lists(i, m, p));
                    assert(i != n);
                    assert(self.entries@[i] == before.entries@[i]);
                    assert(before.lists(i, m, p));
                }
            }
        }
    }

    /// Takes a path out.
    pub fn remove(&mut self, mount: MountId, path: &String)
        requires
            old(self).ok(),
        ensures
            final(self).ok(),
            forall|m: MountId, p: Seq<char>| #[trigger]
                final(self).holder(m, p) == if m == mount && p == path@ {
                    None
                } else {
                    old(self).holder(m, p)
                },
    {
        let ghost before = *self;
        match self.find(mount, path) {
            None => {
                assert(before.holder(mount, path@) is None);
            },
            Some(at) => {
                self.entries.swap_remove(at);
                proof {
                    let last = before.entries@.len() - 1;
                    let from = |i: int|
                        if i == at as int {
                            last
                        } else {
                            i
                        };
                    assert forall|i: int| 0 <= i < self.entries@.len() implies #[trigger]
                        self.entries@[i] == before.entries@[from(i)] && from(i) != at as int by {}
                    assert forall|i: int, j: int| 0 <= i < j < self.entries@.len() implies !((
                    #[trigger] self.entries@[i]).mount_id == (#[trigger] self.entries@[j]).mount_id
                        && self.entries@[i].path@ == self.entries@[j].path@) by {
                        let a = from(i);
                        let b = from(j);
                        assert(self.entries@[i] == before.entries@[a]);
                        assert(self.entries@[j] == before.entries@[b]);
                        assert(a != b);
                        if a < b {
                        } else {
                            assert(b < a);
                        }
                    }
                    assert forall|m: MountId, p: Seq<char>| #[trigger]
                        self.holder(m, p) == if m == mount && p == path@ {
                            None
                        } else {
                            before.holder(m, p)
                        } by {
                        if self.holder(m, p) is Some {
                            let i = choose|i: int| self.lists(i, m, p);
                            assert(self.lists(i, m, p));
                            self.lemma_holder(i);
                            assert(self.entries@[i] == before.entries@[from(i)]);
                            before.lemma_holder(from(i));
                            assert(before.lists(at as int, mount, path@));
                            if m == mount && p == path@ {
                                let a = from(i);
                                if a < at as int {
                                } else {
                                    assert((at as int) < a);
                                }
                            }
                        } else if before.holder(m, p) is Some && !(m == mount && p == path@) {
                            let i = choose|i: int| before.lists(i, m, p);
                            assert(before.lists(i, m, p));
                            assert(i != at as int);
                            let j = if i == last {
                                at as int
                            } else {
                                i
                            };
                            assert(self.entries@[j] == before.entries@[i]);
                            assert(self.lists(j, m, p));
                        }
                    }
                }
            },
        }
    }

    /// The paths that are held.
    pub open spec fn held(&self) -> Set<(MountId, Seq<char>)> {
        Set::new(|k: (MountId, Seq<char>)| self.holder(k.0, k.1) is Some)
    }

    /// Returns the number of paths that are held.
    pub fn len(&self) -> (r: usize)
        ensures
            self.ok() ==> self.held().finite() && r == self.held().len(),
            r == 0 ==> forall|m: MountId, p: Seq<char>| #[trigger] self.holder(m, p) is None,
    {
        proof {
            if self.ok() {
                let keys = Seq::new(
                    self.entries@.len(),
                    |i: int| (self.entries@[i].mount_id, self.entries@[i].path@),
                );
                assert(keys.no_duplicates());
                keys.unique_seq_to_set();
                assert forall|k: (MountId, Seq<char>)| #[trigger]
                    keys.to_set().contains(k) <==> self.held().contains(k) by {
                    if keys.contains(k) {
                        let i = choose|i: int| 0 <= i < keys.len() && keys[i] == k;
                        assert(self.lists(i, k.0, k.1));
                    }
                    if self.holder(k.0, k.1) is Some {
                        let i = choose|i: int| self.lists(i, k.0, k.1);
                        assert(keys[i] == k);
                    }
                }
                assert(keys.to_set() =~= self.held());
            }
        }
        self.entries.len()
    }
}

} // verus!
