//! The tables of the session registry and the indexes derived from them. Every change
//! of a table changes its indexes with it.

use std::collections::HashMap;
use vstd::prelude::*;

use crate::ids::{ClientId, InodeId, MountId};
use crate::session::index::{
    pair_le, AncestorActivity, ClientOccupancy, CreateFileOperationId, ExpirySet, OperationMap,
    PathIndex,
};
use crate::session::model::{
    client_weight, create_client_weight, create_path_weight, lemma_counters_are_bounded,
    opening_weight, owned_weight, path_weight, pending_weight, RegistryView,
    MAX_EXPIRED_SESSION_RETIREMENTS_PER_CALL,
};
use crate::session::total::{total, total_empty, total_insert, total_positive, total_remove, total_update};
use crate::session::types::{
    CreateOpeningSession, CreateOpeningView, EntryView, WriteOpeningId, WriteSessionEntry,
};

verus! {

broadcast use vstd::std_specs::hash::group_hash_axioms;

/// The values of a table of entries.
pub open spec fn entry_views(m: Map<u64, WriteSessionEntry>) -> Map<u64, EntryView> {
    m.map_values(|e: WriteSessionEntry| e@)
}

/// The values of a table of pending creates.
pub open spec fn create_views(m: Map<CreateFileOperationId, CreateOpeningSession>) -> Map<
    CreateFileOperationId,
    CreateOpeningView,
> {
    m.map_values(|c: CreateOpeningSession| c@)
}

/// What the indexes know of one entry.
#[derive(Clone, Copy)]
pub struct EntryFacts {
    pub retirement_at_ms: u64,
    pub opening: bool,
    pub issued: usize,
    pub pending: usize,
}

impl EntryFacts {
    pub open spec fn of(self, e: EntryView) -> bool {
        &&& self.retirement_at_ms == e.retirement_at_ms()
        &&& self.opening == e is Opening
        &&& self.issued + self.pending == e.owned_targets()
        &&& self.pending == e.pending_targets()
        &&& self.pending <= 1
    }
}

/// The primary tables and everything that must change with them.
pub struct SessionRegistryState {
    entries: HashMap<u64, WriteSessionEntry>,
    create_openings: OperationMap<CreateOpeningSession>,
    create_openings_by_path: PathIndex,
    create_opening_operations: HashMap<u64, CreateFileOperationId>,
    create_openings_by_expiry: ExpirySet,
    active_create_operations: OperationMap<InodeId>,
    opening_sessions: usize,
    occupied_sessions_by_client: ClientOccupancy,
    ancestor_activity: AncestorActivity,
    entries_by_expiry: ExpirySet,
    next_opening_id: u64,
    next_publication_id: u64,
    outstanding_write_targets: usize,
    pending_write_targets: usize,
}

impl View for SessionRegistryState {
    type V = RegistryView;

    closed spec fn view(&self) -> RegistryView {
        RegistryView {
            entries: entry_views(self.entries@),
            creates: create_views(self.create_openings@),
            next_opening_id: self.next_opening_id,
            next_publication_id: self.next_publication_id,
        }
    }
}

impl SessionRegistryState {
    /// The expiry index of the entries lists each entry at its retirement time.
    spec fn expiry_indexed(&self, entries: Map<u64, EntryView>) -> bool {
        forall|p: (u64, u64)| #[trigger]
            self.entries_by_expiry@.contains(p) <==> entries.contains_key(p.1)
                && entries[p.1].retirement_at_ms() == p.0
    }

    /// The index of replayable operations lists each entry that a create made.
    spec fn replays_indexed(&self, entries: Map<u64, EntryView>) -> bool {
        &&& self.active_create_operations.ok()
        &&& forall|k: u64| #[trigger]
            entries.contains_key(k) && entries[k].replay_operation() is Some ==> {
                let op = entries[k].replay_operation()->0;
                self.active_create_operations@.contains_key(op)
                    && self.active_create_operations@[op] == InodeId(k)
            }
        &&& forall|op: CreateFileOperationId| #[trigger]
            self.active_create_operations@.contains_key(op) ==> {
                let k = self.active_create_operations@[op].0;
                entries.contains_key(k) && entries[k].replay_operation() == Some(op)
            }
    }

    /// The indexes of the pending creates list each by path, identity and expiry.
    spec fn creates_indexed(
        &self,
        creates: Map<CreateFileOperationId, CreateOpeningView>,
    ) -> bool {
        &&& self.create_openings_by_path.ok()
        &&& forall|op: CreateFileOperationId| #[trigger]
            creates.contains_key(op) ==> {
                let c = creates[op];
                &&& self.create_openings_by_path.holder(c.mount_id, c.normalized_path) == Some(op)
                &&& self.create_opening_operations@.contains_key(c.opening_id.0)
                &&& self.create_opening_operations@[c.opening_id.0] == op
                &&& self.create_openings_by_expiry@.contains((c.expires_at_ms, c.opening_id.0))
            }
        &&& forall|m: MountId, p: Seq<char>| #[trigger]
            self.create_openings_by_path.holder(m, p) is Some ==> {
                let op = self.create_openings_by_path.holder(m, p)->0;
                creates.contains_key(op) && creates[op].mount_id == m
                    && creates[op].normalized_path == p
            }
        &&& forall|id: u64| #[trigger]
            self.create_opening_operations@.contains_key(id) ==> {
                let op = self.create_opening_operations@[id];
                creates.contains_key(op) && creates[op].opening_id.0 == id
            }
        &&& forall|p: (u64, u64)| #[trigger]
            self.create_openings_by_expiry@.contains(p) ==> {
                let op = self.create_opening_operations@[p.1];
                &&& self.create_opening_operations@.contains_key(p.1)
                &&& creates[op].expires_at_ms == p.0
            }
    }

    /// The counters are the sums over the tables.
    spec fn counted(&self, v: RegistryView) -> bool {
        &&& self.opening_sessions == v.openings()
        &&& self.outstanding_write_targets == v.outstanding()
        &&& self.pending_write_targets == v.pending()
        &&& self.occupied_sessions_by_client.ok()
        &&& forall|c: ClientId| #[trigger]
            self.occupied_sessions_by_client.count(c) == v.client_occupied(c)
        &&& self.ancestor_activity.ok()
        &&& forall|i: u64, at: u64| #[trigger]
            self.ancestor_activity.count(i, at) == v.activity(InodeId(i), at)
    }

    /// Every index agrees with the tables `v`.
    pub closed spec fn indexes(&self, v: RegistryView) -> bool {
        &&& v.entries.dom().finite()
        &&& v.creates.dom().finite()
        &&& forall|k: u64| #[trigger] v.entries.contains_key(k) ==> v.entries[k].inode_id().0 == k
        &&& forall|op: CreateFileOperationId| #[trigger]
            v.creates.contains_key(op) ==> v.creates[op].operation_id == op
        &&& forall|k: u64| #[trigger]
            v.entries.contains_key(k) ==> v.entries[k].ancestors().no_duplicates()
        &&& forall|op: CreateFileOperationId| #[trigger]
            v.creates.contains_key(op)
                ==> v.creates[op].parent_ancestor_inode_ids.no_duplicates()
        &&& self.create_openings.ok()
        &&& self.expiry_indexed(v.entries)
        &&& self.replays_indexed(v.entries)
        &&& self.creates_indexed(v.creates)
        &&& self.counted(v)
    }

    /// Every index agrees with the tables.
    pub open spec fn inv(&self) -> bool {
        self.indexes(self@)
    }

    /// Creates empty tables.
    pub fn new() -> (r: Self)
        ensures
            r.inv(),
            r@ == RegistryView::empty(),
    {
        let r = SessionRegistryState {
            entries: HashMap::new(),
            create_openings: OperationMap::new(),
            create_openings_by_path: PathIndex::new(),
            create_opening_operations: HashMap::new(),
            create_openings_by_expiry: ExpirySet::new(),
            active_create_operations: OperationMap::new(),
            opening_sessions: 0,
            occupied_sessions_by_client: ClientOccupancy::new(),
            ancestor_activity: AncestorActivity::new(),
            entries_by_expiry: ExpirySet::new(),
            next_opening_id: 1,
            next_publication_id: 1,
            outstanding_write_targets: 0,
            pending_write_targets: 0,
        };
        proof {
            assert(r@.entries =~= Map::empty());
            assert(r@.creates =~= Map::empty());
            assert forall|c: ClientId| #[trigger] r.occupied_sessions_by_client.count(c)
                == r@.client_occupied(c) by {
                total_empty::<u64, EntryView>(client_weight(c));
                total_empty::<CreateFileOperationId, CreateOpeningView>(create_client_weight(c));
            }
            assert forall|i: u64, at: u64| #[trigger] r.ancestor_activity.count(i, at)
                == r@.activity(InodeId(i), at) by {
                total_empty::<u64, EntryView>(path_weight(InodeId(i), at));
                total_empty::<CreateFileOperationId, CreateOpeningView>(
                    create_path_weight(InodeId(i), at),
                );
            }
            total_empty::<u64, EntryView>(opening_weight());
            total_empty::<u64, EntryView>(owned_weight());
            total_empty::<u64, EntryView>(pending_weight());
        }
        r
    }

    /// Returns the entry of an inode.
    pub fn get_entry(&self, inode: InodeId) -> (r: Option<&WriteSessionEntry>)
        ensures
            r is Some <==> self@.entries.contains_key(inode.0),
            r is Some ==> (*r->0)@ == self@.entries[inode.0],
    {
        self.entries.get(&inode.0)
    }

    /// Returns the pending create of an operation.
    pub fn get_create(&self, op: CreateFileOperationId) -> (r: Option<&CreateOpeningSession>)
        requires
            self.inv(),
        ensures
            r is Some <==> self@.creates.contains_key(op),
            r is Some ==> (*r->0)@ == self@.creates[op],
    {
        self.create_openings.get(op)
    }

    /// Returns the inode whose active session the operation can replay.
    pub fn get_replay(&self, op: CreateFileOperationId) -> (r: Option<InodeId>)
        requires
            self.inv(),
        ensures
            r is Some <==> self@.is_replayable(op),
            r is Some ==> self@.replays(op, (r->0).0),
    {
        match self.active_create_operations.get(op) {
            Some(inode) => {
                assert(self@.replays(op, inode.0));
                Some(*inode)
            },
            None => {
                proof {
                    if self@.is_replayable(op) {
                        let k = choose|k: u64| self@.replays(op, k);
                        assert(self@.entries.contains_key(k));
                    }
                }
                None
            },
        }
    }

    /// Returns whether a pending create holds the path.
    pub fn is_path_held(&self, mount: MountId, path: &String) -> (r: bool)
        requires
            self.inv(),
        ensures
            r == self@.path_held(mount, path@),
    {
        let r = self.create_openings_by_path.contains(mount, path);
        proof {
            if self@.path_held(mount, path@) {
                let op = choose|op: CreateFileOperationId| #[trigger]
                    self@.creates.contains_key(op) && self@.creates[op].mount_id == mount
                        && self@.creates[op].normalized_path == path@;
                assert(self@.creates.contains_key(op));
            }
            if r {
                let op = self.create_openings_by_path.holder(mount, path@)->0;
                assert(self@.creates.contains_key(op));
            }
        }
        r
    }

    /// Returns the number of opening and active sessions, pending creates among them.
    pub fn occupied(&self) -> (r: usize)
        requires
            self.inv(),
            self@.occupied() <= usize::MAX,
        ensures
            r == self@.occupied(),
    {
        proof {
            assert(self@.entries.dom() =~= self.entries@.dom());
            assert(self@.creates.dom() =~= self.create_openings@.dom());
        }
        self.entries.len() + self.create_openings.len()
    }

    /// Returns the number of sessions of one client.
    pub fn client_occupied(&self, client: ClientId) -> (r: usize)
        requires
            self.inv(),
        ensures
            r == self@.client_occupied(client),
    {
        self.occupied_sessions_by_client.get(client)
    }

    /// Returns the number of pending and issued targets.
    pub fn outstanding(&self) -> (r: usize)
        requires
            self.inv(),
        ensures
            r == self@.outstanding(),
    {
        self.outstanding_write_targets
    }

    /// Returns the number of pending targets.
    pub fn pending(&self) -> (r: usize)
        requires
            self.inv(),
        ensures
            r == self@.pending(),
    {
        self.pending_write_targets
    }

    /// Returns the number of openings and pending creates.
    pub fn opening_count(&self) -> (r: usize)
        requires
            self.inv(),
            self@.occupied() <= usize::MAX,
        ensures
            r == self@.openings() + self@.creates.dom().len(),
    {
        proof {
            lemma_counters_are_bounded(self@);
            assert(self@.creates.dom() =~= self.create_openings@.dom());
        }
        self.opening_sessions + self.create_openings.len()
    }

    /// Returns the number of active sessions.
    pub fn active_count(&self) -> (r: usize)
        requires
            self.inv(),
        ensures
            r == self@.entries.dom().len() - self@.openings(),
    {
        proof {
            lemma_counters_are_bounded(self@);
            assert(self@.entries.dom() =~= self.entries@.dom());
        }
        self.entries.len() - self.opening_sessions
    }

    /// Issues an opening identity, unless they are exhausted.
    pub fn issue_opening_id(&mut self) -> (r: Option<WriteOpeningId>)
        requires
            old(self).inv(),
        ensures
            final(self).inv(),
            old(self)@.next_opening_id == u64::MAX <==> r is None,
            r is None ==> final(self)@ == old(self)@,
            r is Some ==> r->0 == WriteOpeningId(old(self)@.next_opening_id) && final(self)@ == (
            RegistryView { next_opening_id: (old(self)@.next_opening_id + 1) as u64, ..old(self)@ }),
    {
        let ghost before = *self;
        match self.next_opening_id.checked_add(1) {
            Some(next) => {
                let id = WriteOpeningId(self.next_opening_id);
                self.next_opening_id = next;
                proof {
                    self.lemma_same_tables(before);
                }
                Some(id)
            },
            None => None,
        }
    }

    /// Issues a publication identity, unless they are exhausted.
    pub fn issue_publication_id(&mut self) -> (r: Option<u64>)
        requires
            old(self).inv(),
        ensures
            final(self).inv(),
            old(self)@.next_publication_id == u64::MAX <==> r is None,
            r is None ==> final(self)@ == old(self)@,
            r is Some ==> r->0 == old(self)@.next_publication_id && final(self)@ == (RegistryView {
                next_publication_id: (old(self)@.next_publication_id + 1) as u64,
                ..old(self)@
            }),
    {
        let ghost before = *self;
        match self.next_publication_id.checked_add(1) {
            Some(next) => {
                let id: u64 = self.next_publication_id;
                self.next_publication_id = next;
                proof {
                    self.lemma_same_tables(before);
                }
                Some(id)
            },
            None => None,
        }
    }

    proof fn lemma_same_tables(&self, before: SessionRegistryState)
        requires
            before.inv(),
            *self == (SessionRegistryState {
                next_opening_id: self.next_opening_id,
                next_publication_id: self.next_publication_id,
                ..before
            }),
        ensures
            self.inv(),
    {
        assert forall|c: ClientId| #[trigger] self.occupied_sessions_by_client.count(c)
            == self@.client_occupied(c) by {
            assert(before.occupied_sessions_by_client.count(c) == before@.client_occupied(c));
        }
        assert forall|i: u64, at: u64| #[trigger] self.ancestor_activity.count(i, at)
            == self@.activity(InodeId(i), at) by {
            assert(before.ancestor_activity.count(i, at) == before@.activity(InodeId(i), at));
        }
    }

    /// Inserts a new entry and all of its index entries.
    pub fn insert_entry(&mut self, entry: WriteSessionEntry)
        requires
            old(self).inv(),
            !old(self)@.entries.contains_key(entry@.inode_id().0),
            old(self)@.occupied() < usize::MAX,
            entry@.ancestors().no_duplicates(),
            entry@.owned_targets() == 0,
            entry@.replay_operation() is Some ==> !old(self)@.is_replayable(
                entry@.replay_operation()->0,
            ),
        ensures
            final(self).inv(),
            final(self)@ == old(self)@.with_entry(entry@.inode_id().0, entry@),
    {
        let ghost before = *self;
        let ghost v = self@;
        let ghost e = entry@;
        let inode: u64 = entry.inode_id().0;
        let client = entry.client_id();
        let at: u64 = entry.retirement_at_ms();
        proof {
            lemma_counters_are_bounded(v);
            assert forall|i: u64| #[trigger] self.ancestor_activity.count(i, at) < usize::MAX by {
                assert(v.activity(InodeId(i), at) <= v.occupied());
            }
            assert(self.occupied_sessions_by_client.count(client) == v.client_occupied(client));
            assert(v.client_occupied(client) <= v.occupied());
        }
        self.ancestor_activity.add_path(entry.ancestor_inode_ids(), at);
        self.entries_by_expiry.insert(at, inode);
        if entry.is_opening() {
            self.opening_sessions = self.opening_sessions + 1;
        }
        self.occupied_sessions_by_client.add(client);
        match entry.replay_operation() {
            Some(op) => {
                proof {
                    if self.active_create_operations@.contains_key(op) {
                        assert(v.replays(op, self.active_create_operations@[op].0));
                    }
                    before.lemma_few_replays();
                }
                self.active_create_operations.insert(op, InodeId(inode));
            },
            None => {},
        }
        self.entries.insert(inode, entry);
        proof {
            let w = v.with_entry(inode, e);
            assert(self@.entries =~= w.entries);
            assert(self@.creates =~= w.creates);
            assert(self@ == w);
            total_insert(v.entries, opening_weight(), inode, e);
            total_insert(v.entries, owned_weight(), inode, e);
            total_insert(v.entries, pending_weight(), inode, e);
            assert forall|c: ClientId| #[trigger] self.occupied_sessions_by_client.count(c)
                == w.client_occupied(c) by {
                assert(before.occupied_sessions_by_client.count(c) == v.client_occupied(c));
                total_insert(v.entries, client_weight(c), inode, e);
            }
            assert forall|i: u64, t: u64| #[trigger] self.ancestor_activity.count(i, t)
                == w.activity(InodeId(i), t) by {
                assert(before.ancestor_activity.count(i, t) == v.activity(InodeId(i), t));
                total_insert(v.entries, path_weight(InodeId(i), t), inode, e);
            }
            assert forall|p: (u64, u64)| #[trigger]
                self.entries_by_expiry@.contains(p) <==> w.entries.contains_key(p.1)
                    && w.entries[p.1].retirement_at_ms() == p.0 by {
                assert(before.entries_by_expiry@.contains(p) <==> v.entries.contains_key(p.1)
                    && v.entries[p.1].retirement_at_ms() == p.0);
            }
            assert(self.replays_indexed(w.entries)) by {
                assert forall|k: u64| #[trigger]
                    w.entries.contains_key(k) && w.entries[k].replay_operation() is Some implies {
                    let op = w.entries[k].replay_operation()->0;
                    self.active_create_operations@.contains_key(op)
                        && self.active_create_operations@[op] == InodeId(k)
                } by {
                    if k != inode {
                        assert(v.entries.contains_key(k));
                        let op = w.entries[k].replay_operation()->0;
                        assert(v.replays(op, k));
                    }
                }
                assert forall|op: CreateFileOperationId| #[trigger]
                    self.active_create_operations@.contains_key(op) implies {
                    let k = self.active_create_operations@[op].0;
                    w.entries.contains_key(k) && w.entries[k].replay_operation() == Some(op)
                } by {
                    if e.replay_operation() != Some(op) {
                        assert(before.active_create_operations@.contains_key(op));
                    }
                }
            }
        }
    }

    /// There are at most as many replayable operations as entries.
    proof fn lemma_few_replays(&self)
        requires
            self.inv(),
            self@.occupied() < usize::MAX,
        ensures
            self.active_create_operations@.dom().len() < usize::MAX,
            self.active_create_operations@.dom().finite(),
    {
        let m = self.active_create_operations@;
        let ops = m.dom();
        let keys = self@.entries.dom();
        let f = |op: CreateFileOperationId| m[op].0;
        assert(self.active_create_operations.ok());
        self.active_create_operations.lemma_finite();
        assert forall|a: CreateFileOperationId, b: CreateFileOperationId|
            ops.contains(a) && ops.contains(b) && #[trigger] f(a) == #[trigger] f(b) implies a
            == b by {
            assert(m.contains_key(a));
            assert(m.contains_key(b));
        }
        vstd::set_lib::lemma_map_size(ops, ops.map(f), f);
        assert forall|k: u64| #[trigger] ops.map(f).contains(k) implies keys.contains(k) by {
            let op = choose|op: CreateFileOperationId| ops.contains(op) && f(op) == k;
            assert(m.contains_key(op));
        }
        vstd::set_lib::lemma_len_subset(ops.map(f), keys);
    }

    /// Takes an entry out in order to put a changed one back.
    pub fn take_entry(&mut self, inode: InodeId) -> (r: (WriteSessionEntry, EntryFacts))
        requires
            old(self).inv(),
            old(self)@.entries.contains_key(inode.0),
        ensures
            final(self).indexes(old(self)@),
            final(self)@ == old(self)@.without_entry(inode.0),
            r.0@ == old(self)@.entries[inode.0],
            r.1.of(r.0@),
    {
        let ghost before = *self;
        let entry = match self.entries.remove(&inode.0) {
            Some(entry) => entry,
            None => {
                proof {
                    assert(false);
                }
                vstd::pervasive::unreached()
            },
        };
        proof {
            assert(self@.entries =~= before@.without_entry(inode.0).entries);
            assert(self@.creates =~= before@.creates);
        }
        let facts = EntryFacts {
            retirement_at_ms: entry.retirement_at_ms(),
            opening: entry.is_opening(),
            issued: entry.issued_targets(),
            pending: entry.pending_targets(),
        };
        (entry, facts)
    }

    /// Puts a changed entry back where the one with the given facts was taken out. Client,
    /// path and replayable operation are unchanged.
    pub fn put_entry(
        &mut self,
        entry: WriteSessionEntry,
        facts: EntryFacts,
        Ghost(before): Ghost<RegistryView>,
    )
        requires
            ({
                let key = entry@.inode_id().0;
                let was = before.entries[key];
                &&& old(self).indexes(before)
                &&& before.entries.contains_key(key)
                &&& old(self)@ == before.without_entry(key)
                &&& facts.of(was)
                &&& entry@.client_id() == was.client_id()
                &&& entry@.ancestors() == was.ancestors()
                &&& entry@.replay_operation() == was.replay_operation()
                &&& before.occupied() <= usize::MAX
                &&& before.outstanding() + entry@.owned_targets() <= usize::MAX
                    + was.owned_targets()
                &&& was is Active ==> entry@ is Active
            }),
        ensures
            final(self).inv(),
            final(self)@ == before.with_entry(entry@.inode_id().0, entry@),
    {
        let ghost start = *self;
        let ghost e = entry@;
        let inode: u64 = entry.inode_id().0;
        let ghost was = before.entries[inode];
        let at: u64 = entry.retirement_at_ms();
        proof {
            lemma_counters_are_bounded(before);
            total_update(before.entries, opening_weight(), inode, e);
            total_update(before.entries, owned_weight(), inode, e);
            total_update(before.entries, pending_weight(), inode, e);
            let w = before.with_entry(inode, e);
            assert(w.entries.dom() =~= before.entries.dom());
            lemma_counters_are_bounded(w);
        }
        if at != facts.retirement_at_ms {
            self.entries_by_expiry.remove(facts.retirement_at_ms, inode);
            self.entries_by_expiry.insert(at, inode);
            proof {
                assert forall|i: u64| entry@.ancestors().contains(InodeId(i)) implies #[trigger]
                    self.ancestor_activity.count(i, facts.retirement_at_ms) > 0 by {
                    total_remove(
                        before.entries,
                        path_weight(InodeId(i), facts.retirement_at_ms),
                        inode,
                    );
                    assert(self.ancestor_activity.count(i, facts.retirement_at_ms)
                        == before.activity(InodeId(i), facts.retirement_at_ms));
                }
            }
            self.ancestor_activity.take_path(entry.ancestor_inode_ids(), facts.retirement_at_ms);
            proof {
                assert forall|i: u64| entry@.ancestors().contains(InodeId(i)) implies #[trigger]
                    self.ancestor_activity.count(i, at) < usize::MAX by {
                    let w = before.with_entry(inode, e);
                    assert(start.ancestor_activity.count(i, at) == before.activity(InodeId(i), at));
                    total_update(before.entries, path_weight(InodeId(i), at), inode, e);
                    assert(w.activity(InodeId(i), at) <= w.occupied());
                }
            }
            self.ancestor_activity.add_path(entry.ancestor_inode_ids(), at);
        }
        if facts.opening && !entry.is_opening() {
            self.opening_sessions = self.opening_sessions - 1;
        }
        let issued: usize = entry.issued_targets();
        let pending: usize = entry.pending_targets();
        self.outstanding_write_targets = self.outstanding_write_targets - facts.issued
            - facts.pending;
        self.outstanding_write_targets = self.outstanding_write_targets + issued + pending;
        self.pending_write_targets = self.pending_write_targets - facts.pending;
        self.pending_write_targets = self.pending_write_targets + pending;
        self.entries.insert(inode, entry);
        proof {
            let w = before.with_entry(inode, e);
            assert(self@.entries =~= w.entries) by {
                assert forall|k: u64| self@.entries.contains_key(k) <==> w.entries.contains_key(
                    k,
                ) by {
                    assert(start@.entries.contains_key(k) <==> before.without_entry(
                        inode,
                    ).entries.contains_key(k));
                }
                assert forall|k: u64| #[trigger] self@.entries.contains_key(k) implies self@.entries[k] == w.entries[k] by {
                    if k != inode {
                        assert(start@.entries.contains_key(k));
                        assert(start@.entries[k] == before.without_entry(inode).entries[k]);
                    }
                }
            }
            assert(self@.creates =~= w.creates);
            assert(self@ == w);
            assert forall|c: ClientId| #[trigger] self.occupied_sessions_by_client.count(c)
                == w.client_occupied(c) by {
                assert(start.occupied_sessions_by_client.count(c) == before.client_occupied(c));
                total_update(before.entries, client_weight(c), inode, e);
            }
            assert forall|i: u64, t: u64| #[trigger] self.ancestor_activity.count(i, t)
                == w.activity(InodeId(i), t) by {
                assert(start.ancestor_activity.count(i, t) == before.activity(InodeId(i), t));
                total_update(before.entries, path_weight(InodeId(i), t), inode, e);
            }
            assert forall|p: (u64, u64)| #[trigger]
                self.entries_by_expiry@.contains(p) <==> w.entries.contains_key(p.1)
                    && w.entries[p.1].retirement_at_ms() == p.0 by {
                assert(start.entries_by_expiry@.contains(p) <==> before.entries.contains_key(p.1)
                    && before.entries[p.1].retirement_at_ms() == p.0);
            }
            assert(self.replays_indexed(w.entries)) by {
                assert forall|k: u64| #[trigger]
                    w.entries.contains_key(k) && w.entries[k].replay_operation() is Some implies {
                    let op = w.entries[k].replay_operation()->0;
                    self.active_create_operations@.contains_key(op)
                        && self.active_create_operations@[op] == InodeId(k)
                } by {
                    assert(before.entries.contains_key(k));
                }
            }
        }
    }

    /// Removes the entry of an inode and all of its index entries.
    pub fn remove_entry(&mut self, inode: InodeId) -> (r: Option<WriteSessionEntry>)
        requires
            old(self).inv(),
        ensures
            final(self).inv(),
            final(self)@ == old(self)@.without_entry(inode.0),
            r is Some <==> old(self)@.entries.contains_key(inode.0),
            r is Some ==> (r->0)@ == old(self)@.entries[inode.0],
    {
        let ghost before = *self;
        let ghost v = self@;
        let key: u64 = inode.0;
        let entry = match self.entries.remove(&key) {
            Some(entry) => entry,
            None => {
                proof {
                    assert(self@.entries =~= v.entries);
                    assert(v.without_entry(key).entries =~= v.entries);
                    assert(self@.creates =~= v.creates);
                    assert(self.entries@ =~= before.entries@);
                    assert forall|c: ClientId| #[trigger] self.occupied_sessions_by_client.count(c)
                        == self@.client_occupied(c) by {
                        assert(before.occupied_sessions_by_client.count(c) == v.client_occupied(
                            c,
                        ));
                    }
                    assert forall|i: u64, t: u64| #[trigger] self.ancestor_activity.count(i, t)
                        == self@.activity(InodeId(i), t) by {
                        assert(before.ancestor_activity.count(i, t) == v.activity(InodeId(i), t));
                    }
                }
                return None;
            },
        };
        let ghost e = entry@;
        let client = entry.client_id();
        let at: u64 = entry.retirement_at_ms();
        let issued: usize = entry.issued_targets();
        let pending: usize = entry.pending_targets();
        proof {
            assert(v.entries.contains_key(key) && v.entries[key] == e);
            total_remove(v.entries, opening_weight(), key);
            total_remove(v.entries, owned_weight(), key);
            total_remove(v.entries, pending_weight(), key);
            total_remove(v.entries, client_weight(client), key);
            assert(before.occupied_sessions_by_client.count(client) == v.client_occupied(client));
            assert forall|i: u64| e.ancestors().contains(InodeId(i)) implies #[trigger]
                self.ancestor_activity.count(i, at) > 0 by {
                total_remove(v.entries, path_weight(InodeId(i), at), key);
                assert(before.ancestor_activity.count(i, at) == v.activity(InodeId(i), at));
            }
        }
        match entry.replay_operation() {
            Some(op) => {
                self.active_create_operations.remove(op);
            },
            None => {},
        }
        if entry.is_opening() {
            self.opening_sessions = self.opening_sessions - 1;
        }
        self.entries_by_expiry.remove(at, key);
        self.ancestor_activity.take_path(entry.ancestor_inode_ids(), at);
        self.occupied_sessions_by_client.take(client);
        self.outstanding_write_targets = self.outstanding_write_targets - issued - pending;
        self.pending_write_targets = self.pending_write_targets - pending;
        proof {
            let w = v.without_entry(key);
            assert(self@.entries =~= w.entries);
            assert(self@.creates =~= w.creates);
            assert(self@ == w);
            assert forall|c: ClientId| #[trigger] self.occupied_sessions_by_client.count(c)
                == w.client_occupied(c) by {
                assert(before.occupied_sessions_by_client.count(c) == v.client_occupied(c));
                total_remove(v.entries, client_weight(c), key);
            }
            assert forall|i: u64, t: u64| #[trigger] self.ancestor_activity.count(i, t)
                == w.activity(InodeId(i), t) by {
                assert(before.ancestor_activity.count(i, t) == v.activity(InodeId(i), t));
                total_remove(v.entries, path_weight(InodeId(i), t), key);
            }
            assert forall|p: (u64, u64)| #[trigger]
                self.entries_by_expiry@.contains(p) <==> w.entries.contains_key(p.1)
                    && w.entries[p.1].retirement_at_ms() == p.0 by {
                assert(before.entries_by_expiry@.contains(p) <==> v.entries.contains_key(p.1)
                    && v.entries[p.1].retirement_at_ms() == p.0);
            }
            assert(self.replays_indexed(w.entries)) by {
                assert forall|k: u64| #[trigger]
                    w.entries.contains_key(k) && w.entries[k].replay_operation() is Some implies {
                    let op = w.entries[k].replay_operation()->0;
                    self.active_create_operations@.contains_key(op)
                        && self.active_create_operations@[op] == InodeId(k)
                } by {
                    assert(v.entries.contains_key(k));
                }
                assert forall|op: CreateFileOperationId| #[trigger]
                    self.active_create_operations@.contains_key(op) implies {
                    let k = self.active_create_operations@[op].0;
                    w.entries.contains_key(k) && w.entries[k].replay_operation() == Some(op)
                } by {
                    assert(before.active_create_operations@.contains_key(op));
                }
            }
        }
        Some(entry)
    }

    /// Inserts a pending create and all of its index entries.
    pub fn insert_create(&mut self, create: CreateOpeningSession)
        requires
            old(self).inv(),
            !old(self)@.creates.contains_key(create.operation_id),
            !old(self)@.path_held(create.mount_id, create.normalized_path@),
            forall|op: CreateFileOperationId| #[trigger]
                old(self)@.creates.contains_key(op) ==> old(self)@.creates[op].opening_id
                    != create.opening_id,
            old(self)@.occupied() < usize::MAX,
            create.parent_ancestor_inode_ids@.no_duplicates(),
        ensures
            final(self).inv(),
            final(self)@ == old(self)@.with_create(create@),
    {
        let ghost before = *self;
        let ghost v = self@;
        let ghost c = create@;
        let op = create.operation_id;
        let client = create.open_client_id;
        let at: u64 = create.expires_at_ms;
        let id: u64 = create.opening_id.0;
        proof {
            lemma_counters_are_bounded(v);
            assert forall|i: u64| #[trigger] self.ancestor_activity.count(i, at) < usize::MAX by {
                assert(v.activity(InodeId(i), at) <= v.occupied());
            }
            assert(self.occupied_sessions_by_client.count(client) == v.client_occupied(client));
            assert(v.client_occupied(client) <= v.occupied());
            assert(self@.creates.dom() =~= self.create_openings@.dom());
            if self.create_openings_by_path.holder(create.mount_id, create.normalized_path@)
                is Some {
                let o = self.create_openings_by_path.holder(
                    create.mount_id,
                    create.normalized_path@,
                )->0;
                assert(v.creates.contains_key(o));
            }
        }
        self.create_openings_by_path.insert(
            create.mount_id,
            create.normalized_path.clone(),
            op,
        );
        self.ancestor_activity.add_path(&create.parent_ancestor_inode_ids, at);
        self.create_openings_by_expiry.insert(at, id);
        self.create_opening_operations.insert(id, op);
        self.occupied_sessions_by_client.add(client);
        self.create_openings.insert(op, create);
        proof {
            let w = v.with_create(c);
            assert(self@.entries =~= w.entries);
            assert(self@.creates =~= w.creates);
            assert(self@ == w);
            assert forall|cl: ClientId| #[trigger] self.occupied_sessions_by_client.count(cl)
                == w.client_occupied(cl) by {
                assert(before.occupied_sessions_by_client.count(cl) == v.client_occupied(cl));
                total_insert(v.creates, create_client_weight(cl), op, c);
            }
            assert forall|i: u64, t: u64| #[trigger] self.ancestor_activity.count(i, t)
                == w.activity(InodeId(i), t) by {
                assert(before.ancestor_activity.count(i, t) == v.activity(InodeId(i), t));
                total_insert(v.creates, create_path_weight(InodeId(i), t), op, c);
            }
            assert(self.creates_indexed(w.creates)) by {
                assert forall|o: CreateFileOperationId| #[trigger]
                    w.creates.contains_key(o) implies {
                    let x = w.creates[o];
                    &&& self.create_openings_by_path.holder(x.mount_id, x.normalized_path) == Some(
                        o,
                    )
                    &&& self.create_opening_operations@.contains_key(x.opening_id.0)
                    &&& self.create_opening_operations@[x.opening_id.0] == o
                    &&& self.create_openings_by_expiry@.contains((x.expires_at_ms, x.opening_id.0))
                } by {
                    if o != op {
                        assert(v.creates.contains_key(o));
                        assert(v.creates[o].opening_id != create.opening_id);
                    }
                }
                assert forall|m: MountId, p: Seq<char>| #[trigger]
                    self.create_openings_by_path.holder(m, p) is Some implies {
                    let o = self.create_openings_by_path.holder(m, p)->0;
                    w.creates.contains_key(o) && w.creates[o].mount_id == m
                        && w.creates[o].normalized_path == p
                } by {
                    if !(m == create.mount_id && p == create.normalized_path@) {
                        assert(before.create_openings_by_path.holder(m, p) is Some);
                    }
                }
                assert forall|k: u64| #[trigger]
                    self.create_opening_operations@.contains_key(k) implies {
                    let o = self.create_opening_operations@[k];
                    w.creates.contains_key(o) && w.creates[o].opening_id.0 == k
                } by {
                    if k != id {
                        assert(before.create_opening_operations@.contains_key(k));
                    }
                }
                assert forall|p: (u64, u64)| #[trigger]
                    self.create_openings_by_expiry@.contains(p) implies {
                    let o = self.create_opening_operations@[p.1];
                    &&& self.create_opening_operations@.contains_key(p.1)
                    &&& w.creates[o].expires_at_ms == p.0
                } by {
                    if p != (at, id) {
                        assert(before.create_openings_by_expiry@.contains(p));
                        let o = before.create_opening_operations@[p.1];
                        assert(before.create_opening_operations@.contains_key(p.1));
                        assert(v.creates.contains_key(o));
                        assert(v.creates[o].opening_id != create.opening_id);
                        assert(p.1 != id);
                    }
                }
            }
        }
    }

    /// Removes the pending create of an operation and all of its index entries.
    pub fn remove_create(&mut self, op: CreateFileOperationId) -> (r: Option<CreateOpeningSession>)
        requires
            old(self).inv(),
        ensures
            final(self).inv(),
            final(self)@ == old(self)@.without_create(op),
            r is Some <==> old(self)@.creates.contains_key(op),
            r is Some ==> (r->0)@ == old(self)@.creates[op],
    {
        let ghost before = *self;
        let ghost v = self@;
        let create = match self.create_openings.remove(op) {
            Some(create) => create,
            None => {
                proof {
                    assert(self@.entries =~= v.entries);
                    assert(v.without_create(op).creates =~= v.creates);
                    assert(self@.creates =~= v.creates);
                    assert forall|c: ClientId| #[trigger] self.occupied_sessions_by_client.count(c)
                        == self@.client_occupied(c) by {
                        assert(before.occupied_sessions_by_client.count(c) == v.client_occupied(
                            c,
                        ));
                    }
                    assert forall|i: u64, t: u64| #[trigger] self.ancestor_activity.count(i, t)
                        == self@.activity(InodeId(i), t) by {
                        assert(before.ancestor_activity.count(i, t) == v.activity(InodeId(i), t));
                    }
                }
                return None;
            },
        };
        let ghost c = create@;
        let client = create.open_client_id;
        let at: u64 = create.expires_at_ms;
        let id: u64 = create.opening_id.0;
        proof {
            assert(v.creates.contains_key(op) && v.creates[op] == c);
            total_remove(v.creates, create_client_weight(client), op);
            assert(before.occupied_sessions_by_client.count(client) == v.client_occupied(client));
            assert forall|i: u64| c.parent_ancestor_inode_ids.contains(InodeId(i)) implies #[trigger]
                self.ancestor_activity.count(i, at) > 0 by {
                total_remove(v.creates, create_path_weight(InodeId(i), at), op);
                assert(before.ancestor_activity.count(i, at) == v.activity(InodeId(i), at));
            }
        }
        self.create_openings_by_path.remove(create.mount_id, &create.normalized_path);
        self.create_openings_by_expiry.remove(at, id);
        self.create_opening_operations.remove(&id);
        self.ancestor_activity.take_path(&create.parent_ancestor_inode_ids, at);
        self.occupied_sessions_by_client.take(client);
        proof {
            let w = v.without_create(op);
            assert(self@.entries =~= w.entries);
            assert(self@.creates =~= w.creates);
            assert(self@ == w);
            assert forall|cl: ClientId| #[trigger] self.occupied_sessions_by_client.count(cl)
                == w.client_occupied(cl) by {
                assert(before.occupied_sessions_by_client.count(cl) == v.client_occupied(cl));
                total_remove(v.creates, create_client_weight(cl), op);
            }
            assert forall|i: u64, t: u64| #[trigger] self.ancestor_activity.count(i, t)
                == w.activity(InodeId(i), t) by {
                assert(before.ancestor_activity.count(i, t) == v.activity(InodeId(i), t));
                total_remove(v.creates, create_path_weight(InodeId(i), t), op);
            }
            assert(self.creates_indexed(w.creates)) by {
                assert forall|o: CreateFileOperationId| #[trigger]
                    w.creates.contains_key(o) implies {
                    let x = w.creates[o];
                    &&& self.create_openings_by_path.holder(x.mount_id, x.normalized_path) == Some(
                        o,
                    )
                    &&& self.create_opening_operations@.contains_key(x.opening_id.0)
                    &&& self.create_opening_operations@[x.opening_id.0] == o
                    &&& self.create_openings_by_expiry@.contains((x.expires_at_ms, x.opening_id.0))
                } by {
                    assert(v.creates.contains_key(o));
                }
                assert forall|m: MountId, p: Seq<char>| #[trigger]
                    self.create_openings_by_path.holder(m, p) is Some implies {
                    let o = self.create_openings_by_path.holder(m, p)->0;
                    w.creates.contains_key(o) && w.creates[o].mount_id == m
                        && w.creates[o].normalized_path == p
                } by {
                    assert(before.create_openings_by_path.holder(m, p) is Some);
                }
                assert forall|k: u64| #[trigger]
                    self.create_opening_operations@.contains_key(k) implies {
                    let o = self.create_opening_operations@[k];
                    w.creates.contains_key(o) && w.creates[o].opening_id.0 == k
                } by {
                    assert(before.create_opening_operations@.contains_key(k));
                }
                assert forall|p: (u64, u64)| #[trigger]
                    self.create_openings_by_expiry@.contains(p) implies {
                    let o = self.create_opening_operations@[p.1];
                    &&& self.create_opening_operations@.contains_key(p.1)
                    &&& w.creates[o].expires_at_ms == p.0
                } by {
                    assert(before.create_openings_by_expiry@.contains(p));
                    assert(before.create_opening_operations@.contains_key(p.1));
                }
            }
        }
        Some(create)
    }
}

impl SessionRegistryState {
    proof fn lemma_first_entry(&self, first: Option<(u64, u64)>)
        requires
            self.inv(),
            first is None <==> self.entries_by_expiry@ == Set::<(u64, u64)>::empty(),
            first is Some ==> self.entries_by_expiry@.contains(first->0),
            first is Some ==> forall|p: (u64, u64)|
                self.entries_by_expiry@.contains(p) ==> #[trigger] pair_le(first->0, p),
        ensures
            first is None <==> self@.entries.dom().len() == 0,
            first is Some ==> {
                let p = first->0;
                &&& self@.entries.contains_key(p.1)
                &&& self@.next_entry() == p.1
                &&& self@.entries[p.1].retirement_at_ms() == p.0
            },
    {
        let v = self@;
        match first {
            None => {
                assert forall|k: u64| !v.entries.dom().contains(k) by {
                    if v.entries.contains_key(k) {
                        let p = (v.entries[k].retirement_at_ms(), k);
                        assert(self.entries_by_expiry@.contains(p));
                    }
                }
                assert(v.entries.dom() =~= Set::empty());
            },
            Some(p) => {
                assert(v.entries.dom().contains(p.1));
                assert forall|j: u64| #[trigger] v.entries.contains_key(j) implies pair_le(
                    (v.entries[p.1].retirement_at_ms(), p.1),
                    (v.entries[j].retirement_at_ms(), j),
                ) by {
                    let q = (v.entries[j].retirement_at_ms(), j);
                    assert(self.entries_by_expiry@.contains(q));
                    assert(pair_le(p, q));
                }
                assert(v.is_next_entry(p.1));
                let k = v.next_entry();
                assert(v.is_next_entry(k));
                assert(v.entries.contains_key(k));
                assert(v.entries.contains_key(p.1));
                if v.entries.dom().len() == 0 {
                    assert(v.entries.dom() =~= Set::empty());
                }
            },
        }
    }

    proof fn lemma_first_create(&self, first: Option<(u64, u64)>)
        requires
            self.inv(),
            first is None <==> self.create_openings_by_expiry@ == Set::<(u64, u64)>::empty(),
            first is Some ==> self.create_openings_by_expiry@.contains(first->0),
            first is Some ==> forall|p: (u64, u64)|
                self.create_openings_by_expiry@.contains(p) ==> #[trigger] pair_le(first->0, p),
        ensures
            first is None <==> self@.creates.dom().len() == 0,
            first is Some ==> {
                let p = first->0;
                &&& self.create_opening_operations@.contains_key(p.1)
                &&& self@.next_create() == self.create_opening_operations@[p.1]
                &&& self@.creates.contains_key(self@.next_create())
                &&& self@.creates[self@.next_create()].expires_at_ms == p.0
            },
    {
        let v = self@;
        match first {
            None => {
                assert forall|op: CreateFileOperationId| !v.creates.dom().contains(op) by {
                    if v.creates.contains_key(op) {
                        let p = (v.creates[op].expires_at_ms, v.creates[op].opening_id.0);
                        assert(self.create_openings_by_expiry@.contains(p));
                    }
                }
                assert(v.creates.dom() =~= Set::empty());
            },
            Some(p) => {
                let op = self.create_opening_operations@[p.1];
                assert(self.create_opening_operations@.contains_key(p.1));
                assert(v.creates.contains_key(op));
                assert(v.creates.dom().contains(op));
                assert forall|o: CreateFileOperationId| #[trigger]
                    v.creates.contains_key(o) implies pair_le(
                    (v.creates[op].expires_at_ms, v.creates[op].opening_id.0),
                    (v.creates[o].expires_at_ms, v.creates[o].opening_id.0),
                ) by {
                    let q = (v.creates[o].expires_at_ms, v.creates[o].opening_id.0);
                    assert(self.create_openings_by_expiry@.contains(q));
                    assert(pair_le(p, q));
                }
                assert(v.is_next_create(op));
                let o = v.next_create();
                assert(v.is_next_create(o));
                assert(v.creates.contains_key(o));
                assert(v.creates[o].opening_id.0 == p.1);
                if v.creates.dom().len() == 0 {
                    assert(v.creates.dom() =~= Set::empty());
                }
            },
        }
    }

    /// Retires the earliest expired sessions, within the budget of one sweep. Returns how
    /// many were retired.
    pub fn retire_expired_entries(&mut self, now_ms: u64) -> (r: usize)
        requires
            old(self).inv(),
        ensures
            final(self).inv(),
            final(self)@ == old(self)@.sweep(now_ms),
            r == old(self)@.swept_count(
                now_ms,
                MAX_EXPIRED_SESSION_RETIREMENTS_PER_CALL as nat,
            ),
            r <= MAX_EXPIRED_SESSION_RETIREMENTS_PER_CALL,
    {
        let ghost start = self@;
        let ghost budget = MAX_EXPIRED_SESSION_RETIREMENTS_PER_CALL as nat;
        let mut retired: usize = 0;
        while retired < MAX_EXPIRED_SESSION_RETIREMENTS_PER_CALL
            invariant
                self.inv(),
                start == old(self)@,
                budget == MAX_EXPIRED_SESSION_RETIREMENTS_PER_CALL,
                retired <= MAX_EXPIRED_SESSION_RETIREMENTS_PER_CALL,
                start.swept(now_ms, budget) == self@.swept(now_ms, (budget - retired) as nat),
                start.swept_count(now_ms, budget) == retired + self@.swept_count(
                    now_ms,
                    (budget - retired) as nat,
                ),
            decreases MAX_EXPIRED_SESSION_RETIREMENTS_PER_CALL - retired,
        {
            let session_expiry = self.entries_by_expiry.first();
            let create_expiry = self.create_openings_by_expiry.first();
            proof {
                self.lemma_first_entry(session_expiry);
                self.lemma_first_create(create_expiry);
            }
            let next_is_create = match (session_expiry, create_expiry) {
                (_, None) => false,
                (None, Some(_)) => true,
                (Some(session), Some(create)) => create.0 < session.0,
            };
            assert(next_is_create == self@.create_is_next());
            if next_is_create {
                let (expires_at_ms, opening_id) = match create_expiry {
                    Some(pair) => pair,
                    None => (u64::MAX, 0),
                };
                if expires_at_ms > now_ms {
                    return retired;
                }
                match self.create_opening_operations.get(&opening_id) {
                    Some(operation_id) => {
                        let operation_id = *operation_id;
                        self.remove_create(operation_id);
                    },
                    None => {},
                }
            } else {
                let (expires_at_ms, inode) = match session_expiry {
                    Some(pair) => pair,
                    None => return retired,
                };
                if expires_at_ms > now_ms {
                    return retired;
                }
                self.remove_entry(InodeId(inode));
            }
            retired += 1;
        }
        retired
    }

    /// Retires the entry of one inode if it is expired, even beyond the sweep budget.
    pub fn retire_expired_entry_for_inode(&mut self, inode: InodeId, now_ms: u64) -> (r: bool)
        requires
            old(self).inv(),
        ensures
            final(self).inv(),
            final(self)@ == old(self)@.retire_inode(inode.0, now_ms),
            r == (old(self)@.entries.contains_key(inode.0) && old(
                self,
            )@.entries[inode.0].retirement_at_ms() <= now_ms),
    {
        let is_expired = match self.get_entry(inode) {
            Some(entry) => entry.retirement_at_ms() <= now_ms,
            None => false,
        };
        if is_expired {
            self.remove_entry(inode);
        }
        is_expired
    }

    /// Retires the pending create of one operation if it is expired.
    pub fn retire_expired_create_opening_for_operation(
        &mut self,
        op: CreateFileOperationId,
        now_ms: u64,
    ) -> (r: bool)
        requires
            old(self).inv(),
        ensures
            final(self).inv(),
            final(self)@ == old(self)@.retire_create(op, now_ms),
            r == (old(self)@.creates.contains_key(op) && old(self)@.creates[op].expires_at_ms
                <= now_ms),
    {
        let is_expired = match self.get_create(op) {
            Some(create) => create.expires_at_ms <= now_ms,
            None => false,
        };
        if is_expired {
            self.remove_create(op);
        }
        is_expired
    }

    /// Returns whether a session or create below `inode` is not yet to be retired.
    pub fn has_writes_under(&self, inode: InodeId, now_ms: u64) -> (r: bool)
        requires
            self.inv(),
        ensures
            r == self@.writes_under(inode, now_ms),
    {
        let latest = self.ancestor_activity.latest(inode.0);
        let r = match latest {
            Some(expires_at_ms) => expires_at_ms > now_ms,
            None => false,
        };
        proof {
            let v = self@;
            if r {
                let at = latest->0;
                assert(self.ancestor_activity.count(inode.0, at) == v.activity(
                    InodeId(inode.0),
                    at,
                ));
                assert(InodeId(inode.0) == inode);
                let f = path_weight(inode, at);
                let g = create_path_weight(inode, at);
                total_positive(v.entries, f);
                total_positive(v.creates, g);
                if total(v.entries, f) > 0 {
                    let k = choose|k: u64| v.entries.contains_key(k) && #[trigger] f(v.entries[k])
                        > 0;
                    assert(v.entries.contains_key(k));
                } else {
                    let op = choose|op: CreateFileOperationId|
                        v.creates.contains_key(op) && #[trigger] g(v.creates[op]) > 0;
                    assert(v.creates.contains_key(op));
                }
            }
            if v.writes_under(inode, now_ms) {
                if exists|k: u64| #[trigger]
                    v.entries.contains_key(k) && v.entries[k].ancestors().contains(inode)
                        && v.entries[k].retirement_at_ms() > now_ms {
                    let k = choose|k: u64| #[trigger]
                        v.entries.contains_key(k) && v.entries[k].ancestors().contains(inode)
                            && v.entries[k].retirement_at_ms() > now_ms;
                    let at = v.entries[k].retirement_at_ms();
                    total_remove(v.entries, path_weight(inode, at), k);
                    assert(self.ancestor_activity.count(inode.0, at) == v.activity(
                        InodeId(inode.0),
                        at,
                    ));
                } else {
                    let op = choose|op: CreateFileOperationId| #[trigger]
                        v.creates.contains_key(op)
                            && v.creates[op].parent_ancestor_inode_ids.contains(inode)
                            && v.creates[op].expires_at_ms > now_ms;
                    let at = v.creates[op].expires_at_ms;
                    total_remove(v.creates, create_path_weight(inode, at), op);
                    assert(self.ancestor_activity.count(inode.0, at) == v.activity(
                        InodeId(inode.0),
                        at,
                    ));
                }
            }
        }
        r
    }
}

} // verus!
