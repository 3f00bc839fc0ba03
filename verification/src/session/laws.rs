//! What holds of the session registry across operations.

use vstd::prelude::*;

use crate::fs::{ContentGeneration, WriteMode};
use crate::ids::{BlockId, ClientId, InodeId};
use crate::inode::FileData;
use crate::lease::LeaseEpoch;
use crate::location::LocatedBlockView;
use crate::session::index::{pair_le, CreateFileOperationId};
use crate::session::model::{
    client_weight, create_client_weight, find_step, lemma_find_step, lemma_next_exists,
    lemma_retained_targets, lemma_tidied, lemma_with_counters, lemma_without_create,
    lemma_without_entry, retained_steps, retained_targets, BeginAllocateBlockView,
    BeginCreateSession, RegistryView, WritePublicationView, MAX_EXPIRED_SESSION_RETIREMENTS_PER_CALL,
};
use crate::session::total::total_remove;
use crate::session::types::{
    BeginAllocateBlockError, BeginCreateSessionError, BeginCreateSessionInputView,
    BeginSessionInputView, IssuedStep, PendingAllocateBlock, RegistryLimits, WriteOpeningId,
    WritePublicationId, WriteSessionView,
};

verus! {

/// A sweep retires expired sessions and creates only: what is left was there before, and
/// nothing goes that is not past its retirement time.
pub proof fn swept_keeps_what_is_live(
    v: RegistryView,
    limits: RegistryLimits,
    now_ms: u64,
    budget: nat,
)
    requires
        v.wf(limits),
    ensures
        ({
            let w = v.swept(now_ms, budget);
            &&& forall|k: u64| #[trigger]
                w.entries.contains_key(k) ==> v.entries.contains_key(k) && w.entries[k]
                    == v.entries[k]
            &&& forall|k: u64| #[trigger]
                v.entries.contains_key(k) && v.entries[k].retirement_at_ms() > now_ms
                    ==> w.entries.contains_key(k)
            &&& forall|op: CreateFileOperationId| #[trigger]
                w.creates.contains_key(op) ==> v.creates.contains_key(op) && w.creates[op]
                    == v.creates[op]
            &&& forall|op: CreateFileOperationId| #[trigger]
                v.creates.contains_key(op) && v.creates[op].expires_at_ms > now_ms
                    ==> w.creates.contains_key(op)
            &&& w.next_opening_id == v.next_opening_id
            &&& w.next_publication_id == v.next_publication_id
        }),
    decreases budget,
{
    if budget > 0 && v.has_expired(now_ms) {
        lemma_next_exists(v);
        lemma_without_entry(v, limits, v.next_entry());
        lemma_without_create(v, limits, v.next_create());
        let u = v.without_next();
        swept_keeps_what_is_live(u, limits, now_ms, (budget - 1) as nat);
        let w = v.swept(now_ms, budget);
        assert forall|k: u64| #[trigger] w.entries.contains_key(k) implies v.entries.contains_key(k)
            && w.entries[k] == v.entries[k] by {
            assert(u.entries.contains_key(k));
        }
        assert forall|k: u64| #[trigger]
            v.entries.contains_key(k) && v.entries[k].retirement_at_ms()
                > now_ms implies w.entries.contains_key(k) by {
            assert(u.entries.contains_key(k));
        }
        assert forall|op: CreateFileOperationId| #[trigger]
            w.creates.contains_key(op) implies v.creates.contains_key(op) && w.creates[op]
            == v.creates[op] by {
            assert(u.creates.contains_key(op));
        }
        assert forall|op: CreateFileOperationId| #[trigger]
            v.creates.contains_key(op) && v.creates[op].expires_at_ms
                > now_ms implies w.creates.contains_key(op) by {
            assert(u.creates.contains_key(op));
        }
    }
}

/// A bounded sweep does not change which inodes have a live writer below them, however
/// many expired sessions it leaves behind.
pub proof fn sweep_keeps_live_writes(
    v: RegistryView,
    limits: RegistryLimits,
    inode: InodeId,
    now_ms: u64,
)
    requires
        v.wf(limits),
    ensures
        v.sweep(now_ms).writes_under(inode, now_ms) == v.writes_under(inode, now_ms),
{
    swept_keeps_what_is_live(
        v,
        limits,
        now_ms,
        MAX_EXPIRED_SESSION_RETIREMENTS_PER_CALL as nat,
    );
    let w = v.sweep(now_ms);
    if v.writes_under(inode, now_ms) {
        if exists|k: u64| #[trigger]
            v.entries.contains_key(k) && v.entries[k].ancestors().contains(inode)
                && v.entries[k].retirement_at_ms() > now_ms {
            let k = choose|k: u64| #[trigger]
                v.entries.contains_key(k) && v.entries[k].ancestors().contains(inode)
                    && v.entries[k].retirement_at_ms() > now_ms;
            assert(w.entries.contains_key(k));
        } else {
            let op = choose|op: CreateFileOperationId| #[trigger]
                v.creates.contains_key(op) && v.creates[op].parent_ancestor_inode_ids.contains(
                    inode,
                ) && v.creates[op].expires_at_ms > now_ms;
            assert(w.creates.contains_key(op));
        }
    }
    if w.writes_under(inode, now_ms) {
        if exists|k: u64| #[trigger]
            w.entries.contains_key(k) && w.entries[k].ancestors().contains(inode)
                && w.entries[k].retirement_at_ms() > now_ms {
            let k = choose|k: u64| #[trigger]
                w.entries.contains_key(k) && w.entries[k].ancestors().contains(inode)
                    && w.entries[k].retirement_at_ms() > now_ms;
            assert(v.entries.contains_key(k));
        } else {
            let op = choose|op: CreateFileOperationId| #[trigger]
                w.creates.contains_key(op) && w.creates[op].parent_ancestor_inode_ids.contains(
                    inode,
                ) && w.creates[op].expires_at_ms > now_ms;
            assert(v.creates.contains_key(op));
        }
    }
}

/// Looking at an inode and sweeping leaves a live entry where it is.
pub proof fn tidied_keeps_live_entries(
    v: RegistryView,
    limits: RegistryLimits,
    key: u64,
    now_ms: u64,
    k: u64,
)
    requires
        v.wf(limits),
        v.entries.contains_key(k),
        v.entries[k].retirement_at_ms() > now_ms,
    ensures
        v.tidied(key, now_ms).entries.contains_key(k),
        v.tidied(key, now_ms).entries[k] == v.entries[k],
        v.sweep(now_ms).entries.contains_key(k),
        v.sweep(now_ms).entries[k] == v.entries[k],
{
    lemma_tidied(v, limits, key, now_ms);
    let u = v.retire_inode(key, now_ms);
    assert(u.entries.contains_key(k));
    let budget = MAX_EXPIRED_SESSION_RETIREMENTS_PER_CALL as nat;
    swept_keeps_what_is_live(u, limits, now_ms, budget);
    swept_keeps_what_is_live(v, limits, now_ms, budget);
}

/// Looking at an inode and sweeping issues no identity.
pub proof fn tidied_keeps_counters(
    v: RegistryView,
    limits: RegistryLimits,
    key: u64,
    now_ms: u64,
)
    requires
        v.wf(limits),
    ensures
        v.tidied(key, now_ms).next_opening_id == v.next_opening_id,
        v.tidied(key, now_ms).next_publication_id == v.next_publication_id,
        v.tidied(key, now_ms).wf(limits),
{
    lemma_tidied(v, limits, key, now_ms);
    swept_keeps_what_is_live(
        v.retire_inode(key, now_ms),
        limits,
        now_ms,
        MAX_EXPIRED_SESSION_RETIREMENTS_PER_CALL as nat,
    );
}

/// What is retired first is expired if anything is, and without it one less is expired.
proof fn lemma_next_is_expired(v: RegistryView, now_ms: u64)
    requires
        v.entries.dom().finite(),
        v.creates.dom().finite(),
    ensures
        v.expired_entries(now_ms).finite(),
        v.expired_creates(now_ms).finite(),
        v.has_expired(now_ms) <==> v.expired_count(now_ms) > 0,
        v.has_expired(now_ms) ==> v.without_next().expired_count(now_ms) == v.expired_count(now_ms)
            - 1,
{
    lemma_next_exists(v);
    let entries = v.expired_entries(now_ms);
    let creates = v.expired_creates(now_ms);
    v.entries.dom().lemma_len_filter(|k: u64| v.entries[k].retirement_at_ms() <= now_ms);
    v.creates.dom().lemma_len_filter(
        |o: CreateFileOperationId| v.creates[o].expires_at_ms <= now_ms,
    );
    if v.entries.dom().len() == 0 {
        assert(v.entries.dom() =~= Set::empty());
    }
    if v.creates.dom().len() == 0 {
        assert(v.creates.dom() =~= Set::empty());
    }
    if v.has_expired(now_ms) {
        let u = v.without_next();
        if v.create_is_next() {
            let op = v.next_create();
            assert(creates.contains(op));
            assert(u.expired_creates(now_ms) =~= creates.remove(op));
            assert(u.expired_entries(now_ms) =~= entries);
        } else {
            let key = v.next_entry();
            assert(entries.contains(key));
            assert(u.expired_entries(now_ms) =~= entries.remove(key));
            assert(u.expired_creates(now_ms) =~= creates);
        }
    } else {
        assert forall|k: u64| !#[trigger] entries.contains(k) by {
            if v.entries.contains_key(k) {
                assert(v.entries.dom().contains(k));
            }
        }
        assert forall|o: CreateFileOperationId| !#[trigger] creates.contains(o) by {
            if v.creates.contains_key(o) {
                assert(v.creates.dom().contains(o));
            }
        }
        assert(entries =~= Set::empty());
        assert(creates =~= Set::empty());
    }
}

/// A sweep retires as many expired sessions and creates as there are, up to its budget and
/// never more.
pub proof fn a_sweep_uses_its_budget(
    v: RegistryView,
    limits: RegistryLimits,
    now_ms: u64,
    budget: nat,
)
    requires
        v.wf(limits),
    ensures
        v.swept_count(now_ms, budget) == if v.expired_count(now_ms) <= budget {
            v.expired_count(now_ms)
        } else {
            budget
        },
        v.swept(now_ms, budget).expired_count(now_ms) == v.expired_count(now_ms) - v.swept_count(
            now_ms,
            budget,
        ),
    decreases budget,
{
    lemma_next_is_expired(v, now_ms);
    if budget > 0 && v.has_expired(now_ms) {
        lemma_without_entry(v, limits, v.next_entry());
        lemma_without_create(v, limits, v.next_create());
        a_sweep_uses_its_budget(v.without_next(), limits, now_ms, (budget - 1) as nat);
    }
}

/// A sweep goes by time: nothing that it retires is later than anything that it leaves.
/// Among entries of one time the smaller inode goes first, among creates of one time the one
/// that was opened first, and an entry goes before a create of its time.
pub proof fn a_sweep_retires_the_earliest(
    v: RegistryView,
    limits: RegistryLimits,
    now_ms: u64,
    budget: nat,
)
    requires
        v.wf(limits),
    ensures
        ({
            let w = v.swept(now_ms, budget);
            &&& forall|k: u64, j: u64| #[trigger]
                v.entries.contains_key(k) && !w.entries.contains_key(k) && #[trigger]
                w.entries.contains_key(j) ==> pair_le(
                    (v.entries[k].retirement_at_ms(), k),
                    (v.entries[j].retirement_at_ms(), j),
                )
            &&& forall|k: u64, o: CreateFileOperationId| #[trigger]
                v.entries.contains_key(k) && !w.entries.contains_key(k) && #[trigger]
                w.creates.contains_key(o) ==> v.entries[k].retirement_at_ms()
                    <= v.creates[o].expires_at_ms
            &&& forall|o: CreateFileOperationId, j: u64| #[trigger]
                v.creates.contains_key(o) && !w.creates.contains_key(o) && #[trigger]
                w.entries.contains_key(j) ==> v.creates[o].expires_at_ms
                    < v.entries[j].retirement_at_ms()
            &&& forall|o: CreateFileOperationId, p: CreateFileOperationId| #[trigger]
                v.creates.contains_key(o) && !w.creates.contains_key(o) && #[trigger]
                w.creates.contains_key(p) ==> pair_le(
                    (v.creates[o].expires_at_ms, v.creates[o].opening_id.0),
                    (v.creates[p].expires_at_ms, v.creates[p].opening_id.0),
                )
        }),
    decreases budget,
{
    if budget > 0 && v.has_expired(now_ms) {
        let u = v.without_next();
        lemma_next_exists(v);
        lemma_without_entry(v, limits, v.next_entry());
        lemma_without_create(v, limits, v.next_create());
        swept_keeps_what_is_live(u, limits, now_ms, (budget - 1) as nat);
        a_sweep_retires_the_earliest(u, limits, now_ms, (budget - 1) as nat);
        if v.creates.dom().len() == 0 {
            assert(v.creates.dom() =~= Set::empty());
        }
        if v.entries.dom().len() == 0 {
            assert(v.entries.dom() =~= Set::empty());
        }
        let w = v.swept(now_ms, budget);
        assert(w == u.swept(now_ms, (budget - 1) as nat));
        assert forall|k: u64, o: CreateFileOperationId| #[trigger]
            v.entries.contains_key(k) && !w.entries.contains_key(k) && #[trigger]
            w.creates.contains_key(o) implies v.entries[k].retirement_at_ms()
            <= v.creates[o].expires_at_ms by {
            assert(v.creates.dom().contains(o));
            assert(u.creates.contains_key(o));
            if v.create_is_next() || k != v.next_entry() {
                assert(u.entries.contains_key(k));
            }
        }
        assert forall|o: CreateFileOperationId, j: u64| #[trigger]
            v.creates.contains_key(o) && !w.creates.contains_key(o) && #[trigger]
            w.entries.contains_key(j) implies v.creates[o].expires_at_ms
            < v.entries[j].retirement_at_ms() by {
            assert(v.entries.dom().contains(j));
            assert(u.entries.contains_key(j));
            if !v.create_is_next() || o != v.next_create() {
                assert(u.creates.contains_key(o));
            }
        }
    }
}

/// No capacity limit is ever exceeded: neither of sessions, of the sessions of a client,
/// of targets, nor of the targets of a session.
pub proof fn capacity_is_never_exceeded(v: RegistryView, limits: RegistryLimits)
    requires
        v.wf(limits),
    ensures
        v.occupied() <= limits.max_sessions,
        forall|c: ClientId| #[trigger] v.client_occupied(c) <= limits.max_sessions_per_client,
        v.outstanding() <= limits.max_write_targets,
        forall|k: u64| #[trigger]
            v.entries.contains_key(k) ==> v.entries[k].owned_targets()
                <= limits.max_write_targets_per_session,
{
    assert forall|k: u64| #[trigger]
        v.entries.contains_key(k) implies v.entries[k].owned_targets()
        <= limits.max_write_targets_per_session by {
        assert(v.entry_wf(k, limits));
    }
}

/// While a session of an inode lives, no other session of the inode begins.
pub proof fn a_live_session_excludes_openings(
    v: RegistryView,
    limits: RegistryLimits,
    input: BeginSessionInputView,
    now_ms: u64,
)
    requires
        v.wf(limits),
        v.entries.contains_key(input.inode_id.0),
        v.entries[input.inode_id.0].retirement_at_ms() > now_ms,
    ensures
        v.begin_session(limits, input, now_ms).1 is Err,
        v.begin_session(limits, input, now_ms).0.entries.contains_key(input.inode_id.0),
        v.begin_session(limits, input, now_ms).0.entries[input.inode_id.0]
            == v.entries[input.inode_id.0],
{
    tidied_keeps_live_entries(v, limits, input.inode_id.0, now_ms, input.inode_id.0);
}

/// While a create of a path is pending, neither another create of the path nor a write
/// session on the path begins.
pub proof fn a_pending_create_excludes_its_path(
    v: RegistryView,
    limits: RegistryLimits,
    op: CreateFileOperationId,
    input: BeginSessionInputView,
    create: BeginCreateSessionInputView,
    now_ms: u64,
)
    requires
        v.wf(limits),
        v.creates.contains_key(op),
        v.creates[op].expires_at_ms > now_ms,
        v.creates[op].mount_id == input.mount_id,
        v.creates[op].mount_id == create.mount_id,
        v.creates[op].normalized_path == input.normalized_path,
        v.creates[op].normalized_path == create.normalized_path,
    ensures
        v.begin_session(limits, input, now_ms).1 is Err,
        !(v.begin_create_session(limits, create, now_ms).1 matches Ok(
            BeginCreateSession::Reserved(_),
        )),
{
    let budget = MAX_EXPIRED_SESSION_RETIREMENTS_PER_CALL as nat;
    lemma_tidied(v, limits, input.inode_id.0, now_ms);
    swept_keeps_what_is_live(v.retire_inode(input.inode_id.0, now_ms), limits, now_ms, budget);
    let w = v.tidied(input.inode_id.0, now_ms);
    assert(v.retire_inode(input.inode_id.0, now_ms).creates.contains_key(op));
    assert(w.creates.contains_key(op));
    lemma_without_create(v, limits, create.operation_id);
    let r = v.retire_create(create.operation_id, now_ms);
    assert(r.creates.contains_key(op));
    swept_keeps_what_is_live(r, limits, now_ms, budget);
    assert(r.sweep(now_ms).creates.contains_key(op));
}

/// An owner of an earlier opening cannot remove the opening that replaced it, even where
/// both propose the same epoch.
pub proof fn a_stale_opening_cannot_remove_its_replacement(
    v: RegistryView,
    limits: RegistryLimits,
    input: BeginSessionInputView,
    now_ms: u64,
    stale: WriteOpeningId,
)
    requires
        v.wf(limits),
        v.begin_session(limits, input, now_ms).1 is Ok,
        stale.0 < v.next_opening_id,
    ensures
        ({
            let w = v.begin_session(limits, input, now_ms).0;
            w.cancel_opening(input.inode_id, stale) == w
        }),
{
    tidied_keeps_counters(v, limits, input.inode_id.0, now_ms);
}

/// Every opening and every pending create was issued an identity that is not issued again.
pub proof fn opening_identities_are_fresh(
    v: RegistryView,
    limits: RegistryLimits,
    input: BeginSessionInputView,
    now_ms: u64,
)
    requires
        v.wf(limits),
        v.begin_session(limits, input, now_ms).1 is Ok,
    ensures
        ({
            let w = v.begin_session(limits, input, now_ms).0;
            let issued = v.begin_session(limits, input, now_ms).1->Ok_0.opening_id;
            &&& issued.0 == v.next_opening_id
            &&& w.next_opening_id == v.next_opening_id + 1
            &&& forall|k: u64| #[trigger]
                v.entries.contains_key(k) && v.entries[k] is Opening
                    ==> v.entries[k]->Opening_0.opening_id != issued
            &&& forall|op: CreateFileOperationId| #[trigger]
                v.creates.contains_key(op) ==> v.creates[op].opening_id != issued
        }),
{
    tidied_keeps_counters(v, limits, input.inode_id.0, now_ms);
    assert forall|k: u64| #[trigger]
        v.entries.contains_key(k) && v.entries[k] is Opening implies v.entries[k]->Opening_0.opening_id.0
        < v.next_opening_id by {
        assert(v.entry_wf(k, limits));
    }
    assert forall|op: CreateFileOperationId| #[trigger]
        v.creates.contains_key(op) implies v.creates[op].opening_id.0 < v.next_opening_id by {
        assert(v.create_wf(op));
    }
}

/// An owner of an earlier publication cannot release, or retire the session of, a later
/// one.
pub proof fn a_stale_publication_cannot_touch_a_later_one(
    v: RegistryView,
    limits: RegistryLimits,
    inode: InodeId,
    epoch: LeaseEpoch,
    now_ms: u64,
    stale_epoch: LeaseEpoch,
    stale: WritePublicationId,
)
    requires
        v.wf(limits),
        v.begin_publication(inode, epoch, now_ms).1 is Ok,
        stale.0 < v.next_publication_id,
    ensures
        ({
            let w = v.begin_publication(inode, epoch, now_ms).0;
            &&& w.cancel_publication(inode, stale_epoch, stale) == w
            &&& w.complete_commit_publication(inode, stale_epoch, stale) == w
        }),
{
    tidied_keeps_counters(v, limits, inode.0, now_ms);
    let t = v.tidied(inode.0, now_ms);
    assert(t.entry_wf(inode.0, limits));
}

/// A delayed cleanup for one epoch cannot remove the session of another epoch.
pub proof fn a_delayed_cleanup_cannot_remove_a_newer_session(
    v: RegistryView,
    inode: InodeId,
    stale: LeaseEpoch,
    id: WritePublicationId,
)
    requires
        v.find_session(inode) is Some,
        v.session(inode).lease_epoch != stale,
    ensures
        v.remove_session_if_epoch(inode, stale) == (v, None::<WriteSessionView>),
        v.complete_commit_publication(inode, stale, id) == v,
        v.cancel_publication(inode, stale, id) == v,
{
}

/// Giving an opening up right after it began leaves the registry as one without the
/// attempt, but for the identity that was spent.
pub proof fn releasing_an_opening_undoes_it(
    v: RegistryView,
    limits: RegistryLimits,
    input: BeginSessionInputView,
    now_ms: u64,
)
    requires
        v.wf(limits),
        v.begin_session(limits, input, now_ms).1 is Ok,
    ensures
        ({
            let begun = v.begin_session(limits, input, now_ms);
            let t = v.tidied(input.inode_id.0, now_ms);
            begun.0.cancel_opening(input.inode_id, begun.1->Ok_0.opening_id) == (RegistryView {
                next_opening_id: (v.next_opening_id + 1) as u64,
                ..t
            })
        }),
{
    tidied_keeps_counters(v, limits, input.inode_id.0, now_ms);
    let begun = v.begin_session(limits, input, now_ms);
    let t = v.tidied(input.inode_id.0, now_ms);
    assert(begun.0.entries.remove(input.inode_id.0) =~= t.entries);
}

/// A sweep takes no capacity: neither of the process nor of a client.
pub proof fn a_sweep_takes_no_capacity(
    v: RegistryView,
    limits: RegistryLimits,
    client: ClientId,
    now_ms: u64,
    budget: nat,
)
    requires
        v.wf(limits),
    ensures
        v.swept(now_ms, budget).occupied() <= v.occupied(),
        v.swept(now_ms, budget).client_occupied(client) <= v.client_occupied(client),
    decreases budget,
{
    if budget > 0 && v.has_expired(now_ms) {
        lemma_next_exists(v);
        lemma_without_entry(v, limits, v.next_entry());
        lemma_without_create(v, limits, v.next_create());
        if v.create_is_next() {
            total_remove(v.creates, create_client_weight(client), v.next_create());
        } else {
            total_remove(v.entries, client_weight(client), v.next_entry());
        }
        a_sweep_takes_no_capacity(v.without_next(), limits, client, now_ms, (budget - 1) as nat);
    }
}

/// An opening whose activation fails, for whatever reason and at whatever time, leaves the
/// registry as one without the attempt, but for the identity that was spent. The same session
/// can begin again at once, as long as there are identities.
pub proof fn a_failed_activation_undoes_its_opening(
    v: RegistryView,
    limits: RegistryLimits,
    input: BeginSessionInputView,
    now_ms: u64,
    returned: LeaseEpoch,
    file: FileData,
    tail: Option<LocatedBlockView>,
    activated_at_ms: u64,
    again_ms: u64,
)
    requires
        v.wf(limits),
        v.begin_session(limits, input, now_ms).1 is Ok,
        ({
            let begun = v.begin_session(limits, input, now_ms);
            begun.1->Ok_0.activated(begun.0, limits, returned, activated_at_ms, file, tail).1 is Err
        }),
    ensures
        ({
            let begun = v.begin_session(limits, input, now_ms);
            let failed = begun.1->Ok_0.activated(
                begun.0,
                limits,
                returned,
                activated_at_ms,
                file,
                tail,
            ).0;
            &&& failed == (RegistryView {
                next_opening_id: (v.next_opening_id + 1) as u64,
                ..v.tidied(input.inode_id.0, now_ms)
            })
            &&& failed.next_opening_id < u64::MAX ==> failed.begin_session(
                limits,
                input,
                again_ms,
            ).1 is Ok
        }),
{
    let key = input.inode_id.0;
    let t = v.tidied(key, now_ms);
    releasing_an_opening_undoes_it(v, limits, input, now_ms);
    tidied_keeps_counters(v, limits, key, now_ms);
    let failed = RegistryView { next_opening_id: (v.next_opening_id + 1) as u64, ..t };
    lemma_with_counters(t, limits, failed.next_opening_id, t.next_publication_id);
    let budget = MAX_EXPIRED_SESSION_RETIREMENTS_PER_CALL as nat;
    assert(failed.retire_inode(key, again_ms) == failed);
    swept_keeps_what_is_live(failed, limits, again_ms, budget);
    a_sweep_takes_no_capacity(failed, limits, input.open_client_id, again_ms, budget);
    assert(failed.occupied() == t.occupied());
    assert(failed.client_occupied(input.open_client_id) == t.client_occupied(
        input.open_client_id,
    ));
    let u = failed.tidied(key, again_ms);
    if u.path_held(input.mount_id, input.normalized_path) {
        let op = choose|op: CreateFileOperationId| #[trigger]
            u.creates.contains_key(op) && u.creates[op].mount_id == input.mount_id
                && u.creates[op].normalized_path == input.normalized_path;
        assert(t.creates.contains_key(op));
    }
}

/// Giving a pending create up right after it was reserved releases its capacity and its
/// path.
pub proof fn releasing_a_create_undoes_it(
    v: RegistryView,
    limits: RegistryLimits,
    input: BeginCreateSessionInputView,
    now_ms: u64,
)
    requires
        v.wf(limits),
        v.begin_create_session(limits, input, now_ms).1 matches Ok(
            BeginCreateSession::Reserved(_),
        ),
    ensures
        ({
            let begun = v.begin_create_session(limits, input, now_ms);
            let t = v.retire_create(input.operation_id, now_ms).sweep(now_ms);
            begun.0.cancel_create_opening(
                input.operation_id,
                begun.1->Ok_0->Reserved_0.opening_id,
            ) == (RegistryView { next_opening_id: (t.next_opening_id + 1) as u64, ..t })
        }),
{
    let begun = v.begin_create_session(limits, input, now_ms);
    let t = v.retire_create(input.operation_id, now_ms).sweep(now_ms);
    assert(begun.0.creates.remove(input.operation_id) =~= t.creates);
}

/// Giving a reservation up right after it was made leaves the registry as one without the
/// step.
pub proof fn releasing_a_reservation_undoes_it(
    v: RegistryView,
    limits: RegistryLimits,
    inode: InodeId,
    epoch: LeaseEpoch,
    previous: Option<BlockId>,
    now_ms: u64,
)
    requires
        v.wf(limits),
        v.begin_allocate_block(limits, inode, epoch, previous, now_ms).1 matches Ok(
            BeginAllocateBlockView::Reserved(_),
        ),
    ensures
        v.begin_allocate_block(limits, inode, epoch, previous, now_ms).0.cancel_write_target(
            inode,
            epoch,
            PendingAllocateBlock { previous_block_id: previous },
        ) == v.tidied(inode.0, now_ms),
{
    tidied_keeps_counters(v, limits, inode.0, now_ms);
    let t = v.tidied(inode.0, now_ms);
    assert(t.entry_wf(inode.0, limits));
    let w = v.begin_allocate_block(limits, inode, epoch, previous, now_ms).0;
    let back = w.cancel_write_target(
        inode,
        epoch,
        PendingAllocateBlock { previous_block_id: previous },
    );
    assert(back.session(inode) == t.session(inode));
    assert(back.entries =~= t.entries);
}

/// Giving a publication up right after it began leaves the registry as one without it, but
/// for the identity that was spent.
pub proof fn releasing_a_publication_undoes_it(
    v: RegistryView,
    limits: RegistryLimits,
    inode: InodeId,
    epoch: LeaseEpoch,
    now_ms: u64,
)
    requires
        v.wf(limits),
        v.begin_publication(inode, epoch, now_ms).1 is Ok,
    ensures
        ({
            let begun = v.begin_publication(inode, epoch, now_ms);
            let t = v.tidied(inode.0, now_ms);
            begun.0.cancel_publication(inode, epoch, begun.1->Ok_0.publication_id) == (
            RegistryView { next_publication_id: (v.next_publication_id + 1) as u64, ..t })
        }),
{
    tidied_keeps_counters(v, limits, inode.0, now_ms);
    let t = v.tidied(inode.0, now_ms);
    assert(t.entry_wf(inode.0, limits));
    let begun = v.begin_publication(inode, epoch, now_ms);
    let back = begun.0.cancel_publication(inode, epoch, begun.1->Ok_0.publication_id);
    assert(back.session(inode) == t.session(inode));
    assert(back.entries =~= t.entries);
}

/// A step that was issued is replayed with the same target for as long as the session
/// lives, whatever capacity is left.
pub proof fn an_issued_step_is_replayed(
    v: RegistryView,
    limits: RegistryLimits,
    inode: InodeId,
    epoch: LeaseEpoch,
    pending: PendingAllocateBlock,
    target: LocatedBlockView,
    now_ms: u64,
    later_ms: u64,
)
    requires
        v.wf(limits),
        v.complete_write_target(inode, epoch, pending, target, now_ms).1 is Ok,
        v.complete_write_target(inode, epoch, pending, target, now_ms).0.wf(limits),
        v.complete_write_target(
            inode,
            epoch,
            pending,
            target,
            now_ms,
        ).0.entries[inode.0].retirement_at_ms() > later_ms,
    ensures
        ({
            let w = v.complete_write_target(inode, epoch, pending, target, now_ms).0;
            w.begin_allocate_block(
                limits,
                inode,
                epoch,
                pending.previous_block_id,
                later_ms,
            ).1 == Ok::<BeginAllocateBlockView, BeginAllocateBlockError>(
                BeginAllocateBlockView::Replay(target),
            )
        }),
{
    tidied_keeps_counters(v, limits, inode.0, now_ms);
    let t = v.tidied(inode.0, now_ms);
    assert(t.entry_wf(inode.0, limits));
    let s = t.session(inode);
    let w = v.complete_write_target(inode, epoch, pending, target, now_ms).0;
    let n = w.session(inode);
    tidied_keeps_live_entries(w, limits, inode.0, later_ms, inode.0);
    lemma_find_step(s.issued_steps, pending.previous_block_id);
    lemma_find_step(n.issued_steps, pending.previous_block_id);
    let last = n.issued_steps.len() - 1;
    assert(n.issued_steps[last].previous_block_id == pending.previous_block_id);
    let i = choose|i: int|
        0 <= i < n.issued_steps.len() && #[trigger] n.issued_steps[i] == find_step(
            n.issued_steps,
            pending.previous_block_id,
        )->0 && n.issued_steps[i].previous_block_id == pending.previous_block_id;
    if i < last {
        assert(n.issued_steps[i] == s.issued_steps[i]);
    }
}

/// Every target begins where the capacity of its predecessor ends, and each issued step
/// names the block before its target.
pub proof fn issued_targets_form_a_chain(
    v: RegistryView,
    limits: RegistryLimits,
    inode: InodeId,
)
    requires
        v.wf(limits),
        v.find_session(inode) is Some,
    ensures
        v.session(inode).targets_contiguous(),
        v.session(inode).steps_ok(),
{
    assert(v.entry_wf(inode.0, limits));
}

/// While a publication owns a live session, its issued targets are frozen: no step begins,
/// and none is pending.
pub proof fn a_publication_freezes_the_targets(
    v: RegistryView,
    limits: RegistryLimits,
    inode: InodeId,
    epoch: LeaseEpoch,
    previous: Option<BlockId>,
    now_ms: u64,
)
    requires
        v.wf(limits),
        v.find_session(inode) is Some,
        v.session(inode).active_publication is Some,
        v.entries[inode.0].retirement_at_ms() > now_ms,
    ensures
        v.session(inode).pending_allocate_block is None,
        !(v.begin_allocate_block(limits, inode, epoch, previous, now_ms).1 matches Ok(
            BeginAllocateBlockView::Reserved(_),
        )),
        v.begin_allocate_block(limits, inode, epoch, previous, now_ms).0.session(inode)
            == v.session(inode),
        v.begin_publication(inode, epoch, now_ms).1 is Err,
{
    assert(v.entry_wf(inode.0, limits));
    tidied_keeps_live_entries(v, limits, inode.0, now_ms, inode.0);
}

/// While a step is crossing block allocation, no publication begins on its live session.
pub proof fn a_pending_step_blocks_publication(
    v: RegistryView,
    limits: RegistryLimits,
    inode: InodeId,
    epoch: LeaseEpoch,
    now_ms: u64,
)
    requires
        v.wf(limits),
        v.find_session(inode) is Some,
        v.session(inode).pending_allocate_block is Some,
        v.entries[inode.0].retirement_at_ms() > now_ms,
    ensures
        v.begin_publication(inode, epoch, now_ms).1 is Err,
        v.session(inode).active_publication is None,
{
    assert(v.entry_wf(inode.0, limits));
    tidied_keeps_live_entries(v, limits, inode.0, now_ms, inode.0);
}

/// A submitted publication pins its session at every later time but the last one that can
/// be told: no sweep retires it, and the inode keeps its writer. Only the very end of time
/// is excepted, because the pin is the largest time.
pub proof fn a_submitted_publication_is_pinned(
    v: RegistryView,
    limits: RegistryLimits,
    publication: WritePublicationView,
    now_ms: u64,
    later_ms: u64,
)
    requires
        v.wf(limits),
        !publication.submitted,
        v.mark_submitted(publication, now_ms).1 is Ok,
        v.mark_submitted(publication, now_ms).0.wf(limits),
        later_ms < u64::MAX,
    ensures
        ({
            let inode = publication.session.inode_id;
            let w = v.mark_submitted(publication, now_ms).0;
            &&& w.tidied(inode.0, later_ms).entries.contains_key(inode.0)
            &&& w.tidied(inode.0, later_ms).entries[inode.0] == w.entries[inode.0]
            &&& w.sweep(later_ms).entries.contains_key(inode.0)
            &&& w.writes_under(inode, later_ms)
        }),
{
    let inode = publication.session.inode_id;
    let w = v.mark_submitted(publication, now_ms).0;
    assert(v.entry_wf(inode.0, limits));
    tidied_keeps_live_entries(w, limits, inode.0, later_ms, inode.0);
    let chain = w.entries[inode.0].ancestors();
    assert(chain[chain.len() - 1] == inode);
    assert(chain.contains(inode));
    assert(w.entries.contains_key(inode.0));
}

/// A sync that was installed releases the pin: the session expires by its lease again.
pub proof fn a_completed_sync_releases_the_pin(
    v: RegistryView,
    limits: RegistryLimits,
    inode: InodeId,
    epoch: LeaseEpoch,
    id: WritePublicationId,
    generation: ContentGeneration,
    file_size: u64,
    now_ms: u64,
)
    requires
        v.wf(limits),
        v.complete_sync_publication(inode, epoch, id, generation, file_size, now_ms).1 is Ok,
    ensures
        ({
            let w = v.complete_sync_publication(
                inode,
                epoch,
                id,
                generation,
                file_size,
                now_ms,
            ).0;
            let s = v.tidied(inode.0, now_ms).session(inode);
            &&& w.find_session(inode) is Some
            &&& w.session(inode).active_publication is None
            &&& w.entries[inode.0].retirement_at_ms() == s.expires_at_ms
            &&& w.session(inode).mode == WriteMode::Append
            &&& w.session(inode).base_size == file_size
            &&& w.session(inode).generation == generation
        }),
{
    tidied_keeps_counters(v, limits, inode.0, now_ms);
    let t = v.tidied(inode.0, now_ms);
    assert(t.entry_wf(inode.0, limits));
    assert(t.session(inode).inode_id == inode);
}

/// Whether the issued targets and steps of `n` are what is left of those of `s` below
/// `file_size`: exactly the targets that begin below it, and the steps that lead to them.
pub open spec fn keeps_published_targets(
    s: WriteSessionView,
    n: WriteSessionView,
    file_size: u64,
) -> bool {
    let kept = n.issued_targets.len() as int;
    &&& kept <= s.issued_targets.len()
    &&& n.issued_targets == s.issued_targets.take(kept)
    &&& forall|i: int|
        0 <= i < kept ==> (#[trigger] s.issued_targets[i]).file_offset < file_size
    &&& forall|i: int|
        kept <= i < s.issued_targets.len() ==> (#[trigger] s.issued_targets[i]).file_offset
            >= file_size
    &&& forall|i: int|
        0 <= i < n.issued_steps.len() ==> (#[trigger] n.issued_steps[i]).target_index < kept
    &&& forall|i: int|
        0 <= i < s.issued_steps.len() && (#[trigger] s.issued_steps[i]).target_index < kept
            ==> n.issued_steps.contains(s.issued_steps[i])
}

proof fn lemma_retained_steps_are_bounded(steps: Seq<IssuedStep>, kept: nat)
    ensures
        forall|i: int|
            0 <= i < retained_steps(steps, kept).len() ==> (#[trigger] retained_steps(
                steps,
                kept,
            )[i]).target_index < kept,
    decreases steps.len(),
{
    if steps.len() > 0 {
        lemma_retained_steps_are_bounded(steps.drop_last(), kept);
    }
}

proof fn lemma_step_is_retained(steps: Seq<IssuedStep>, kept: nat, i: int)
    requires
        0 <= i < steps.len(),
        steps[i].target_index < kept,
    ensures
        retained_steps(steps, kept).contains(steps[i]),
    decreases steps.len(),
{
    let rest = retained_steps(steps.drop_last(), kept);
    let all = retained_steps(steps, kept);
    if i == steps.len() - 1 {
        assert(all[all.len() - 1] == steps[i]);
    } else {
        lemma_step_is_retained(steps.drop_last(), kept, i);
        let k = choose|k: int| 0 <= k < rest.len() && rest[k] == steps[i];
        assert(all[k] == steps[i]);
    }
}

proof fn lemma_kept_targets(s: WriteSessionView, n: WriteSessionView, file_size: u64)
    requires
        s.targets_contiguous(),
        n.issued_targets == s.issued_targets.take(
            retained_targets(s.issued_targets, file_size) as int,
        ),
        n.issued_steps == retained_steps(
            s.issued_steps,
            retained_targets(s.issued_targets, file_size),
        ),
    ensures
        keeps_published_targets(s, n, file_size),
{
    let kept = retained_targets(s.issued_targets, file_size);
    lemma_retained_targets(s.issued_targets, file_size);
    lemma_retained_steps_are_bounded(s.issued_steps, kept);
    assert forall|i: int|
        0 <= i < s.issued_steps.len() && (#[trigger] s.issued_steps[i]).target_index
            < kept implies n.issued_steps.contains(s.issued_steps[i]) by {
        lemma_step_is_retained(s.issued_steps, kept, i);
    }
    assert forall|i: int|
        kept <= i < s.issued_targets.len() implies (#[trigger] s.issued_targets[i]).file_offset
        >= file_size by {
        lemma_offsets_increase(s, kept as int, i);
    }
}

/// A sync that changes the contents keeps exactly the targets that begin below the new
/// end, and no step leads to a target that was dropped.
pub proof fn a_sync_drops_the_unpublished_suffix(
    v: RegistryView,
    limits: RegistryLimits,
    inode: InodeId,
    epoch: LeaseEpoch,
    id: WritePublicationId,
    generation: ContentGeneration,
    file_size: u64,
    now_ms: u64,
)
    requires
        v.wf(limits),
        v.complete_sync_publication(inode, epoch, id, generation, file_size, now_ms).1 is Ok,
        v.tidied(inode.0, now_ms).session(inode).generation != generation,
    ensures
        keeps_published_targets(
            v.tidied(inode.0, now_ms).session(inode),
            v.complete_sync_publication(
                inode,
                epoch,
                id,
                generation,
                file_size,
                now_ms,
            ).0.session(inode),
            file_size,
        ),
{
    tidied_keeps_counters(v, limits, inode.0, now_ms);
    let t = v.tidied(inode.0, now_ms);
    assert(t.entry_wf(inode.0, limits));
    let s = t.session(inode);
    let n = v.complete_sync_publication(
        inode,
        epoch,
        id,
        generation,
        file_size,
        now_ms,
    ).0.session(inode);
    lemma_kept_targets(s, n, file_size);
}

/// Targets begin one behind the other.
pub proof fn lemma_offsets_increase(s: WriteSessionView, i: int, j: int)
    requires
        s.targets_contiguous(),
        0 <= i <= j < s.issued_targets.len(),
    ensures
        s.issued_targets[i].file_offset <= s.issued_targets[j].file_offset,
    decreases j - i,
{
    if i < j {
        lemma_offsets_increase(s, i, j - 1);
        assert(s.issued_targets[j - 1].file_offset + s.issued_targets[j - 1].block_size
            == s.issued_targets[j].file_offset);
    }
}

/// A retry of a create that is active returns the response that the create gave, for as
/// long as the session lives, whatever was synced or renewed since.
pub proof fn an_active_create_is_replayed(
    v: RegistryView,
    limits: RegistryLimits,
    input: BeginCreateSessionInputView,
    inode: u64,
    now_ms: u64,
)
    requires
        v.wf(limits),
        v.replays(input.operation_id, inode),
        v.entries[inode].retirement_at_ms() > now_ms,
        input.open_client_id == input.operation_id.client_id,
        crate::session::types::parent_chain_error(input.parent_ancestor_inode_ids) is None,
    ensures
        ({
            let replay = v.entries[inode]->Active_0.create_replay->0;
            let same = RegistryView::same_request(
                input,
                replay.request_deadline_ms,
                replay.normalized_path,
                replay.mount_id,
                replay.expected_mount_epoch,
                replay.mount_root_inode_id,
            );
            v.begin_create_session(limits, input, now_ms).1 == if same {
                Ok::<BeginCreateSession, BeginCreateSessionError>(
                    BeginCreateSession::Replay(replay.response),
                )
            } else {
                Err::<BeginCreateSession, BeginCreateSessionError>(
                    BeginCreateSessionError::IdentityMismatch,
                )
            }
        }),
{
    let op = input.operation_id;
    lemma_without_create(v, limits, op);
    let u = v.retire_create(op, now_ms);
    let budget = MAX_EXPIRED_SESSION_RETIREMENTS_PER_CALL as nat;
    swept_keeps_what_is_live(u, limits, now_ms, budget);
    crate::session::model::lemma_swept(u, limits, now_ms, budget);
    let w = u.sweep(now_ms);
    assert(u.entries.contains_key(inode));
    assert(w.entries.contains_key(inode));
    assert(w.replays(op, inode));
    let k = choose|k: u64| w.replays(op, k);
    assert(w.replays(op, k));
    assert(k == inode);
}

/// What an active create answers on replay is not changed by anything that its session
/// does: renewals, steps, publications and syncs keep it.
pub proof fn session_changes_keep_the_replay(
    v: RegistryView,
    limits: RegistryLimits,
    inode: InodeId,
    epoch: LeaseEpoch,
    client: ClientId,
    id: WritePublicationId,
    generation: ContentGeneration,
    file_size: u64,
    now_ms: u64,
)
    requires
        v.wf(limits),
        v.find_session(inode) is Some,
        v.entries[inode.0].retirement_at_ms() > now_ms,
    ensures
        ({
            let replay = v.session(inode).create_replay;
            let renewed = v.renew_session(limits, inode, epoch, client, now_ms);
            let synced = v.complete_sync_publication(
                inode,
                epoch,
                id,
                generation,
                file_size,
                now_ms,
            );
            let begun = v.begin_publication(inode, epoch, now_ms);
            &&& renewed.1 is Ok ==> renewed.0.session(inode).create_replay == replay
            &&& synced.0.session(inode).create_replay == replay
            &&& begun.0.session(inode).create_replay == replay
        }),
{
    assert(v.entry_wf(inode.0, limits));
    tidied_keeps_live_entries(v, limits, inode.0, now_ms, inode.0);
}

/// A renewal by the owner never moves the lease deadline back, and gives at least the full
/// lifetime where that can be told.
pub proof fn a_renewal_never_shortens_the_lease(
    v: RegistryView,
    limits: RegistryLimits,
    inode: InodeId,
    epoch: LeaseEpoch,
    client: ClientId,
    now_ms: u64,
)
    requires
        v.wf(limits),
        v.renew_session(limits, inode, epoch, client, now_ms).1 is Ok,
    ensures
        ({
            let outcome = v.renew_session(limits, inode, epoch, client, now_ms);
            &&& outcome.0.find_session(inode) is Some
            &&& outcome.0.session(inode).expires_at_ms == outcome.1->Ok_0
            &&& outcome.1->Ok_0 >= v.session(inode).expires_at_ms
            &&& outcome.1->Ok_0 >= RegistryView::expiry(limits, now_ms)
        }),
{
    let budget = MAX_EXPIRED_SESSION_RETIREMENTS_PER_CALL as nat;
    swept_keeps_what_is_live(v, limits, now_ms, budget);
    lemma_tidied(v, limits, inode.0, now_ms);
    let w = v.sweep(now_ms);
    assert(w.entries.contains_key(inode.0));
    assert(w.entry_wf(inode.0, limits));
}

/// A session that is past its deadline and has no submitted publication is not returned,
/// and its inode has no writer because of it.
pub proof fn an_expired_session_is_gone(
    v: RegistryView,
    limits: RegistryLimits,
    inode: InodeId,
    now_ms: u64,
)
    requires
        v.wf(limits),
        v.entries.contains_key(inode.0),
        v.entries[inode.0].retirement_at_ms() <= now_ms,
    ensures
        v.tidied(inode.0, now_ms).find_session(inode) is None,
        !v.tidied(inode.0, now_ms).entries.contains_key(inode.0),
{
    lemma_tidied(v, limits, inode.0, now_ms);
    let u = v.retire_inode(inode.0, now_ms);
    swept_keeps_what_is_live(
        u,
        limits,
        now_ms,
        MAX_EXPIRED_SESSION_RETIREMENTS_PER_CALL as nat,
    );
    if u.sweep(now_ms).entries.contains_key(inode.0) {
        assert(u.entries.contains_key(inode.0));
    }
}

/// A request that is refused changes no session: at most expired ones are gone.
pub proof fn refused_requests_change_no_session(
    v: RegistryView,
    limits: RegistryLimits,
    open: BeginSessionInputView,
    create: BeginCreateSessionInputView,
    inode: InodeId,
    epoch: LeaseEpoch,
    previous: Option<BlockId>,
    now_ms: u64,
)
    requires
        v.wf(limits),
    ensures
        v.begin_session(limits, open, now_ms).1 is Err ==> {
            let w = v.begin_session(limits, open, now_ms).0;
            w == v || w == v.tidied(open.inode_id.0, now_ms)
        },
        v.begin_create_session(limits, create, now_ms).1 is Err ==> {
            let w = v.begin_create_session(limits, create, now_ms).0;
            w == v || w == v.retire_create(create.operation_id, now_ms).sweep(now_ms)
        },
        v.begin_allocate_block(limits, inode, epoch, previous, now_ms).1 is Err
            ==> v.begin_allocate_block(limits, inode, epoch, previous, now_ms).0 == v.tidied(
            inode.0,
            now_ms,
        ),
        v.begin_publication(inode, epoch, now_ms).1 is Err ==> v.begin_publication(
            inode,
            epoch,
            now_ms,
        ).0 == v.tidied(inode.0, now_ms),
{
}

} // verus!
