//! Sums over the values of a finite map. Every capacity counter of the session
//! registry is such a sum.

use vstd::prelude::*;

verus! {

/// The sum of `f` over the values of `m`.
pub open spec fn total<K, V>(m: Map<K, V>, f: spec_fn(V) -> nat) -> nat
    decreases m.dom().len(),
{
    if !m.dom().finite() || m.dom().len() == 0 {
        0
    } else {
        let k = m.dom().choose();
        f(m[k]) + total(m.remove(k), f)
    }
}

/// Taking one key out takes its value out of the sum.
pub proof fn total_remove<K, V>(m: Map<K, V>, f: spec_fn(V) -> nat, k: K)
    requires
        m.dom().finite(),
        m.contains_key(k),
    ensures
        total(m, f) == f(m[k]) + total(m.remove(k), f),
    decreases m.dom().len(),
{
    let c = m.dom().choose();
    assert(m.dom().len() != 0);
    assert(m.dom().contains(c));
    if c != k {
        total_remove(m.remove(c), f, k);
        total_remove(m.remove(k), f, c);
        assert(m.remove(c).remove(k) =~= m.remove(k).remove(c));
    }
}

/// Putting a new key in adds its value to the sum.
pub proof fn total_insert<K, V>(m: Map<K, V>, f: spec_fn(V) -> nat, k: K, v: V)
    requires
        m.dom().finite(),
        !m.contains_key(k),
    ensures
        total(m.insert(k, v), f) == total(m, f) + f(v),
{
    total_remove(m.insert(k, v), f, k);
    assert(m.insert(k, v).remove(k) =~= m);
}

/// Replacing the value of a key replaces its part of the sum.
pub proof fn total_update<K, V>(m: Map<K, V>, f: spec_fn(V) -> nat, k: K, v: V)
    requires
        m.dom().finite(),
        m.contains_key(k),
    ensures
        total(m.insert(k, v), f) + f(m[k]) == total(m, f) + f(v),
        total(m, f) >= f(m[k]),
{
    total_remove(m, f, k);
    total_remove(m.insert(k, v), f, k);
    assert(m.insert(k, v).remove(k) =~= m.remove(k));
}

/// The sum over the empty map is zero.
pub proof fn total_empty<K, V>(f: spec_fn(V) -> nat)
    ensures
        total(Map::<K, V>::empty(), f) == 0,
{
}

/// The sum is positive exactly when some value adds to it.
pub proof fn total_positive<K, V>(m: Map<K, V>, f: spec_fn(V) -> nat)
    requires
        m.dom().finite(),
    ensures
        total(m, f) > 0 <==> exists|k: K| m.contains_key(k) && #[trigger] f(m[k]) > 0,
    decreases m.dom().len(),
{
    if m.dom().len() == 0 {
        assert forall|k: K| !m.contains_key(k) by {
            if m.contains_key(k) {
                assert(m.dom().contains(k));
                assert(m.dom() =~= Set::empty());
            }
        }
    } else {
        let c = m.dom().choose();
        let rest = m.remove(c);
        total_positive(rest, f);
        if total(m, f) > 0 {
            if f(m[c]) > 0 {
                assert(m.contains_key(c) && f(m[c]) > 0);
            } else {
                let k = choose|k: K| rest.contains_key(k) && #[trigger] f(rest[k]) > 0;
                assert(m.contains_key(k) && f(m[k]) > 0);
            }
        }
        if exists|k: K| m.contains_key(k) && #[trigger] f(m[k]) > 0 {
            let k = choose|k: K| m.contains_key(k) && #[trigger] f(m[k]) > 0;
            total_remove(m, f, k);
        }
    }
}

/// A sum of at most one per value is at most the number of keys.
pub proof fn total_at_most_len<K, V>(m: Map<K, V>, f: spec_fn(V) -> nat)
    requires
        m.dom().finite(),
        forall|v: V| #[trigger] f(v) <= 1,
    ensures
        total(m, f) <= m.dom().len(),
    decreases m.dom().len(),
{
    if m.dom().len() != 0 {
        total_at_most_len(m.remove(m.dom().choose()), f);
    }
}

/// A sum is at most another one whose summands are at least as large.
pub proof fn total_monotone<K, V>(m: Map<K, V>, f: spec_fn(V) -> nat, g: spec_fn(V) -> nat)
    requires
        m.dom().finite(),
        forall|v: V| #[trigger] f(v) <= g(v),
    ensures
        total(m, f) <= total(m, g),
    decreases m.dom().len(),
{
    if m.dom().len() != 0 {
        total_monotone(m.remove(m.dom().choose()), f, g);
    }
}

} // verus!
