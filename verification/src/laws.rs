//! Relations among the container operations, stated over the views that
//! their contracts use.
//!
//! Each operation's own contract pins how it changes the view of its
//! container; the lemmas here state how those views then behave together,
//! so that the familiar set and map laws are on record and checked.

use vstd::prelude::*;

verus! {

/// After `SysnoSet::insert` of a syscall, `contains` reports it present.
pub proof fn lemma_set_insert_contains(s: Set<int>, x: int)
    ensures
        s.insert(x).contains(x),
{
}

/// After `SysnoSet::remove` of a syscall, `contains` reports it absent.
pub proof fn lemma_set_remove_contains(s: Set<int>, x: int)
    ensures
        !s.remove(x).contains(x),
{
}

/// `SysnoSet::count` tracks insertions: inserting an absent syscall grows
/// the count by one, inserting a present one leaves it unchanged.
pub proof fn lemma_set_insert_count(s: Set<int>, x: int)
    requires
        s.finite(),
    ensures
        s.insert(x).len() == s.len() + (if s.contains(x) {
            0int
        } else {
            1int
        }),
{
    if s.contains(x) {
        assert(s.insert(x) =~= s);
    }
}

/// `SysnoSet::count` tracks removals: removing a present syscall shrinks
/// the count by one, removing an absent one leaves it unchanged.
pub proof fn lemma_set_remove_count(s: Set<int>, x: int)
    requires
        s.finite(),
    ensures
        s.remove(x).len() == s.len() - (if s.contains(x) {
            1int
        } else {
            0int
        }),
{
    if !s.contains(x) {
        assert(s.remove(x) =~= s);
    }
}

/// Membership in a `SysnoSet::union` is membership in either operand.
pub proof fn lemma_union_contains(a: Set<int>, b: Set<int>, x: int)
    ensures
        a.union(b).contains(x) == (a.contains(x) || b.contains(x)),
{
}

/// Membership in a `SysnoSet::intersection` is membership in both operands.
pub proof fn lemma_intersection_contains(a: Set<int>, b: Set<int>, x: int)
    ensures
        a.intersect(b).contains(x) == (a.contains(x) && b.contains(x)),
{
}

/// Membership in a `SysnoSet::difference` is membership in the first
/// operand and not the second.
pub proof fn lemma_difference_contains(a: Set<int>, b: Set<int>, x: int)
    ensures
        a.difference(b).contains(x) == (a.contains(x) && !b.contains(x)),
{
}

/// Membership in a `SysnoSet::symmetric_difference` is membership in
/// exactly one operand.
pub proof fn lemma_symmetric_difference_contains(a: Set<int>, b: Set<int>, x: int)
    ensures
        a.difference(b).union(b.difference(a)).contains(x) == (a.contains(x) != b.contains(x)),
{
}

/// After `SysnoMap::insert` of a key and value, `get` of that key yields
/// that value; other keys are untouched.
pub proof fn lemma_map_insert_get<T>(m: Map<int, T>, k: int, v: T, k2: int)
    ensures
        m.insert(k, v).dom().contains(k),
        m.insert(k, v)[k] == v,
        k2 != k ==> m.insert(k, v).dom().contains(k2) == m.dom().contains(k2),
        k2 != k && m.dom().contains(k2) ==> m.insert(k, v)[k2] == m[k2],
{
}

/// After `SysnoMap::remove` of a key, `get` of that key yields nothing;
/// other keys are untouched.
pub proof fn lemma_map_remove_get<T>(m: Map<int, T>, k: int, k2: int)
    ensures
        !m.remove(k).dom().contains(k),
        k2 != k ==> m.remove(k).dom().contains(k2) == m.dom().contains(k2),
        k2 != k && m.dom().contains(k2) ==> m.remove(k)[k2] == m[k2],
{
}

/// `SysnoMap::count` tracks insertions, like the count of the liveness set
/// that backs it.
pub proof fn lemma_map_insert_count<T>(m: Map<int, T>, k: int, v: T)
    requires
        m.dom().finite(),
    ensures
        m.insert(k, v).dom().len() == m.dom().len() + (if m.dom().contains(k) {
            0int
        } else {
            1int
        }),
{
    assert(m.insert(k, v).dom() =~= m.dom().insert(k));
    lemma_set_insert_count(m.dom(), k);
}

/// `SysnoMap::count` tracks removals, like the count of the liveness set
/// that backs it.
pub proof fn lemma_map_remove_count<T>(m: Map<int, T>, k: int)
    requires
        m.dom().finite(),
    ensures
        m.remove(k).dom().len() == m.dom().len() - (if m.dom().contains(k) {
            1int
        } else {
            0int
        }),
{
    assert(m.remove(k).dom() =~= m.dom().remove(k));
    lemma_set_remove_count(m.dom(), k);
}

} // verus!
