//! A map keyed by syscall identity.
//!
//! Values live in an array with one slot per table slot; a [`SysnoSet`]
//! tracks which slots are live. Slot `i` holds a value exactly when bit `i`
//! of the set is set, so lookup, insertion and removal are constant-time.

use crate::arch::is_valid_id;
use crate::set::SysnoSet;
use crate::sysno::Sysno;
use crate::text::Textual;
use vstd::pervasive::VecAdditionalExecFns;
use vstd::prelude::*;
use vstd::string::StringExecFns;

verus! {

/// A map built by inserting a sequence of entries in order: a later entry
/// for the same syscall overwrites an earlier one.
pub open spec fn map_of_entries<T>(s: Seq<(Sysno, T)>) -> Map<int, T>
    decreases s.len(),
{
    if s.len() == 0 {
        Map::empty()
    } else {
        map_of_entries(s.drop_last()).insert(s.last().0@, s.last().1)
    }
}

/// A map of syscalls to a type `T`, with constant-time lookup.
pub struct SysnoMap<T> {
    is_set: SysnoSet,
    data: Vec<Option<T>>,
}

impl<T> SysnoMap<T> {
    /// Well-formed maps keep the liveness bitset and the slots in step: a
    /// slot holds a value exactly when its bit is set.
    pub closed spec fn wf(&self) -> bool {
        &&& self.is_set.wf()
        &&& self.data@.len() == 451
        &&& forall|id: int|
            0 <= id < 451 ==> (self.is_set@.contains(id) <==> (#[trigger] self.data@[id]) is Some)
    }
}

/// The domain of a map's view is finite, with at most one member per table
/// slot; for well-formed maps every key is a valid id.
pub proof fn lemma_view_finite<T>(m: SysnoMap<T>)
    ensures
        m@.dom().finite(),
        m@.dom().len() <= 451,
        m.wf() ==> forall|id: int| #[trigger] m@.dom().contains(id) ==> is_valid_id(id),
{
    let range = vstd::set_lib::set_int_range(0, 451);
    vstd::set_lib::lemma_int_range(0, 451);
    assert(m@.dom().subset_of(range));
    vstd::set_lib::lemma_len_subset(m@.dom(), range);
    if m.wf() {
        crate::set::lemma_view_finite(m.is_set);
        assert forall|id: int| #[trigger] m@.dom().contains(id) implies is_valid_id(id) by {
            assert(m.is_set@.contains(id));
        }
    }
}

impl<T> View for SysnoMap<T> {
    type V = Map<int, T>;

    /// The mapping from the id of each live slot to the value it holds.
    closed spec fn view(&self) -> Map<int, T> {
        Map::new(
            |id: int| 0 <= id < 451 && self.data@[id] is Some,
            |id: int| self.data@[id].unwrap(),
        )
    }
}

impl<T> SysnoMap<T> {
    /// Initializes an empty syscall map.
    pub fn new() -> (r: SysnoMap<T>)
        ensures
            r.wf(),
            r@ == Map::<int, T>::empty(),
    {
        let mut data: Vec<Option<T>> = Vec::new();
        let mut i: usize = 0;
        while i < 451
            invariant
                i <= 451,
                data@.len() == i,
                forall|id: int| 0 <= id < i ==> (#[trigger] data@[id]) is None,
            decreases 451 - i,
        {
            data.push(None);
            i = i + 1;
        }
        let r = SysnoMap { is_set: SysnoSet::empty(), data };
        proof {
            assert(r@ =~= Map::<int, T>::empty());
        }
        r
    }

    /// Returns true if the map contains the given syscall.
    pub fn contains_key(&self, sysno: Sysno) -> (r: bool)
        requires
            self.wf(),
        ensures
            r == self@.dom().contains(sysno@),
    {
        proof {
            use_type_invariant(&sysno);
            crate::sysno::lemma_view_is_id(sysno);
        }
        self.is_set.contains(sysno)
    }

    /// Returns true if the map is empty. The whole liveness bitset is
    /// scanned, so the constant overhead is large.
    pub fn is_empty(&self) -> (r: bool)
        requires
            self.wf(),
        ensures
            r == (self@.dom() == Set::<int>::empty()),
    {
        proof {
            crate::set::lemma_view_finite(self.is_set);
            assert(self@.dom() =~= self.is_set@);
        }
        self.is_set.is_empty()
    }

    /// Returns the number of syscalls in the map. The whole liveness bitset
    /// is scanned, so the constant overhead is large.
    pub fn count(&self) -> (r: usize)
        requires
            self.wf(),
        ensures
            r == self@.dom().len(),
    {
        proof {
            crate::set::lemma_view_finite(self.is_set);
            assert(self@.dom() =~= self.is_set@);
        }
        self.is_set.count()
    }

    /// Inserts the given syscall and value into the map. Returns the value
    /// the slot held before, if it was live.
    pub fn insert(&mut self, sysno: Sysno, value: T) -> (r: Option<T>)
        requires
            old(self).wf(),
        ensures
            final(self).wf(),
            final(self)@ == old(self)@.insert(sysno@, value),
            r == (if old(self)@.dom().contains(sysno@) {
                Some(old(self)@[sysno@])
            } else {
                None::<T>
            }),
    {
        proof {
            use_type_invariant(&sysno);
            crate::sysno::lemma_view_is_id(sysno);
        }
        let id = sysno.id() as usize;
        self.is_set.insert(sysno);
        let mut slot: Option<T> = Some(value);
        self.data.set_and_swap(id, &mut slot);
        proof {
            assert(self@ =~= old(self)@.insert(sysno@, value));
            assert(old(self)@.dom().contains(sysno@) == (old(self).data@[sysno@] is Some));
        }
        slot
    }

    /// Removes the given syscall from the map. Returns the value its slot
    /// held, if it was live.
    pub fn remove(&mut self, sysno: Sysno) -> (r: Option<T>)
        requires
            old(self).wf(),
        ensures
            final(self).wf(),
            final(self)@ == old(self)@.remove(sysno@),
            r == (if old(self)@.dom().contains(sysno@) {
                Some(old(self)@[sysno@])
            } else {
                None::<T>
            }),
    {
        proof {
            use_type_invariant(&sysno);
            crate::sysno::lemma_view_is_id(sysno);
        }
        let id = sysno.id() as usize;
        self.is_set.remove(sysno);
        let mut slot: Option<T> = None;
        self.data.set_and_swap(id, &mut slot);
        proof {
            assert(self@ =~= old(self)@.remove(sysno@));
            assert(old(self)@.dom().contains(sysno@) == (old(self).data@[sysno@] is Some));
        }
        slot
    }

    /// Returns a reference to the value corresponding to the given syscall,
    /// or `None` if the syscall is not in the map.
    pub fn get(&self, sysno: Sysno) -> (r: Option<&T>)
        requires
            self.wf(),
        ensures
            match r {
                Some(v) => self@.dom().contains(sysno@) && *v == self@[sysno@],
                None => !self@.dom().contains(sysno@),
            },
    {
        proof {
            use_type_invariant(&sysno);
            crate::sysno::lemma_view_is_id(sysno);
        }
        let id = sysno.id() as usize;
        self.data[id].as_ref()
    }

    /// Clears the map, removing all syscalls.
    pub fn clear(&mut self)
        requires
            old(self).wf(),
        ensures
            final(self).wf(),
            final(self)@ == Map::<int, T>::empty(),
    {
        self.is_set.clear();
        let mut i: usize = 0;
        while i < 451
            invariant
                i <= 451,
                self.data@.len() == 451,
                self.is_set.wf(),
                self.is_set@ == Set::<int>::empty(),
                forall|id: int| 0 <= id < i ==> (#[trigger] self.data@[id]) is None,
            decreases 451 - i,
        {
            self.data.set(i, None);
            i = i + 1;
        }
        proof {
            assert(self@ =~= Map::<int, T>::empty());
        }
    }
}

impl<T: Copy> SysnoMap<T> {
    /// Initializes a syscall map from the given slice of entries. A later
    /// entry overwrites an earlier one with the same syscall.
    pub fn from_slice(slice: &[(Sysno, T)]) -> (r: SysnoMap<T>)
        ensures
            r.wf(),
            r@ == map_of_entries(slice@),
    {
        let mut map = SysnoMap::new();
        let mut i: usize = 0;
        while i < slice.len()
            invariant
                i <= slice@.len(),
                map.wf(),
                map@ == map_of_entries(slice@.take(i as int)),
            decreases slice@.len() - i,
        {
            let entry = slice[i];
            map.insert(entry.0, entry.1);
            proof {
                let pre = slice@.take(i as int);
                let post = slice@.take(i as int + 1);
                assert(post.drop_last() =~= pre);
                assert(post.last() == slice@[i as int]);
            }
            i = i + 1;
        }
        proof {
            assert(slice@.take(slice@.len() as int) =~= slice@);
        }
        map
    }

    /// Initializes every valid syscall in the map with the given value.
    pub fn init_all(default: &T) -> (r: SysnoMap<T>)
        ensures
            r.wf(),
            forall|id: int| #[trigger] r@.dom().contains(id) <==> is_valid_id(id),
            forall|id: int| is_valid_id(id) ==> *default == #[trigger] r@[id],
    {
        let all = Sysno::iter();
        let mut map = SysnoMap::new();
        let mut i: usize = 0;
        while i < all.len()
            invariant
                i <= all@.len(),
                all@.len() == crate::sysno::SYSNO_COUNT,
                forall|k: int|
                    0 <= k < all@.len() ==> (#[trigger] all@[k])@ == crate::sysno::iter_slot_id(k),
                map.wf(),
                forall|id: int|
                    #[trigger] map@.dom().contains(id) <==> (exists|k: int|
                        0 <= k < i && #[trigger] crate::sysno::iter_slot_id(k) == id),
                forall|id: int| map@.dom().contains(id) ==> *default == #[trigger] map@[id],
            decreases all@.len() - i,
        {
            map.insert(all[i], *default);
            proof {
                assert(crate::sysno::iter_slot_id(i as int) == all@[i as int]@);
            }
            i = i + 1;
        }
        proof {
            assert forall|id: int| #[trigger] map@.dom().contains(id) implies is_valid_id(id) by {
                let k = choose|k: int|
                    0 <= k < 362 && #[trigger] crate::sysno::iter_slot_id(k) == id;
            }
            assert forall|id: int| is_valid_id(id) implies map@.dom().contains(id) by {
                if id < 335 {
                    assert(crate::sysno::iter_slot_id(id) == id);
                } else {
                    assert(crate::sysno::iter_slot_id(id - 89) == id);
                }
            }
        }
        map
    }

    /// The live entries of the map in ascending id order.
    fn entries_vec(&self) -> (r: Vec<(Sysno, T)>)
        requires
            self.wf(),
        ensures
            r@.len() == self@.dom().len(),
            forall|k1: int, k2: int| 0 <= k1 < k2 < r@.len() ==> (r@[k1]).0@ < (r@[k2]).0@,
            forall|k: int|
                0 <= k < r@.len() ==> self@.dom().contains((#[trigger] r@[k]).0@) && (r@[k]).1
                    == self@[(r@[k]).0@],
            forall|id: int|
                #[trigger] self@.dom().contains(id) ==> exists|k: int|
                    0 <= k < r@.len() && (#[trigger] r@[k]).0@ == id,
    {
        proof {
            crate::set::lemma_view_finite(self.is_set);
            assert(self@.dom() =~= self.is_set@);
        }
        let n = self.is_set.count();
        let mut it = self.is_set.iter();
        let ghost full = it.remaining();
        let mut out: Vec<(Sysno, T)> = Vec::new();
        let mut i: usize = 0;
        while i < n
            invariant
                self.wf(),
                i <= n,
                n == full.len(),
                it.remaining() == full.skip(i as int),
                out@.len() == i,
                forall|k1: int, k2: int| 0 <= k1 < k2 < full.len() ==> full[k1] < full[k2],
                forall|k: int| 0 <= k < full.len() ==> self.is_set@.contains(#[trigger] full[k]),
                forall|id: int|
                    #[trigger] self.is_set@.contains(id) ==> exists|k: int|
                        0 <= k < full.len() && full[k] == id,
                forall|k: int|
                    0 <= k < out@.len() ==> (#[trigger] out@[k]).0@ == full[k] && (out@[k]).1
                        == self@[full[k]],
            decreases n - i,
        {
            let s = match it.next() {
                Some(s) => s,
                None => unreached(),
            };
            proof {
                use_type_invariant(&s);
                crate::sysno::lemma_view_is_id(s);
                assert(s@ == full[i as int]);
                assert(self.is_set@.contains(s@));
            }
            let id = s.id() as usize;
            let v = match self.data[id].as_ref() {
                Some(v) => *v,
                None => unreached(),
            };
            out.push((s, v));
            i = i + 1;
        }
        proof {
            assert forall|id: int| #[trigger] self@.dom().contains(id) implies exists|k: int|
                0 <= k < out@.len() && (#[trigger] out@[k]).0@ == id by {
                let k = choose|k: int| 0 <= k < full.len() && full[k] == id;
                assert((out@[k]).0@ == id);
            }
        }
        out
    }

    /// Returns an iterator over the (syscall, value) pairs of the map, in
    /// ascending id order.
    pub fn iter(&self) -> (r: SysnoMapIter<T>)
        requires
            self.wf(),
        ensures
            r.remaining().len() == self@.dom().len(),
            forall|k1: int, k2: int|
                0 <= k1 < k2 < r.remaining().len() ==> (r.remaining()[k1]).0 < (
                r.remaining()[k2]).0,
            forall|k: int|
                0 <= k < r.remaining().len() ==> self@.dom().contains(
                    (#[trigger] r.remaining()[k]).0,
                ) && (r.remaining()[k]).1 == self@[(r.remaining()[k]).0],
            forall|id: int|
                #[trigger] self@.dom().contains(id) ==> exists|k: int|
                    0 <= k < r.remaining().len() && (#[trigger] r.remaining()[k]).0 == id,
    {
        let items = self.entries_vec();
        let r = SysnoMapIter { items, pos: 0 };
        proof {
            assert(r.remaining() =~= r.items@.map_values(|p: (Sysno, T)| (p.0@, p.1)));
            assert forall|id: int| #[trigger] self@.dom().contains(id) implies exists|k: int|
                0 <= k < r.remaining().len() && (#[trigger] r.remaining()[k]).0 == id by {
                let k = choose|k: int|
                    0 <= k < r.items@.len() && (#[trigger] r.items@[k]).0@ == id;
                assert((r.remaining()[k]).0 == id);
            }
        }
        r
    }

    /// Returns an iterator over the values of the map, in ascending order of
    /// their syscalls' ids.
    pub fn values(&self) -> (r: SysnoMapValues<T>)
        requires
            self.wf(),
        ensures
            r.remaining().len() == self@.dom().len(),
            forall|k1: int, k2: int|
                0 <= k1 < k2 < r.remaining().len() ==> (r.remaining()[k1]).0 < (
                r.remaining()[k2]).0,
            forall|k: int|
                0 <= k < r.remaining().len() ==> self@.dom().contains(
                    (#[trigger] r.remaining()[k]).0,
                ) && (r.remaining()[k]).1 == self@[(r.remaining()[k]).0],
            forall|id: int|
                #[trigger] self@.dom().contains(id) ==> exists|k: int|
                    0 <= k < r.remaining().len() && (#[trigger] r.remaining()[k]).0 == id,
    {
        let items = self.entries_vec();
        let r = SysnoMapValues { items, pos: 0 };
        proof {
            assert(r.remaining() =~= r.items@.map_values(|p: (Sysno, T)| (p.0@, p.1)));
            assert forall|id: int| #[trigger] self@.dom().contains(id) implies exists|k: int|
                0 <= k < r.remaining().len() && (#[trigger] r.remaining()[k]).0 == id by {
                let k = choose|k: int|
                    0 <= k < r.items@.len() && (#[trigger] r.items@[k]).0@ == id;
                assert((r.remaining()[k]).0 == id);
            }
        }
        r
    }
}

/// The entries of a map rendered as "name: value" pairs, joined with a
/// comma separator.
pub open spec fn map_display_body<T: Textual>(entries: Seq<(int, T)>) -> Seq<char>
    decreases entries.len(),
{
    if entries.len() == 0 {
        Seq::empty()
    } else if entries.len() == 1 {
        crate::arch::sysno_name_seq(entries[0].0) + ": "@ + entries[0].1.text_seq()
    } else {
        map_display_body(entries.drop_last()) + ", "@ + crate::arch::sysno_name_seq(
            entries.last().0,
        ) + ": "@ + entries.last().1.text_seq()
    }
}

impl<T: Copy + Textual> SysnoMap<T> {
    /// The human-readable form of the map: each live entry as its syscall's
    /// name and its value, in ascending id order, between braces.
    pub fn display_string(&self) -> (r: String)
        requires
            self.wf(),
        ensures
            exists|entries: Seq<(int, T)>|
                {
                    &&& (forall|k1: int, k2: int|
                        0 <= k1 < k2 < entries.len() ==> (entries[k1]).0 < (entries[k2]).0)
                    &&& (forall|k: int|
                        0 <= k < entries.len() ==> self@.dom().contains((#[trigger] entries[k]).0)
                            && (entries[k]).1 == self@[(entries[k]).0])
                    &&& (forall|id: int|
                        #[trigger] self@.dom().contains(id) ==> exists|k: int|
                            0 <= k < entries.len() && (#[trigger] entries[k]).0 == id)
                    &&& r@ == "{"@ + map_display_body(entries) + "}"@
                },
    {
        let items = self.entries_vec();
        let ghost full = items@.map_values(|p: (Sysno, T)| (p.0@, p.1));
        let mut s = String::from_str("{");
        let mut i: usize = 0;
        while i < items.len()
            invariant
                self.wf(),
                i <= items@.len(),
                full == items@.map_values(|p: (Sysno, T)| (p.0@, p.1)),
                s@ == "{"@ + map_display_body(full.take(i as int)),
                forall|k1: int, k2: int|
                    0 <= k1 < k2 < items@.len() ==> (items@[k1]).0@ < (items@[k2]).0@,
                forall|k: int|
                    0 <= k < items@.len() ==> self@.dom().contains((#[trigger] items@[k]).0@) && (
                    items@[k]).1 == self@[(items@[k]).0@],
                forall|id: int|
                    #[trigger] self@.dom().contains(id) ==> exists|k: int|
                        0 <= k < items@.len() && (#[trigger] items@[k]).0@ == id,
            decreases items@.len() - i,
        {
            if i > 0 {
                s.append(", ");
            }
            let entry = items[i];
            s.append(entry.0.name());
            s.append(": ");
            s.append(entry.1.text_string().as_str());
            proof {
                let pre = full.take(i as int);
                let post = full.take(i as int + 1);
                assert(post.drop_last() =~= pre);
                assert(post.last() == full[i as int]);
                assert(s@ =~= "{"@ + map_display_body(post));
            }
            i = i + 1;
        }
        s.append("}");
        proof {
            assert(full.take(full.len() as int) =~= full);
            assert forall|id: int| #[trigger] self@.dom().contains(id) implies exists|k: int|
                0 <= k < full.len() && (#[trigger] full[k]).0 == id by {
                let k = choose|k: int| 0 <= k < items@.len() && (#[trigger] items@[k]).0@ == id;
                assert((full[k]).0 == id);
            }
            assert((forall|k1: int, k2: int|
                0 <= k1 < k2 < full.len() ==> (full[k1]).0 < (full[k2]).0) && (forall|k: int|
                0 <= k < full.len() ==> self@.dom().contains((#[trigger] full[k]).0) && (
                full[k]).1 == self@[(full[k]).0]) && (forall|id: int|
                #[trigger] self@.dom().contains(id) ==> exists|k: int|
                    0 <= k < full.len() && (#[trigger] full[k]).0 == id) && s@ == "{"@
                + map_display_body(full) + "}"@);
        }
        s
    }
}

/// An iterator over the (syscall, value) pairs contained in a [`SysnoMap`],
/// yielding them in ascending id order.
pub struct SysnoMapIter<T> {
    items: Vec<(Sysno, T)>,
    pos: usize,
}

impl<T> SysnoMapIter<T> {
    #[verifier::type_invariant]
    spec fn inv(self) -> bool {
        self.pos <= self.items@.len()
    }

    /// The (id, value) pairs not yet yielded, in the order they will come.
    pub closed spec fn remaining(&self) -> Seq<(int, T)> {
        self.items@.map_values(|p: (Sysno, T)| (p.0@, p.1)).skip(self.pos as int)
    }
}

impl<T: Copy> SysnoMapIter<T> {
    /// Yields the next (syscall, value) pair, or `None` when the iterator is
    /// exhausted.
    pub fn next(&mut self) -> (r: Option<(Sysno, T)>)
        ensures
            match r {
                Some(p) => old(self).remaining().len() > 0 && (p.0@, p.1) == old(
                    self,
                ).remaining()[0] && final(self).remaining() == old(self).remaining().skip(1),
                None => old(self).remaining().len() == 0 && final(self).remaining() == old(
                    self,
                ).remaining(),
            },
    {
        proof {
            use_type_invariant(&*self);
        }
        if self.pos < self.items.len() {
            let p = self.items[self.pos];
            self.pos = self.pos + 1;
            proof {
                let m = self.items@.map_values(|q: (Sysno, T)| (q.0@, q.1));
                assert(m.skip(old(self).pos as int + 1) =~= m.skip(old(self).pos as int).skip(1));
            }
            Some(p)
        } else {
            None
        }
    }
}

/// An iterator over the values contained in a [`SysnoMap`], yielding them in
/// ascending order of their syscalls' ids.
pub struct SysnoMapValues<T> {
    items: Vec<(Sysno, T)>,
    pos: usize,
}

impl<T> SysnoMapValues<T> {
    #[verifier::type_invariant]
    spec fn inv(self) -> bool {
        self.pos <= self.items@.len()
    }

    /// The (id, value) pairs whose values are not yet yielded, in the order
    /// they will come.
    pub closed spec fn remaining(&self) -> Seq<(int, T)> {
        self.items@.map_values(|p: (Sysno, T)| (p.0@, p.1)).skip(self.pos as int)
    }
}

impl<T: Copy> SysnoMapValues<T> {
    /// Yields the next value, or `None` when the iterator is exhausted.
    pub fn next(&mut self) -> (r: Option<T>)
        ensures
            match r {
                Some(v) => old(self).remaining().len() > 0 && v == (old(self).remaining()[0]).1
                    && final(self).remaining() == old(self).remaining().skip(1),
                None => old(self).remaining().len() == 0 && final(self).remaining() == old(
                    self,
                ).remaining(),
            },
    {
        proof {
            use_type_invariant(&*self);
        }
        if self.pos < self.items.len() {
            let p = self.items[self.pos];
            self.pos = self.pos + 1;
            proof {
                let m = self.items@.map_values(|q: (Sysno, T)| (q.0@, q.1));
                assert(m.skip(old(self).pos as int + 1) =~= m.skip(old(self).pos as int).skip(1));
            }
            Some(p.1)
        } else {
            None
        }
    }
}

impl<T> Default for SysnoMap<T> {
    /// The default map is the empty map.
    fn default() -> (r: SysnoMap<T>)
        ensures
            r@ == Map::<int, T>::empty(),
            r.wf(),
    {
        SysnoMap::new()
    }
}

} // verus!
