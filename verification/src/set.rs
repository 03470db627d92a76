//! A bit-packed set of syscalls.
//!
//! One bit per slot of the syscall table, stored in machine words; bit `i`
//! stands for the syscall with id `i`. Lookup, insertion and removal touch a
//! single word.

use crate::arch::is_valid_id;
use crate::sysno::Sysno;
use vstd::prelude::*;
use vstd::std_specs::bits::u64_trailing_zeros;
use vstd::string::StringExecFns;

verus! {

/// Number of storage words of 64 bits each: enough for one bit per slot of
/// the table.
pub const SET_WORDS: usize = 8;

/// The number of bits of a value of type `T`, at the specification level;
/// capped at the largest machine word when the product would not fit.
pub open spec fn spec_bits_per<T>() -> int {
    if vstd::layout::size_of::<T>() * 8 <= usize::MAX {
        vstd::layout::size_of::<T>() as int * 8
    } else {
        usize::MAX as int
    }
}

/// The number of bits of a value of type `T`, saturating at the largest
/// machine word.
pub fn bits_per<T>() -> (r: usize)
    ensures
        r == spec_bits_per::<T>(),
{
    match core::mem::size_of::<T>().checked_mul(8) {
        Some(x) => x,
        None => usize::MAX,
    }
}

/// Returns the number of words of type `T` required to hold the specified
/// number of bits; zero for a zero-sized type.
pub fn words<T>(bits: usize) -> (r: usize)
    ensures
        spec_bits_per::<T>() == 0 ==> r == 0,
        spec_bits_per::<T>() > 0 ==> r == bits as int / spec_bits_per::<T>() + (if bits as int
            % spec_bits_per::<T>() != 0 {
            1int
        } else {
            0int
        }),
{
    let width = bits_per::<T>();
    if width == 0 {
        return 0;
    }
    let q = bits / width;
    if bits % width != 0 {
        proof {
            assert(width != 1);
            assert(bits as int / width as int <= bits as int / 2) by (nonlinear_arith)
                requires
                    2 <= width,
                    0 <= bits,
            ;
        }
        q + 1
    } else {
        q
    }
}

/// A set of syscalls, with constant-time lookup in a bitset.
#[derive(Clone, Copy, Eq, PartialEq, Debug)]
pub struct SysnoSet {
    data: [u64; SET_WORDS],
}

impl SysnoSet {
    /// The bit of table slot `id`.
    pub closed spec fn spec_bit(&self, id: int) -> bool {
        ((self.data@[id / 64] >> ((id % 64) as u64)) & 1u64) == 1u64
    }

    /// Well-formed sets only carry bits for ids that name a syscall.
    pub closed spec fn wf(&self) -> bool {
        forall|id: int| 0 <= id < 512 && #[trigger] self.spec_bit(id) ==> is_valid_id(id)
    }
}

impl View for SysnoSet {
    type V = Set<int>;

    /// The set of syscall ids whose bit is set.
    closed spec fn view(&self) -> Set<int> {
        Set::new(|id: int| 0 <= id < 512 && self.spec_bit(id))
    }
}

/// The view of a well-formed set holds only valid ids, and is finite with at
/// most one member per table slot.
pub proof fn lemma_view_finite(s: SysnoSet)
    ensures
        s@.finite(),
        s@.len() <= 512,
        s.wf() ==> forall|id: int| #[trigger] s@.contains(id) ==> is_valid_id(id),
{
    let range = vstd::set_lib::set_int_range(0, 512);
    vstd::set_lib::lemma_int_range(0, 512);
    assert(s@.subset_of(range));
    vstd::set_lib::lemma_len_subset(s@, range);
}

/// How setting bit `j` of a word changes each bit of the word.
proof fn lemma_or_mask(w: u64, j: u64, k: u64)
    requires
        j < 64,
        k < 64,
    ensures
        ((w | (1u64 << j)) >> k) & 1u64 == (if k == j {
            1u64
        } else {
            (w >> k) & 1u64
        }),
{
    assert(j < 64 && k < 64 ==> ((w | (1u64 << j)) >> k) & 1u64 == (if k == j {
        1u64
    } else {
        (w >> k) & 1u64
    })) by (bit_vector);
}

/// How clearing bit `j` of a word changes each bit of the word.
proof fn lemma_andnot_mask(w: u64, j: u64, k: u64)
    requires
        j < 64,
        k < 64,
    ensures
        ((w & !(1u64 << j)) >> k) & 1u64 == (if k == j {
            0u64
        } else {
            (w >> k) & 1u64
        }),
{
    assert(j < 64 && k < 64 ==> ((w & !(1u64 << j)) >> k) & 1u64 == (if k == j {
        0u64
    } else {
        (w >> k) & 1u64
    })) by (bit_vector);
}

/// Testing a bit through a mask agrees with testing it through a shift.
proof fn lemma_test_mask(w: u64, j: u64)
    requires
        j < 64,
    ensures
        (w & (1u64 << j)) != 0 <==> ((w >> j) & 1u64) == 1u64,
{
    assert(j < 64 ==> ((w & (1u64 << j)) != 0 <==> ((w >> j) & 1u64) == 1u64)) by (bit_vector);
}

/// Each bit of a word-wise `or` is the disjunction of the operand bits.
proof fn lemma_or_bits(a: u64, b: u64, k: u64)
    requires
        k < 64,
    ensures
        ((a | b) >> k) & 1u64 == 1u64 <==> ((a >> k) & 1u64 == 1u64 || (b >> k) & 1u64 == 1u64),
{
    assert(k < 64 ==> (((a | b) >> k) & 1u64 == 1u64 <==> ((a >> k) & 1u64 == 1u64 || (b >> k)
        & 1u64 == 1u64))) by (bit_vector);
}

/// Each bit of a word-wise `and` is the conjunction of the operand bits.
proof fn lemma_and_bits(a: u64, b: u64, k: u64)
    requires
        k < 64,
    ensures
        ((a & b) >> k) & 1u64 == 1u64 <==> ((a >> k) & 1u64 == 1u64 && (b >> k) & 1u64 == 1u64),
{
    assert(k < 64 ==> (((a & b) >> k) & 1u64 == 1u64 <==> ((a >> k) & 1u64 == 1u64 && (b >> k)
        & 1u64 == 1u64))) by (bit_vector);
}

/// Each bit of a word-wise `and not` keeps a bit exactly when the first
/// operand has it and the second does not.
proof fn lemma_andnot_bits(a: u64, b: u64, k: u64)
    requires
        k < 64,
    ensures
        ((a & !b) >> k) & 1u64 == 1u64 <==> ((a >> k) & 1u64 == 1u64 && !((b >> k) & 1u64
            == 1u64)),
{
    assert(k < 64 ==> (((a & !b) >> k) & 1u64 == 1u64 <==> ((a >> k) & 1u64 == 1u64 && !((b >> k)
        & 1u64 == 1u64)))) by (bit_vector);
}

/// Each bit of a word-wise `xor` is set exactly when the operand bits differ.
proof fn lemma_xor_bits(a: u64, b: u64, k: u64)
    requires
        k < 64,
    ensures
        ((a ^ b) >> k) & 1u64 == 1u64 <==> (((a >> k) & 1u64 == 1u64) != ((b >> k) & 1u64
            == 1u64)),
{
    assert(k < 64 ==> (((a ^ b) >> k) & 1u64 == 1u64 <==> (((a >> k) & 1u64 == 1u64) != ((b >> k)
        & 1u64 == 1u64)))) by (bit_vector);
}

/// The zero word has no bit set.
proof fn lemma_zero_bits(k: u64)
    requires
        k < 64,
    ensures
        (0u64 >> k) & 1u64 == 0u64,
{
    assert(k < 64 ==> (0u64 >> k) & 1u64 == 0u64) by (bit_vector);
}

impl SysnoSet {
    /// Computes the index and mask for the given syscall as stored in the
    /// set data: the single source of truth for the bit layout.
    pub(crate) fn get_idx_mask(sysno: Sysno) -> (r: (usize, u64))
        ensures
            r.0 == sysno@ / 64 < 8,
            r.1 == 1u64 << ((sysno@ % 64) as u64),
            0 <= sysno@ < 451,
            is_valid_id(sysno@),
    {
        proof {
            use_type_invariant(&sysno);
            crate::sysno::lemma_view_is_id(sysno);
        }
        let id = sysno.id() as usize;
        (id / 64, 1u64 << ((id % 64) as u64))
    }

    /// Creates an empty set of syscalls.
    pub fn empty() -> (r: SysnoSet)
        ensures
            r@ == Set::<int>::empty(),
            r.wf(),
    {
        let r = SysnoSet { data: [0u64, 0u64, 0u64, 0u64, 0u64, 0u64, 0u64, 0u64] };
        proof {
            assert forall|id: int| 0 <= id < 512 implies !r.spec_bit(id) by {
                lemma_zero_bits((id % 64) as u64);
            }
            assert(r@ =~= Set::<int>::empty());
        }
        r
    }

    /// Returns true if the set contains the given syscall.
    pub fn contains(&self, sysno: Sysno) -> (r: bool)
        ensures
            r == self@.contains(sysno@),
    {
        let (idx, mask) = Self::get_idx_mask(sysno);
        proof {
            lemma_test_mask(self.data@[sysno@ / 64], (sysno@ % 64) as u64);
        }
        (self.data[idx] & mask) != 0
    }

    /// Inserts the given syscall into the set. Returns true if the syscall
    /// was not already in the set.
    pub fn insert(&mut self, sysno: Sysno) -> (r: bool)
        requires
            old(self).wf(),
        ensures
            final(self).wf(),
            final(self)@ == old(self)@.insert(sysno@),
            r == !old(self)@.contains(sysno@),
    {
        let (idx, mask) = Self::get_idx_mask(sysno);
        let ghost j = (sysno@ % 64) as u64;
        let old_word = self.data[idx];
        self.data[idx] = old_word | mask;
        proof {
            lemma_test_mask(old_word, j);
            assert forall|i: int| 0 <= i < 512 implies self.spec_bit(i) == (old(self).spec_bit(i)
                || i == sysno@) by {
                if i / 64 == idx {
                    lemma_or_mask(old_word, j, (i % 64) as u64);
                } else {
                    assert(self.data@[i / 64] == old(self).data@[i / 64]);
                }
            }
            assert(self@ =~= old(self)@.insert(sysno@));
        }
        (old_word & mask) == 0
    }

    /// Removes the given syscall from the set. Returns true if the syscall
    /// was in the set.
    pub fn remove(&mut self, sysno: Sysno) -> (r: bool)
        requires
            old(self).wf(),
        ensures
            final(self).wf(),
            final(self)@ == old(self)@.remove(sysno@),
            r == old(self)@.contains(sysno@),
    {
        let (idx, mask) = Self::get_idx_mask(sysno);
        let ghost j = (sysno@ % 64) as u64;
        let old_word = self.data[idx];
        self.data[idx] = old_word & !mask;
        proof {
            lemma_test_mask(old_word, j);
            assert forall|i: int| 0 <= i < 512 implies self.spec_bit(i) == (old(self).spec_bit(i)
                && i != sysno@) by {
                if i / 64 == idx {
                    lemma_andnot_mask(old_word, j, (i % 64) as u64);
                } else {
                    assert(self.data@[i / 64] == old(self).data@[i / 64]);
                }
            }
            assert(self@ =~= old(self)@.remove(sysno@));
        }
        (old_word & mask) != 0
    }

    /// Clears the set, removing all syscalls.
    pub fn clear(&mut self)
        ensures
            final(self).wf(),
            final(self)@ == Set::<int>::empty(),
    {
        let mut i: usize = 0;
        while i < 8
            invariant
                i <= 8,
                forall|k: int| 0 <= k < i ==> self.data@[k] == 0u64,
            decreases 8 - i,
        {
            self.data[i] = 0u64;
            i = i + 1;
        }
        proof {
            assert forall|id: int| 0 <= id < 512 implies !self.spec_bit(id) by {
                lemma_zero_bits((id % 64) as u64);
            }
            assert(self@ =~= Set::<int>::empty());
        }
    }
}

/// A slot number splits into its word index and its bit position.
proof fn lemma_slot_decompose(wi: int, j: int)
    requires
        0 <= wi,
        0 <= j < 64,
    ensures
        (wi * 64 + j) / 64 == wi,
        (wi * 64 + j) % 64 == j,
{
    assert((wi * 64 + j) / 64 == wi && (wi * 64 + j) % 64 == j) by (nonlinear_arith)
        requires
            0 <= wi,
            0 <= j < 64,
    ;
}

/// The members of `s` that lie below `n`.
spec fn below(s: Set<int>, n: int) -> Set<int> {
    s.intersect(vstd::set_lib::set_int_range(0, n))
}

/// Counting members one slot at a time: moving the bound up by one adds the
/// slot itself when it is a member, and nothing otherwise.
proof fn lemma_below_step(s: Set<int>, n: int)
    requires
        s.finite(),
        0 <= n,
    ensures
        below(s, n).finite(),
        below(s, n + 1).len() == below(s, n).len() + (if s.contains(n) {
            1int
        } else {
            0int
        }),
{
    assert(below(s, n).subset_of(s));
    assert(below(s, n + 1).subset_of(s));
    vstd::set_lib::lemma_len_subset(below(s, n), s);
    vstd::set_lib::lemma_len_subset(below(s, n + 1), s);
    if s.contains(n) {
        assert(below(s, n + 1) =~= below(s, n).insert(n));
        assert(!below(s, n).contains(n));
    } else {
        assert(below(s, n + 1) =~= below(s, n));
    }
}

impl SysnoSet {
    /// Initializes the syscall set with the given slice of syscalls.
    pub fn new(syscalls: &[Sysno]) -> (r: SysnoSet)
        ensures
            r.wf(),
            forall|id: int|
                #[trigger] r@.contains(id) <==> (exists|k: int|
                    0 <= k < syscalls@.len() && (#[trigger] syscalls@[k])@ == id),
    {
        let mut set = SysnoSet::empty();
        let mut i: usize = 0;
        while i < syscalls.len()
            invariant
                i <= syscalls@.len(),
                set.wf(),
                forall|id: int|
                    #[trigger] set@.contains(id) <==> (exists|k: int|
                        0 <= k < i && (#[trigger] syscalls@[k])@ == id),
            decreases syscalls@.len() - i,
        {
            set.insert(syscalls[i]);
            i = i + 1;
        }
        set
    }

    /// Creates a set containing all valid syscalls.
    pub fn all() -> (r: SysnoSet)
        ensures
            r.wf(),
            forall|id: int| #[trigger] r@.contains(id) <==> is_valid_id(id),
    {
        let mut set = SysnoSet::empty();
        let mut i: u32 = 0;
        while i <= 334
            invariant
                i <= 335,
                set.wf(),
                forall|id: int| #[trigger] set@.contains(id) <==> 0 <= id < i,
            decreases 335 - i,
        {
            set.insert(Sysno::from_valid(i));
            i = i + 1;
        }
        let mut j: u32 = 424;
        while j <= 450
            invariant
                424 <= j <= 451,
                set.wf(),
                forall|id: int|
                    #[trigger] set@.contains(id) <==> (0 <= id < 335 || 424 <= id < j),
            decreases 451 - j,
        {
            set.insert(Sysno::from_valid(j));
            j = j + 1;
        }
        set
    }

    /// Returns true if the set is empty. The whole backing storage is
    /// scanned, so the constant overhead is large.
    pub fn is_empty(&self) -> (r: bool)
        ensures
            r == (self@ == Set::<int>::empty()),
    {
        let mut i: usize = 0;
        while i < 8
            invariant
                i <= 8,
                forall|k: int| 0 <= k < i ==> self.data@[k] == 0u64,
            decreases 8 - i,
        {
            if self.data[i] != 0 {
                proof {
                    let w = self.data@[i as int];
                    vstd::std_specs::bits::axiom_u64_trailing_zeros(w);
                    let j = u64_trailing_zeros(w) as int;
                    lemma_slot_decompose(i as int, j);
                    assert(self.spec_bit(i as int * 64 + j));
                    assert(self@.contains(i as int * 64 + j));
                }
                return false;
            }
            i = i + 1;
        }
        proof {
            assert forall|id: int| 0 <= id < 512 implies !self.spec_bit(id) by {
                lemma_zero_bits((id % 64) as u64);
            }
            assert(self@ =~= Set::<int>::empty());
        }
        true
    }

    /// Returns the number of syscalls in the set. The whole backing storage
    /// is scanned, so the constant overhead is large.
    pub fn count(&self) -> (r: usize)
        ensures
            r == self@.len(),
    {
        proof {
            lemma_view_finite(*self);
            assert(below(self@, 0) =~= Set::<int>::empty());
        }
        let mut total: usize = 0;
        let mut wi: usize = 0;
        while wi < 8
            invariant
                wi <= 8,
                self@.finite(),
                total == below(self@, wi as int * 64).len(),
                total <= wi * 64,
            decreases 8 - wi,
        {
            let w = self.data[wi];
            let mut j: usize = 0;
            while j < 64
                invariant
                    wi < 8,
                    j <= 64,
                    self@.finite(),
                    w == self.data@[wi as int],
                    total == below(self@, wi as int * 64 + j).len(),
                    total <= wi * 64 + j,
                decreases 64 - j,
            {
                let ghost id = wi as int * 64 + j as int;
                proof {
                    lemma_slot_decompose(wi as int, j as int);
                    lemma_below_step(self@, id);
                    assert(self@.contains(id) == ((w >> (j as u64)) & 1u64 == 1u64));
                }
                if (w >> (j as u64)) & 1 == 1 {
                    total = total + 1;
                }
                j = j + 1;
            }
            wi = wi + 1;
        }
        proof {
            assert(below(self@, 512) =~= self@);
        }
        total
    }

    /// Does a set union with this set and another.
    #[must_use]
    pub fn union(self, other: &SysnoSet) -> (r: SysnoSet)
        requires
            self.wf(),
            other.wf(),
        ensures
            r.wf(),
            r@ == self@.union(other@),
    {
        let mut data = self.data;
        let mut i: usize = 0;
        while i < 8
            invariant
                i <= 8,
                forall|k: int| i <= k < 8 ==> data@[k] == self.data@[k],
                forall|k: int| 0 <= k < i ==> data@[k] == (self.data@[k] | other.data@[k]),
            decreases 8 - i,
        {
            data[i] = data[i] | other.data[i];
            i = i + 1;
        }
        let r = SysnoSet { data };
        proof {
            assert forall|id: int| 0 <= id < 512 implies r.spec_bit(id) == (self.spec_bit(id)
                || other.spec_bit(id)) by {
                lemma_or_bits(self.data@[id / 64], other.data@[id / 64], (id % 64) as u64);
            }
            assert(r@ =~= self@.union(other@));
        }
        r
    }

    /// Does a set intersection with this set and another.
    #[must_use]
    pub fn intersection(self, other: &SysnoSet) -> (r: SysnoSet)
        requires
            self.wf(),
            other.wf(),
        ensures
            r.wf(),
            r@ == self@.intersect(other@),
    {
        let mut data = self.data;
        let mut i: usize = 0;
        while i < 8
            invariant
                i <= 8,
                forall|k: int| i <= k < 8 ==> data@[k] == self.data@[k],
                forall|k: int| 0 <= k < i ==> data@[k] == (self.data@[k] & other.data@[k]),
            decreases 8 - i,
        {
            data[i] = data[i] & other.data[i];
            i = i + 1;
        }
        let r = SysnoSet { data };
        proof {
            assert forall|id: int| 0 <= id < 512 implies r.spec_bit(id) == (self.spec_bit(id)
                && other.spec_bit(id)) by {
                lemma_and_bits(self.data@[id / 64], other.data@[id / 64], (id % 64) as u64);
            }
            assert(r@ =~= self@.intersect(other@));
        }
        r
    }

    /// Calculates the difference with this set and another: the syscalls in
    /// `self` but not in `other`.
    #[must_use]
    pub fn difference(self, other: &SysnoSet) -> (r: SysnoSet)
        requires
            self.wf(),
            other.wf(),
        ensures
            r.wf(),
            r@ == self@.difference(other@),
    {
        let mut data = self.data;
        let mut i: usize = 0;
        while i < 8
            invariant
                i <= 8,
                forall|k: int| i <= k < 8 ==> data@[k] == self.data@[k],
                forall|k: int| 0 <= k < i ==> data@[k] == (self.data@[k] & !other.data@[k]),
            decreases 8 - i,
        {
            data[i] = data[i] & !other.data[i];
            i = i + 1;
        }
        let r = SysnoSet { data };
        proof {
            assert forall|id: int| 0 <= id < 512 implies r.spec_bit(id) == (self.spec_bit(id)
                && !other.spec_bit(id)) by {
                lemma_andnot_bits(self.data@[id / 64], other.data@[id / 64], (id % 64) as u64);
            }
            assert(r@ =~= self@.difference(other@));
        }
        r
    }

    /// Calculates the symmetric difference with this set and another: the
    /// syscalls in `self` or in `other`, but not in both.
    #[must_use]
    pub fn symmetric_difference(self, other: &SysnoSet) -> (r: SysnoSet)
        requires
            self.wf(),
            other.wf(),
        ensures
            r.wf(),
            r@ == self@.difference(other@).union(other@.difference(self@)),
    {
        let mut data = self.data;
        let mut i: usize = 0;
        while i < 8
            invariant
                i <= 8,
                forall|k: int| i <= k < 8 ==> data@[k] == self.data@[k],
                forall|k: int| 0 <= k < i ==> data@[k] == (self.data@[k] ^ other.data@[k]),
            decreases 8 - i,
        {
            data[i] = data[i] ^ other.data[i];
            i = i + 1;
        }
        let r = SysnoSet { data };
        proof {
            assert forall|id: int| 0 <= id < 512 implies r.spec_bit(id) == (self.spec_bit(id)
                != other.spec_bit(id)) by {
                lemma_xor_bits(self.data@[id / 64], other.data@[id / 64], (id % 64) as u64);
            }
            assert(r@ =~= self@.difference(other@).union(other@.difference(self@)));
        }
        r
    }
}

/// Clearing the lowest set bit of a word: when bit `j` is set and all bits
/// below it are clear, `w & (w - 1)` clears exactly bit `j`, and shrinks the
/// word.
proof fn lemma_clear_lowest(w: u64, j: u64, k: u64)
    requires
        j < 64,
        k < 64,
        (w >> j) & 1u64 == 1u64,
        w << vstd::prelude::sub(64u64, j) == 0,
    ensures
        ((w & vstd::prelude::sub(w, 1)) >> k) & 1u64 == (if k == j {
            0u64
        } else {
            (w >> k) & 1u64
        }),
        w & vstd::prelude::sub(w, 1) < w,
{
    assert(j < 64 && k < 64 && (w >> j) & 1u64 == 1u64 && w << vstd::prelude::sub(64u64, j) == 0 ==> (((w
        & vstd::prelude::sub(w, 1)) >> k) & 1u64 == (if k == j {
        0u64
    } else {
        (w >> k) & 1u64
    }) && w & vstd::prelude::sub(w, 1) < w)) by (bit_vector);
}

impl SysnoSet {
    /// The members of the set in ascending id order, produced by scanning
    /// non-zero words and repeatedly extracting the lowest set bit.
    fn members_vec(&self) -> (r: Vec<Sysno>)
        requires
            self.wf(),
        ensures
            r@.len() == self@.len(),
            forall|k1: int, k2: int| 0 <= k1 < k2 < r@.len() ==> r@[k1]@ < r@[k2]@,
            forall|k: int| 0 <= k < r@.len() ==> self@.contains((#[trigger] r@[k])@),
            forall|id: int|
                #[trigger] self@.contains(id) ==> exists|k: int|
                    0 <= k < r@.len() && (#[trigger] r@[k])@ == id,
    {
        let mut out: Vec<Sysno> = Vec::new();
        let mut wi: usize = 0;
        while wi < 8
            invariant
                self.wf(),
                wi <= 8,
                forall|k1: int, k2: int| 0 <= k1 < k2 < out@.len() ==> out@[k1]@ < out@[k2]@,
                forall|k: int| 0 <= k < out@.len() ==> (#[trigger] out@[k])@ < wi as int * 64,
                forall|k: int| 0 <= k < out@.len() ==> self@.contains((#[trigger] out@[k])@),
                forall|id: int|
                    0 <= id < wi as int * 64 && #[trigger] self@.contains(id) ==> exists|k: int|
                        0 <= k < out@.len() && (#[trigger] out@[k])@ == id,
            decreases 8 - wi,
        {
            let mut w: u64 = self.data[wi];
            let ghost mut done: int = wi as int * 64;
            proof {
                assert forall|j: int| 0 <= j < 64 implies ((#[trigger] (w >> (j as u64))) & 1u64
                    == 1u64) == self.spec_bit(wi as int * 64 + j) by {
                    lemma_slot_decompose(wi as int, j);
                }
            }
            while w != 0
                invariant
                    self.wf(),
                    wi < 8,
                    wi as int * 64 <= done <= wi as int * 64 + 64,
                    forall|j: int|
                        0 <= j < 64 && wi as int * 64 + j >= done ==> ((#[trigger] (w >> (
                        j as u64))) & 1u64 == 1u64) == self.spec_bit(wi as int * 64 + j),
                    forall|j: int|
                        0 <= j < 64 && wi as int * 64 + j < done ==> !((#[trigger] (w >> (
                        j as u64))) & 1u64 == 1u64),
                    forall|k1: int, k2: int| 0 <= k1 < k2 < out@.len() ==> out@[k1]@ < out@[k2]@,
                    forall|k: int| 0 <= k < out@.len() ==> (#[trigger] out@[k])@ < done,
                    forall|k: int| 0 <= k < out@.len() ==> self@.contains((#[trigger] out@[k])@),
                    forall|id: int|
                        0 <= id < done && #[trigger] self@.contains(id) ==> exists|k: int|
                            0 <= k < out@.len() && (#[trigger] out@[k])@ == id,
                decreases w,
            {
                let bit = w.trailing_zeros();
                proof {
                    vstd::std_specs::bits::axiom_u64_trailing_zeros(w);
                }
                let id0 = wi * 64 + bit as usize;
                proof {
                    let j = bit as int;
                    lemma_slot_decompose(wi as int, j);
                    // The extracted slot has its bit set, so it lies at or
                    // past `done` and is a member of the set.
                    assert(self.spec_bit(id0 as int));
                    assert(self@.contains(id0 as int));
                    // Slots between `done` and the extracted one carry no
                    // member: their bits are below the lowest set bit.
                    assert forall|id: int| done <= id < id0 as int implies !self@.contains(id) by {
                        let jj = id - wi as int * 64;
                        assert((w >> (jj as u64)) & 1u64 == 0u64);
                    }
                }
                let ghost out_old = out@;
                out.push(Sysno::from_valid(id0 as u32));
                let ghost w_old = w;
                let ghost done_old = done;
                w = w & (w - 1);
                proof {
                    assert forall|k: int| 0 <= k < 64 implies ((#[trigger] (w >> (k as u64)))
                        & 1u64 == 1u64) == (k != bit as int && (w_old >> (k as u64)) & 1u64
                        == 1u64) by {
                        lemma_clear_lowest(w_old, bit as u64, k as u64);
                    }
                    assert(w < w_old) by {
                        lemma_clear_lowest(w_old, bit as u64, 0u64);
                    }
                    done = id0 as int + 1;
                    assert forall|j: int|
                        0 <= j < 64 && wi as int * 64 + j < done implies !((#[trigger] (w >> (
                    j as u64))) & 1u64 == 1u64) by {
                        if j != bit as int {
                            assert((w_old >> (j as u64)) & 1u64 == 0u64);
                        }
                    }
                    assert forall|id: int|
                        0 <= id < done && #[trigger] self@.contains(id) implies exists|k: int|
                        0 <= k < out@.len() && (#[trigger] out@[k])@ == id by {
                        if id < done_old {
                            let k = choose|k: int|
                                0 <= k < out_old.len() && (#[trigger] out_old[k])@ == id;
                            assert(out@[k] == out_old[k]);
                            assert((out@[k])@ == id);
                        } else if id == id0 as int {
                            assert((out@[out@.len() - 1])@ == id);
                        }
                    }
                }
            }
            proof {
                // The word is exhausted: no member is left in its slots.
                assert forall|id: int|
                    done <= id < wi as int * 64 + 64 implies !self@.contains(id) by {
                    let jj = id - wi as int * 64;
                    lemma_zero_bits(jj as u64);
                }
            }
            wi = wi + 1;
        }
        proof {
            // Everything at or past the table is absent, so the members below
            // slot 512 are all of them; with sortedness the vector has no
            // duplicates and its length is the cardinality of the set.
            let ids = out@.map_values(|s: Sysno| s@);
            assert(ids.no_duplicates());
            ids.unique_seq_to_set();
            assert(ids.to_set() =~= self@) by {
                assert forall|id: int| #[trigger] self@.contains(id) implies ids.to_set().contains(
                    id) by {
                    let k = choose|k: int| 0 <= k < out@.len() && (#[trigger] out@[k])@ == id;
                    assert(ids[k] == id);
                }
            }
        }
        out
    }

    /// Returns an iterator over the syscalls contained in the set, in
    /// ascending id order.
    pub fn iter(&self) -> (r: SysnoSetIter)
        requires
            self.wf(),
        ensures
            r.remaining().len() == self@.len(),
            forall|k1: int, k2: int|
                0 <= k1 < k2 < r.remaining().len() ==> r.remaining()[k1] < r.remaining()[k2],
            forall|k: int|
                0 <= k < r.remaining().len() ==> self@.contains(#[trigger] r.remaining()[k]),
            forall|id: int|
                #[trigger] self@.contains(id) ==> exists|k: int|
                    0 <= k < r.remaining().len() && r.remaining()[k] == id,
    {
        let items = self.members_vec();
        let r = SysnoSetIter { items, pos: 0 };
        proof {
            assert(r.remaining() =~= r.items@.map_values(|s: Sysno| s@));
            assert forall|id: int| #[trigger] self@.contains(id) implies exists|k: int|
                0 <= k < r.remaining().len() && r.remaining()[k] == id by {
                let k = choose|k: int|
                    0 <= k < r.items@.len() && (#[trigger] r.items@[k])@ == id;
                assert(r.remaining()[k] == id);
            }
        }
        r
    }
}

/// An iterator over the syscalls contained in a [`SysnoSet`], yielding them
/// in ascending id order.
pub struct SysnoSetIter {
    items: Vec<Sysno>,
    pos: usize,
}

impl SysnoSetIter {
    #[verifier::type_invariant]
    spec fn inv(self) -> bool {
        self.pos <= self.items@.len()
    }

    /// The ids not yet yielded, in the order they will come.
    pub closed spec fn remaining(&self) -> Seq<int> {
        self.items@.map_values(|s: Sysno| s@).skip(self.pos as int)
    }

    /// Yields the next syscall, or `None` when the iterator is exhausted.
    pub fn next(&mut self) -> (r: Option<Sysno>)
        ensures
            match r {
                Some(s) => old(self).remaining().len() > 0 && s@ == old(self).remaining()[0]
                    && final(self).remaining() == old(self).remaining().skip(1),
                None => old(self).remaining().len() == 0 && final(self).remaining() == old(
                    self,
                ).remaining(),
            },
    {
        proof {
            use_type_invariant(&*self);
        }
        if self.pos < self.items.len() {
            let s = self.items[self.pos];
            self.pos = self.pos + 1;
            proof {
                let m = self.items@.map_values(|q: Sysno| q@);
                assert(m.skip(old(self).pos as int + 1) =~= m.skip(old(self).pos as int).skip(1));
            }
            Some(s)
        } else {
            None
        }
    }
}

/// The names of a sequence of syscalls, joined with a comma separator.
pub open spec fn set_display_body(ids: Seq<int>) -> Seq<char>
    decreases ids.len(),
{
    if ids.len() == 0 {
        Seq::empty()
    } else if ids.len() == 1 {
        crate::arch::sysno_name_seq(ids[0])
    } else {
        set_display_body(ids.drop_last()) + ", "@ + crate::arch::sysno_name_seq(ids.last())
    }
}

impl SysnoSet {
    /// The human-readable form of the set: the names of its members in
    /// ascending id order, between braces.
    pub fn display_string(&self) -> (r: String)
        requires
            self.wf(),
        ensures
            exists|ids: Seq<int>|
                {
                    &&& (forall|k1: int, k2: int| 0 <= k1 < k2 < ids.len() ==> ids[k1] < ids[k2])
                    &&& (forall|k: int| 0 <= k < ids.len() ==> self@.contains(#[trigger] ids[k]))
                    &&& (forall|id: int| #[trigger] self@.contains(id) ==> ids.contains(id))
                    &&& r@ == "{"@ + set_display_body(ids) + "}"@
                },
    {
        let items = self.members_vec();
        let ghost full = items@.map_values(|q: Sysno| q@);
        let mut s = String::from_str("{");
        let mut i: usize = 0;
        while i < items.len()
            invariant
                self.wf(),
                i <= items@.len(),
                full == items@.map_values(|q: Sysno| q@),
                s@ == "{"@ + set_display_body(full.take(i as int)),
                forall|k1: int, k2: int|
                    0 <= k1 < k2 < items@.len() ==> items@[k1]@ < items@[k2]@,
                forall|k: int|
                    0 <= k < items@.len() ==> self@.contains((#[trigger] items@[k])@),
                forall|id: int|
                    #[trigger] self@.contains(id) ==> exists|k: int|
                        0 <= k < items@.len() && (#[trigger] items@[k])@ == id,
            decreases items@.len() - i,
        {
            if i > 0 {
                s.append(", ");
            }
            s.append(items[i].name());
            proof {
                let pre = full.take(i as int);
                let post = full.take(i as int + 1);
                assert(post.drop_last() =~= pre);
                assert(post.last() == full[i as int]);
                assert(s@ =~= "{"@ + set_display_body(post));
            }
            i = i + 1;
        }
        s.append("}");
        proof {
            assert(full.take(full.len() as int) =~= full);
            assert forall|id: int| #[trigger] self@.contains(id) implies full.contains(id) by {
                let k = choose|k: int| 0 <= k < items@.len() && (#[trigger] items@[k])@ == id;
                assert(full[k] == id);
            }
            assert((forall|k1: int, k2: int| 0 <= k1 < k2 < full.len() ==> full[k1] < full[k2])
                && (forall|k: int| 0 <= k < full.len() ==> self@.contains(#[trigger] full[k]))
                && (forall|id: int| #[trigger] self@.contains(id) ==> full.contains(id)) && s@
                == "{"@ + set_display_body(full) + "}"@);
        }
        s
    }
}

impl Default for SysnoSet {
    /// The default set is the empty set.
    fn default() -> (r: SysnoSet)
        ensures
            r@ == Set::<int>::empty(),
            r.wf(),
    {
        SysnoSet::empty()
    }
}

} // verus!
