//! The validated syscall identity type.
//!
//! A [`Sysno`] holds a numeric syscall id that is guaranteed to name a real
//! syscall on this architecture: the constructors reject ids outside the
//! table and ids that fall in a hole of the table.

use crate::arch::{is_valid_id, sysno_name_seq, sysno_name_str};
use vstd::prelude::*;

verus! {

/// Number of slots from the first to the last syscall id, holes included.
pub const SYSNO_TABLE_SIZE: usize = 451;

/// Number of valid syscalls in the table.
pub const SYSNO_COUNT: usize = 362;

/// The id held by the `k`-th valid syscall, in ascending id order.
pub open spec fn iter_slot_id(k: int) -> int {
    if k < 335 {
        k
    } else {
        k + 89
    }
}

/// A syscall that exists on this architecture, identified by its number.
#[derive(Clone, Copy, PartialEq, Eq, Structural, Hash, PartialOrd, Ord, Debug)]
pub struct Sysno {
    pub(crate) id: u32,
}

impl View for Sysno {
    type V = int;

    closed spec fn view(&self) -> int {
        self.id as int
    }
}

impl Sysno {
    #[verifier::type_invariant]
    pub(crate) open spec fn inv(self) -> bool {
        is_valid_id(self.id as int)
    }

    /// Builds an identity from an id already known to be valid.
    pub(crate) fn from_valid(id: u32) -> (r: Sysno)
        requires
            is_valid_id(id as int),
        ensures
            r@ == id,
    {
        Sysno { id }
    }

    /// Constructs a syscall identity from the given id. Returns `None` when
    /// the id lies outside the table or falls in a hole.
    pub fn new(id: usize) -> (r: Option<Sysno>)
        ensures
            match r {
                Some(s) => is_valid_id(id as int) && s@ == id,
                None => !is_valid_id(id as int),
            },
    {
        if id <= 334 || (424 <= id && id <= 450) {
            Some(Sysno { id: id as u32 })
        } else {
            None
        }
    }

    /// The numeric id of this syscall.
    pub fn id(&self) -> (r: i32)
        ensures
            r == self@,
    {
        proof {
            use_type_invariant(self);
        }
        self.id as i32
    }

    /// The first syscall in the table.
    pub fn first() -> (r: Sysno)
        ensures
            r@ == 0,
    {
        Sysno { id: 0 }
    }

    /// The last syscall in the table.
    pub fn last() -> (r: Sysno)
        ensures
            r@ == 450,
    {
        Sysno { id: 450 }
    }

    /// The number of slots from first to last id inclusive, counting holes.
    /// This is not the number of valid syscalls; see [`Sysno::count`].
    pub fn table_size() -> (r: usize)
        ensures
            r == SYSNO_TABLE_SIZE,
    {
        451
    }

    /// The number of valid syscalls in the table, holes excluded.
    pub fn count() -> (r: usize)
        ensures
            r == SYSNO_COUNT,
    {
        362
    }

    /// The static name of this syscall; never empty.
    pub fn name(&self) -> (r: &'static str)
        ensures
            r@ == sysno_name_seq(self@),
            r@.len() > 0,
    {
        proof {
            use_type_invariant(self);
        }
        sysno_name_str(self.id)
    }

    /// The next valid syscall with an id strictly greater than this one,
    /// skipping holes; `None` when this is the last syscall.
    pub fn next(&self) -> (r: Option<Sysno>)
        ensures
            match r {
                Some(n) => self@ < n@ && is_valid_id(n@) && (forall|j: int|
                    self@ < j < n@ ==> !is_valid_id(j)),
                None => self@ == 450,
            },
    {
        proof {
            use_type_invariant(self);
        }
        if self.id == 450 {
            None
        } else if self.id == 334 {
            Some(Sysno { id: 424 })
        } else {
            Some(Sysno { id: self.id + 1 })
        }
    }

    /// All valid syscalls, in strictly ascending id order: the first element
    /// is [`Sysno::first`], the last is [`Sysno::last`], and the length is
    /// exactly [`Sysno::count`].
    pub fn iter() -> (r: Vec<Sysno>)
        ensures
            r@.len() == SYSNO_COUNT,
            forall|k: int| 0 <= k < r@.len() ==> (#[trigger] r@[k])@ == iter_slot_id(k),
            forall|k: int| 0 <= k < r@.len() ==> is_valid_id((#[trigger] r@[k])@),
            forall|k1: int, k2: int| 0 <= k1 < k2 < r@.len() ==> r@[k1]@ < r@[k2]@,
            forall|id: int|
                is_valid_id(id) ==> exists|k: int| 0 <= k < r@.len() && (#[trigger] r@[k])@ == id,
            r@[0]@ == 0,
            r@[SYSNO_COUNT - 1]@ == 450,
    {
        let mut v: Vec<Sysno> = Vec::new();
        let mut i: u32 = 0;
        while i <= 334
            invariant
                i <= 335,
                v@.len() == i,
                forall|k: int| 0 <= k < v@.len() ==> (#[trigger] v@[k])@ == k,
            decreases 335 - i,
        {
            v.push(Sysno { id: i });
            i = i + 1;
        }
        let mut j: u32 = 424;
        while j <= 450
            invariant
                424 <= j <= 451,
                v@.len() == 335 + (j - 424),
                forall|k: int| 0 <= k < v@.len() ==> (#[trigger] v@[k])@ == iter_slot_id(k),
            decreases 451 - j,
        {
            v.push(Sysno { id: j });
            j = j + 1;
        }
        proof {
            assert forall|id: int| is_valid_id(id) implies exists|k: int|
                0 <= k < v@.len() && (#[trigger] v@[k])@ == id by {
                if id <= 334 {
                    assert(v@[id]@ == iter_slot_id(id));
                } else {
                    assert(v@[id - 89]@ == iter_slot_id(id - 89));
                }
            }
        }
        v
    }

    /// The `read` syscall.
    pub fn read() -> (r: Sysno)
        ensures
            r@ == 0,
    {
        Sysno { id: 0 }
    }

    /// The `write` syscall.
    pub fn write() -> (r: Sysno)
        ensures
            r@ == 1,
    {
        Sysno { id: 1 }
    }

    /// The `open` syscall.
    pub fn open() -> (r: Sysno)
        ensures
            r@ == 2,
    {
        Sysno { id: 2 }
    }

    /// The `close` syscall.
    pub fn close() -> (r: Sysno)
        ensures
            r@ == 3,
    {
        Sysno { id: 3 }
    }

    /// The `openat` syscall.
    pub fn openat() -> (r: Sysno)
        ensures
            r@ == 257,
    {
        Sysno { id: 257 }
    }

    /// The `fsopen` syscall.
    pub fn fsopen() -> (r: Sysno)
        ensures
            r@ == 430,
    {
        Sysno { id: 430 }
    }

    /// The `gettid` syscall.
    pub fn gettid() -> (r: Sysno)
        ensures
            r@ == 186,
    {
        Sysno { id: 186 }
    }
}

/// The view of an identity is exactly its stored id.
pub(crate) proof fn lemma_view_is_id(s: Sysno)
    ensures
        s@ == s.id as int,
{
}

} // verus!
