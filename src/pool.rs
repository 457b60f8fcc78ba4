//! Fixed-capacity ring of pre-created projectile slots.
use vstd::prelude::*;
use vstd::arithmetic::div_mod::{
    lemma_add_mod_noop, lemma_mod_add_multiples_vanish, lemma_mod_equivalence, lemma_small_mod,
};

verus! {

/// Number of projectile slots created at start-up.
pub const POOL_CAPACITY: usize = 2_000;

/// Cursor position after `k` acquisitions starting from cursor `c`.
pub open spec fn cursor_after(c: int, k: int) -> int {
    (c + k) % (POOL_CAPACITY as int)
}

/// A ring of slot handles with a cursor that hands them out in order,
/// wrapping to the oldest slot once every slot has been handed out.
#[derive(Debug)]
pub struct BulletPool {
    pool: Vec<u64>,
    current: usize,
}

impl BulletPool {
    /// The handles, in ring order.
    pub closed spec fn slots(&self) -> Seq<u64> {
        self.pool@
    }

    /// Index of the slot that the next acquisition returns.
    pub closed spec fn cursor(&self) -> int {
        self.current as int
    }

    /// The pool holds exactly its capacity of distinct slots and the cursor
    /// points at one.
    pub open spec fn is_ready(&self) -> bool {
        &&& self.slots().len() == POOL_CAPACITY as int
        &&& self.slots().no_duplicates()
        &&& 0 <= self.cursor() < POOL_CAPACITY as int
    }

    /// An empty pool, to be filled by `initialize`.
    pub fn new() -> (r: Self)
        ensures
            r.slots().len() == 0,
            r.cursor() == 0,
    {
        BulletPool { pool: Vec::new(), current: 0 }
    }

    /// Fills the pool with the pre-created slot handles, one distinct handle
    /// per slot; the cursor stays where it was.
    pub fn initialize(&mut self, slots: Vec<u64>)
        requires
            slots@.len() == POOL_CAPACITY as int,
            slots@.no_duplicates(),
            0 <= old(self).cursor() < POOL_CAPACITY as int,
        ensures
            final(self).slots() == slots@,
            final(self).cursor() == old(self).cursor(),
            final(self).is_ready(),
    {
        self.pool = slots;
    }

    /// Hands out the slot at the cursor and advances the cursor, wrapping at
    /// the capacity.
    pub fn get(&mut self) -> (r: u64)
        requires
            old(self).is_ready(),
        ensures
            final(self).is_ready(),
            r == old(self).slots()[old(self).cursor()],
            final(self).slots() == old(self).slots(),
            final(self).cursor() == cursor_after(old(self).cursor(), 1),
    {
        let current = self.current;
        self.current = (self.current + 1) % POOL_CAPACITY;
        self.pool[current]
    }
}

/// Advancing the cursor by one after `k` acquisitions is advancing it by `k + 1`.
pub proof fn lemma_cursor_step(c: int, k: int)
    requires
        0 <= c,
        0 <= k,
    ensures
        cursor_after(cursor_after(c, k), 1) == cursor_after(c, k + 1),
        0 <= cursor_after(c, k) < POOL_CAPACITY as int,
{
    let m = POOL_CAPACITY as int;
    lemma_add_mod_noop(c + k, 1, m);
    lemma_small_mod(1, m as nat);
    vstd::arithmetic::div_mod::lemma_mod_pos_bound(c + k, m);
}

/// Pool boundedness: within any window of fewer than `POOL_CAPACITY`
/// acquisitions no slot index is handed out twice, and the acquisition
/// `POOL_CAPACITY` places later wraps around to the same slot index.
pub proof fn lemma_pool_reuse_only_after_wrap(c: int, i: int, j: int)
    requires
        0 <= c < POOL_CAPACITY as int,
        0 <= i < j,
    ensures
        j - i < POOL_CAPACITY as int ==> cursor_after(c, i) != cursor_after(c, j),
        cursor_after(c, i + POOL_CAPACITY as int) == cursor_after(c, i),
{
    let m = POOL_CAPACITY as int;
    lemma_mod_equivalence(c + j, c + i, m);
    if j - i < m {
        lemma_small_mod((j - i) as nat, m as nat);
        assert((c + j) - (c + i) == j - i);
    }
    lemma_mod_add_multiples_vanish(c + i, m);
    assert(c + (i + m) == m + (c + i));
}

/// The handles that a ready pool hands out within any window of fewer than
/// `POOL_CAPACITY` acquisitions are distinct as well.
pub proof fn lemma_pool_distinct_handles(p: BulletPool, i: int, j: int)
    requires
        p.is_ready(),
        0 <= i < j,
        j - i < POOL_CAPACITY as int,
    ensures
        p.slots()[cursor_after(p.cursor(), i)] != p.slots()[cursor_after(p.cursor(), j)],
{
    lemma_pool_reuse_only_after_wrap(p.cursor(), i, j);
    lemma_cursor_step(p.cursor(), i);
    lemma_cursor_step(p.cursor(), j);
}

} // verus!
