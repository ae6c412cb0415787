//! Discipline for buffers crossing the module boundary: blocks are allocated
//! by size, identified by a fresh ticket, and must be given back exactly once
//! with the size they were allocated with.
//!
//! The pool tracks every live block in a map from ticket to size. `allocate`
//! always hands out a ticket that is not live, and `free` succeeds exactly
//! once per ticket and only at the matching size, leaving the pool unchanged
//! otherwise — so a balanced allocate/free pair restores the pool, and a
//! double free or a mismatched size is refused instead of corrupting state.

use vstd::hash_map::HashMapWithView;
use vstd::prelude::*;

verus! {

/// A pool of live blocks: ticket number to block size.
pub struct BlockPool {
    next: u64,
    live: HashMapWithView<u64, u64>,
}

impl View for BlockPool {
    type V = Map<u64, u64>;

    closed spec fn view(&self) -> Map<u64, u64> {
        self.live@
    }
}

impl BlockPool {
    /// Every live ticket lies below the allocation counter, so the next
    /// ticket is always fresh.
    pub closed spec fn wf(&self) -> bool {
        forall|id: u64| self.live@.contains_key(id) ==> id < self.next
    }

    /// How many tickets have ever been handed out.
    pub closed spec fn spent(&self) -> u64 {
        self.next
    }

    /// A pool with no live blocks.
    pub fn new() -> (p: BlockPool)
        ensures
            p.wf(),
            p@ == Map::<u64, u64>::empty(),
            p.spent() == 0,
    {
        BlockPool { next: 0, live: HashMapWithView::new() }
    }

    /// Allocates a block of `size` bytes: hands out a ticket that no live
    /// block holds and records the block as live at that size.
    pub fn allocate(&mut self, size: u64) -> (id: u64)
        requires
            old(self).wf(),
            old(self).spent() < u64::MAX,
        ensures
            final(self).wf(),
            !old(self)@.contains_key(id),
            final(self)@ == old(self)@.insert(id, size),
            final(self).spent() == old(self).spent() + 1,
    {
        let id = self.next;
        self.next = self.next + 1;
        self.live.insert(id, size);
        id
    }

    /// Frees the block under ticket `id`, which must come back with the size
    /// it was allocated for. Returns whether the block was released: a ticket
    /// that is not live (never allocated, or already freed) or a mismatched
    /// size is refused and the pool is unchanged.
    pub fn free(&mut self, id: u64, size: u64) -> (ok: bool)
        requires
            old(self).wf(),
        ensures
            final(self).wf(),
            ok == (old(self)@.contains_key(id) && old(self)@[id] == size),
            ok ==> final(self)@ == old(self)@.remove(id),
            !ok ==> final(self)@ == old(self)@,
            final(self).spent() == old(self).spent(),
    {
        let found: bool = match self.live.get(&id) {
            Some(sz) => *sz == size,
            None => false,
        };
        if found {
            self.live.remove(&id);
            true
        } else {
            false
        }
    }

    /// The number of live blocks.
    pub fn live_blocks(&self) -> (n: usize)
        ensures
            n == self@.len(),
    {
        self.live.len()
    }

    /// Whether the block under ticket `id` is live.
    pub fn is_live(&self, id: u64) -> (r: bool)
        ensures
            r == self@.contains_key(id),
    {
        self.live.contains_key(&id)
    }

    /// The size the block under ticket `id` was allocated with, if it is
    /// live.
    pub fn size_of(&self, id: u64) -> (r: Option<u64>)
        ensures
            r == (if self@.contains_key(id) {
                Some(self@[id])
            } else {
                None::<u64>
            }),
    {
        match self.live.get(&id) {
            Some(sz) => Some(*sz),
            None => None,
        }
    }
}

/// A balanced pair leaks nothing: allocating a fresh block and freeing that
/// same block at the same size restores the live-block map exactly, whatever
/// else is live around it.
pub proof fn lemma_allocate_free_roundtrip(m: Map<u64, u64>, id: u64, size: u64)
    requires
        !m.contains_key(id),
    ensures
        m.insert(id, size).remove(id) == m,
{
    assert(m.insert(id, size).remove(id) =~= m);
}

/// Nothing is freed twice: once a block's ticket has been removed from the
/// live map, that ticket is no longer live, so a second free of it is
/// refused by `free`'s postcondition.
pub proof fn lemma_double_free_refused(m: Map<u64, u64>, id: u64)
    ensures
        !m.remove(id).contains_key(id),
{
}

} // verus!
