//! The process-wide allocator of dense per-type slot indices.
//!
//! Every static component type owns one slot cell, initially holding
//! [`UNSET_INDEX`].  The first registration attempt from any world draws the
//! next index from the shared counter and installs it; every later attempt
//! reads the installed value back unchanged.  A cell is written at most once,
//! so all observers of an initialized cell agree on its value, and no two
//! cells ever hold the same index.
//!
//! In a concurrent setting the install is a compare-and-swap; a loser of the
//! race discards the counter value it drew and returns what the winner
//! installed, permanently skipping one index.  This module captures the
//! resulting state machine: [`get_or_init_index`](IndexAllocator::get_or_init_index)
//! never overwrites an initialized cell, and the counter only grows.

use vstd::prelude::*;

verus! {

/// The sentinel a slot cell holds before any index was installed in it.
pub const UNSET_INDEX: u32 = u32::MAX;

/// The shared counter that hands out slot indices, starting at 1
/// (0 and the sentinel are reserved).
pub struct IndexAllocator {
    /// The next index to hand out.
    pub next: u32,
}

/// The counter value after one `get_or_init_index` step.
pub open spec fn counter_after(next: u32, cell: u32) -> u32 {
    if cell != UNSET_INDEX {
        next
    } else {
        (next + 1) as u32
    }
}

/// The cell value after one `get_or_init_index` step.
pub open spec fn cell_after(next: u32, cell: u32) -> u32 {
    if cell != UNSET_INDEX {
        cell
    } else {
        next
    }
}

/// The index one `get_or_init_index` step returns.
pub open spec fn index_of(next: u32, cell: u32) -> u32 {
    if cell != UNSET_INDEX {
        cell
    } else {
        next
    }
}

impl IndexAllocator {
    /// A fresh counter; 0 is reserved, so the first index handed out is 1.
    pub fn new() -> (r: IndexAllocator)
        ensures
            r.next == 1,
    {
        IndexAllocator { next: 1 }
    }

    /// Draws the next index, advancing the counter.
    pub fn fetch_new_index(&mut self) -> (r: u32)
        requires
            old(self).next < UNSET_INDEX,
        ensures
            r == old(self).next,
            final(self).next == old(self).next + 1,
            r != UNSET_INDEX,
    {
        let index = self.next;
        self.next = self.next + 1;
        index
    }

    /// Returns the slot index held in `cell`, installing a freshly drawn one
    /// first if the cell is still unset.  An initialized cell is never
    /// overwritten, so for a given cell every caller observes one final
    /// index.
    pub fn get_or_init_index(&mut self, cell: &mut u32) -> (r: u32)
        requires
            old(self).next < UNSET_INDEX,
        ensures
            final(self).next == counter_after(old(self).next, *old(cell)),
            *final(cell) == cell_after(old(self).next, *old(cell)),
            r == index_of(old(self).next, *old(cell)),
            r == *final(cell),
            *old(cell) != UNSET_INDEX ==> r == *old(cell) && final(self).next == old(self).next,
            r != UNSET_INDEX,
    {
        if *cell != UNSET_INDEX {
            *cell
        } else {
            let index = self.fetch_new_index();
            *cell = index;
            index
        }
    }
}

/// Slot uniqueness: two distinct, still-unset cells initialized one after the
/// other from the same counter receive different indices.
pub proof fn lemma_distinct_cells_distinct_indices(next: u32, first_cell: u32, second_cell: u32)
    requires
        first_cell == UNSET_INDEX,
        second_cell == UNSET_INDEX,
        next < UNSET_INDEX,
        counter_after(next, first_cell) < UNSET_INDEX,
    ensures
        index_of(next, first_cell) != index_of(counter_after(next, first_cell), second_cell),
{
}

/// Slot stability: once a cell is initialized, every later step returns the
/// installed index and changes neither the cell nor the counter.  In
/// particular, however many contenders raced to initialize the cell, they and
/// all later readers observe the same final index.
pub proof fn lemma_index_stable(next: u32, later_next: u32, cell: u32)
    requires
        cell == UNSET_INDEX,
        next < UNSET_INDEX,
    ensures
        index_of(later_next, cell_after(next, cell)) == index_of(next, cell),
        cell_after(later_next, cell_after(next, cell)) == cell_after(next, cell),
        counter_after(later_next, cell_after(next, cell)) == later_next,
{
}

} // verus!
