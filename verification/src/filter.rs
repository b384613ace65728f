//! Filters: term lists handed to the engine's query machinery.
//!
//! A filter description holds a fixed array of terms; a builder walks it
//! with a cursor, filling one term at a time.  The engine-side objects the
//! original holds through raw pointers are carried here as plain handles.

use vstd::prelude::*;

verus! {

/// The number of terms a filter description holds.
pub const FILTER_TERM_COUNT_MAX: usize = 32;

/// One term of a filter: the identifier matched, and the engine's numeric
/// access and operator kinds.
#[derive(Clone, Copy, PartialEq, Eq, Structural, Debug)]
pub struct Term {
    /// The identifier the term matches.
    pub id: u64,
    /// The term's access kind, as the engine encodes it.
    pub inout: i16,
    /// The term's operator kind, as the engine encodes it.
    pub oper: i16,
}

impl Default for Term {
    /// An empty term: no identifier, default access, default operator.
    fn default() -> (r: Term)
        ensures
            r.id == 0 && r.inout == 0 && r.oper == 0,
    {
        Term { id: 0, inout: 0, oper: 0 }
    }
}

/// The world and filter handles an engine-side filter is built on.
pub struct FilterBase {
    /// Handle of the world the filter belongs to.
    pub world: u64,
    /// Handle of the engine's filter object; 0 when not yet initialized.
    pub filter_ptr: u64,
}

impl FilterBase {
    /// Wraps the world and filter handles as they are.
    pub fn new(world: u64, filter: u64) -> (r: FilterBase)
        ensures
            r.world == world,
            r.filter_ptr == filter,
    {
        FilterBase { world, filter_ptr: filter }
    }
}

impl Default for FilterBase {
    /// A filter base bound to nothing: both handles are null.
    fn default() -> (r: FilterBase)
        ensures
            r.world == 0 && r.filter_ptr == 0,
    {
        FilterBase { world: 0, filter_ptr: 0 }
    }
}

/// A filter under construction: its description's term array and the cursor
/// of the term currently being filled.
pub struct Filter {
    /// The engine-side handles.
    pub filter: FilterBase,
    /// The description's term array, [`FILTER_TERM_COUNT_MAX`] entries.
    pub terms: Vec<Term>,
    /// The index of the term the builder fills next.
    pub next_term_index: usize,
}

impl Filter {
    /// The cursor stays on the term array.
    pub open spec fn wf(self) -> bool {
        &&& self.terms@.len() == FILTER_TERM_COUNT_MAX
        &&& self.next_term_index <= FILTER_TERM_COUNT_MAX
    }

    /// The cursor's position.
    pub open spec fn cursor(self) -> int {
        self.next_term_index as int
    }

    /// A fresh filter on the world handle `world`: all terms empty, the
    /// cursor on the first.
    pub fn new(world: u64) -> (r: Filter)
        ensures
            r.wf(),
            r.cursor() == 0,
            r.filter.world == world,
            forall|i: int|
                0 <= i < FILTER_TERM_COUNT_MAX ==> (#[trigger] r.terms@[i]).id == 0,
    {
        let mut terms: Vec<Term> = Vec::new();
        let mut i: usize = 0;
        while i < FILTER_TERM_COUNT_MAX
            invariant
                i <= FILTER_TERM_COUNT_MAX,
                terms@.len() == i,
                forall|k: int| 0 <= k < i ==> (#[trigger] terms@[k]).id == 0,
            decreases FILTER_TERM_COUNT_MAX - i,
        {
            terms.push(Term { id: 0, inout: 0, oper: 0 });
            i += 1;
        }
        Filter { filter: FilterBase { world, filter_ptr: 0 }, terms, next_term_index: 0 }
    }

    /// The term the builder is currently filling, for mutation in place.
    pub fn current_term(&mut self) -> (t: &mut Term)
        requires
            old(self).wf(),
            old(self).cursor() < FILTER_TERM_COUNT_MAX,
        ensures
            *t == old(self).terms@[old(self).cursor()],
            final(self).terms@ == old(self).terms@.update(old(self).cursor(), *final(t)),
            final(self).cursor() == old(self).cursor(),
            final(self).filter == old(self).filter,
            final(self).wf(),
    {
        let index = self.next_term_index;
        &mut self.terms[index]
    }

    /// Moves the builder to the next term.
    pub fn next_term(&mut self)
        requires
            old(self).wf(),
            old(self).cursor() < FILTER_TERM_COUNT_MAX,
        ensures
            final(self).wf(),
            final(self).cursor() == old(self).cursor() + 1,
            final(self).terms == old(self).terms,
            final(self).filter == old(self).filter,
    {
        self.next_term_index += 1;
    }
}

} // verus!
