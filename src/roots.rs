//! The root stack: scopes and their fixed-capacity root tables.
//!
//! Opening a scope links a new table as the chain head; closing it unlinks
//! the table, which is only allowed while it is the head and holds no root.
//! Slots are claimed and freed strictly in stack order. Breaking any of these
//! rules is a contract violation, excluded by preconditions; the `*_fault`
//! queries let unverified callers detect a violation before it happens.
use vstd::prelude::*;
use crate::layout::RawValue;
use crate::gc::{Gc, Scope, RootError, LOCALS_BLOCK_SIZE};

verus! {

impl Gc {
    /// Same heap, same epoch, root chain possibly changed.
    pub open spec fn same_heap(&self, old: Gc) -> bool {
        &&& self.blocks@ == old.blocks@
        &&& self.epoch@ == old.epoch@
    }

    /// The error, if any, that closing the scope at `depth` meets.
    pub open spec fn close_error(&self, depth: nat) -> Option<RootError> {
        if depth + 1 != self.depth() {
            Some(RootError::NotChainHead)
        } else if self.head_count() != 0 {
            Some(RootError::RootsStillHeld)
        } else {
            None
        }
    }

    /// The error, if any, that claiming a root slot meets.
    pub open spec fn claim_error(&self) -> Option<RootError> {
        if self.depth() == 0 {
            Some(RootError::NoScope)
        } else if self.head_count() >= LOCALS_BLOCK_SIZE {
            Some(RootError::CapacityExceeded)
        } else {
            None
        }
    }

    /// The slot `slot` is the top of the head table.
    pub open spec fn is_top_slot(&self, slot: nat) -> bool {
        &&& self.depth() > 0
        &&& self.head_count() > 0
        &&& slot + 1 == self.slots@.len()
    }

    /// Links a fresh, empty root table as the chain head.
    pub fn open_scope(&mut self) -> (s: Scope)
        requires
            old(self).wf(),
            old(self).depth() < usize::MAX,
        ensures
            final(self).wf(),
            final(self).same_heap(*old(self)),
            final(self).slots@ == old(self).slots@,
            final(self).table_starts@ == old(self).table_starts@.push(old(self).slots@.len() as usize),
            s.depth == old(self).depth(),
            final(self).head_count() == 0,
    {
        let d = self.table_starts.len();
        let n = self.slots.len();
        self.table_starts.push(n);
        proof {
            let o = *old(self);
            assert forall|k: int| 0 <= k < self.table_starts@.len() implies
                #[trigger] self.table_starts@[k] <= self.table_end(k) <= self.table_starts@[k] + LOCALS_BLOCK_SIZE by {
                if k < o.table_starts@.len() {
                    assert(o.table_starts@[k] <= o.table_end(k));
                }
            }
        }
        Scope { depth: d }
    }

    /// The violation, if any, that closing `s` now would be: exactly
    /// `close_error(s.depth)`. A caller that gets `Some` must not close.
    pub fn close_fault(&self, s: &Scope) -> (r: Option<RootError>)
        requires
            self.wf(),
        ensures
            r == self.close_error(s.depth as nat),
    {
        let d = self.table_starts.len();
        if d == 0 || s.depth != d - 1 {
            return Some(RootError::NotChainHead);
        }
        let start = self.table_starts[d - 1];
        if self.slots.len() != start {
            Some(RootError::RootsStillHeld)
        } else {
            None
        }
    }

    /// Unlinks the table of `s`, which must be the chain head and hold no
    /// root any more.
    pub fn close_scope(&mut self, s: Scope)
        requires
            old(self).wf(),
            old(self).close_error(s.depth as nat) is None,
        ensures
            final(self).wf(),
            final(self).same_heap(*old(self)),
            final(self).slots@ == old(self).slots@,
            final(self).table_starts@ == old(self).table_starts@.drop_last(),
    {
        self.table_starts.pop();
        proof {
            let o = *old(self);
            assert forall|k: int| 0 <= k < self.table_starts@.len() implies
                #[trigger] self.table_starts@[k] <= self.table_end(k) <= self.table_starts@[k] + LOCALS_BLOCK_SIZE by {
                assert(o.table_starts@[k] <= o.table_end(k));
            }
        }
    }

    /// The violation, if any, that claiming a root slot now would be:
    /// exactly `claim_error()`.
    pub fn claim_fault(&self) -> (r: Option<RootError>)
        requires
            self.wf(),
        ensures
            r == self.claim_error(),
    {
        let d = self.table_starts.len();
        if d == 0 {
            return Some(RootError::NoScope);
        }
        let start = self.table_starts[d - 1];
        let n = self.slots.len();
        assert(self.table_starts@[d - 1] <= self.table_end(d - 1));
        if n - start >= LOCALS_BLOCK_SIZE {
            Some(RootError::CapacityExceeded)
        } else {
            None
        }
    }

    /// Claims the next free slot of the head table, which must exist, and
    /// stores `v` in it.
    pub fn alloc_gc_cell(&mut self, v: RawValue) -> (slot: usize)
        requires
            old(self).wf(),
            old(self).live(v),
            old(self).claim_error() is None,
        ensures
            final(self).wf(),
            final(self).same_heap(*old(self)),
            final(self).table_starts@ == old(self).table_starts@,
            slot == old(self).slots@.len(),
            final(self).slots@ == old(self).slots@.push(v),
    {
        let n = self.slots.len();
        self.slots.push(v);
        proof {
            let o = *old(self);
            assert forall|k: int| 0 <= k < self.slots@.len() implies self.live(#[trigger] self.slots@[k]) by {
                if k < o.slots@.len() {
                    assert(o.live(o.slots@[k]));
                }
            }
            assert forall|k: int| 0 <= k < self.table_starts@.len() implies
                #[trigger] self.table_starts@[k] <= self.table_end(k) <= self.table_starts@[k] + LOCALS_BLOCK_SIZE by {
                assert(o.table_starts@[k] <= o.table_end(k));
            }
        }
        n
    }

    /// Whether `slot` is the top slot of the head table: exactly
    /// `is_top_slot(slot)`. Only such a slot may be freed.
    pub fn is_top(&self, slot: usize) -> (r: bool)
        requires
            self.wf(),
        ensures
            r == self.is_top_slot(slot as nat),
    {
        let d = self.table_starts.len();
        if d == 0 {
            return false;
        }
        let start = self.table_starts[d - 1];
        let n = self.slots.len();
        assert(self.table_starts@[d - 1] <= self.table_end(d - 1));
        n != start && slot == n - 1
    }

    /// Frees `slot`, which must be the top slot of the head table.
    pub fn free_gc_cell(&mut self, slot: usize)
        requires
            old(self).wf(),
            old(self).is_top_slot(slot as nat),
        ensures
            final(self).wf(),
            final(self).same_heap(*old(self)),
            final(self).table_starts@ == old(self).table_starts@,
            final(self).slots@ == old(self).slots@.drop_last(),
    {
        self.slots.pop();
        proof {
            let o = *old(self);
            assert forall|k: int| 0 <= k < self.slots@.len() implies self.live(#[trigger] self.slots@[k]) by {
                assert(o.live(o.slots@[k]));
            }
            assert forall|k: int| 0 <= k < self.table_starts@.len() implies
                #[trigger] self.table_starts@[k] <= self.table_end(k) <= self.table_starts@[k] + LOCALS_BLOCK_SIZE by {
                assert(o.table_starts@[k] <= o.table_end(k));
                if k + 1 < self.table_starts@.len() {
                    assert(o.table_starts@[k + 1] <= o.table_end(k + 1));
                }
            }
        }
    }

    /// The word held in root slot `slot`.
    pub fn root_get(&self, slot: usize) -> (r: RawValue)
        requires
            self.wf(),
            slot < self.slots@.len(),
        ensures
            r == self.slots@[slot as int],
            self.live(r),
    {
        self.slots[slot]
    }

    /// Overwrites root slot `slot` with `v`.
    pub fn root_set(&mut self, slot: usize, v: RawValue)
        requires
            old(self).wf(),
            slot < old(self).slots@.len(),
            old(self).live(v),
        ensures
            final(self).wf(),
            final(self).same_heap(*old(self)),
            final(self).table_starts@ == old(self).table_starts@,
            final(self).slots@ == old(self).slots@.update(slot as int, v),
    {
        self.slots.set(slot, v);
        proof {
            let o = *old(self);
            assert forall|k: int| 0 <= k < self.slots@.len() implies self.live(#[trigger] self.slots@[k]) by {
                if k != slot {
                    assert(o.live(o.slots@[k]));
                }
            }
            assert forall|k: int| 0 <= k < self.table_starts@.len() implies
                #[trigger] self.table_starts@[k] <= self.table_end(k) <= self.table_starts@[k] + LOCALS_BLOCK_SIZE by {
                assert(o.table_starts@[k] <= o.table_end(k));
            }
        }
    }
}

} // verus!
