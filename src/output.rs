//! The consumer's handle.
use vstd::prelude::*;

use crate::back_info::{
    back_index, descriptor, dirty, index_of, lemma_descriptor_parts, pack, valid_info,
};
use crate::state::SharedState;

verus! {

/// Consumer side of a triple buffer: the index of the slot that only the
/// consumer reads.
///
/// The handle owns nothing but that index; each operation is given the
/// shared storage, and its contract says what it does to both.
#[derive(Debug)]
pub struct Output {
    /// Index of the output slot.
    pub output_idx: usize,
}

/// One update: where the back slot is dirty, it becomes the output slot and
/// the former output slot becomes the back slot, clean; otherwise nothing
/// changes. `updated` tells which of the two happened.
pub open spec fn update_step<T>(
    o0: Output,
    s0: SharedState<T>,
    o1: Output,
    s1: SharedState<T>,
    updated: bool,
) -> bool {
    &&& s1.wf()
    &&& s1.slots() == s0.slots()
    &&& updated == s0.dirty()
    &&& if updated {
        &&& o1.output_idx == s0.back_idx()
        &&& s1.info() == descriptor(o0.output_idx, false)
    } else {
        &&& o1 == o0
        &&& s1.info() == s0.info()
    }
}

/// One read: an update, then the value of the output slot.
pub open spec fn read_step<T>(
    o0: Output,
    s0: SharedState<T>,
    o1: Output,
    s1: SharedState<T>,
    value: T,
) -> bool {
    &&& update_step(o0, s0, o1, s1, s0.dirty())
    &&& value == s1.slots()[o1.output_idx as int]
}

impl Output {
    /// Takes the latest published value, if there is one, and gives access
    /// to the output slot.
    ///
    /// The reference stands until the next call that updates this handle.
    pub fn read<'a, T>(&mut self, shared: &'a mut SharedState<T>) -> (r: &'a T)
        requires
            old(self).output_idx < 3,
            old(shared).wf(),
        ensures
            read_step(*old(self), *old(shared), *final(self), *final(shared), *r),
            final(self).output_idx < 3,
    {
        self.update(shared);
        shared.buffer(self.output_idx)
    }

    /// Whether a value that this side has not taken yet is waiting.
    ///
    /// For diagnostics only: whether to read must not depend on it.
    pub fn updated<T>(&self, shared: &SharedState<T>) -> (r: bool)
        ensures
            r == shared.dirty(),
    {
        dirty(shared.back_info())
    }

    /// Mutable access to the output slot, to work on the value in place.
    ///
    /// Nothing is fetched: call `raw_update` for that. Changes made here are
    /// lost when an update replaces the output slot.
    pub fn raw_output_buffer<'a, T>(&self, shared: &'a mut SharedState<T>) -> (r: &'a mut T)
        requires
            self.output_idx < 3,
            old(shared).wf(),
        ensures
            *r == old(shared).slots()[self.output_idx as int],
            final(shared).slots() == old(shared).slots().update(
                self.output_idx as int,
                *final(r),
            ),
            final(shared).info() == old(shared).info(),
    {
        shared.buffer_mut(self.output_idx)
    }

    /// Takes the latest published value if there is one, and tells whether
    /// there was.
    pub fn raw_update<T>(&mut self, shared: &mut SharedState<T>) -> (updated: bool)
        requires
            old(self).output_idx < 3,
            old(shared).wf(),
        ensures
            update_step(*old(self), *old(shared), *final(self), *final(shared), updated),
            final(self).output_idx < 3,
    {
        self.update(shared)
    }

    /// Takes over the slot that an update handed back, given the descriptor
    /// that the exchange returned.
    pub fn take_back(&mut self, former: usize)
        requires
            valid_info(former),
        ensures
            final(self).output_idx == index_of(former),
            final(self).output_idx < 3,
    {
        self.output_idx = back_index(former);
    }

    fn update<T>(&mut self, shared: &mut SharedState<T>) -> (updated: bool)
        requires
            old(self).output_idx < 3,
            old(shared).wf(),
        ensures
            update_step(*old(self), *old(shared), *final(self), *final(shared), updated),
            final(self).output_idx < 3,
    {
        let updated = self.updated(shared);
        if updated {
            proof {
                lemma_descriptor_parts(self.output_idx, false);
            }
            let former = shared.exchange(pack(self.output_idx, false));
            self.take_back(former);
        }
        updated
    }
}

} // verus!
