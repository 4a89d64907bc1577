//! The storage that producer and consumer share: three value slots and the
//! back-buffer descriptor.
use vstd::prelude::*;

use vstd::std_specs::cmp::PartialEqSpec;

use crate::back_info::{index_of, is_dirty, valid_info};

verus! {

/// Three value slots and the descriptor of the back slot.
///
/// The slots are reached only through the index that a handle holds, or the
/// one in the descriptor, so each slot has one owner at a time.
#[derive(Debug)]
pub struct SharedState<T> {
    buffers: [T; 3],
    back_info: usize,
}

impl<T> SharedState<T> {
    /// The contents of the three slots, by index.
    pub closed spec fn slots(&self) -> Seq<T> {
        self.buffers@
    }

    /// The descriptor word.
    pub closed spec fn info(&self) -> usize {
        self.back_info
    }

    /// The index of the back slot.
    pub open spec fn back_idx(&self) -> usize {
        index_of(self.info())
    }

    /// Whether the back slot holds a value that the consumer has not taken.
    pub open spec fn dirty(&self) -> bool {
        is_dirty(self.info())
    }

    /// Three slots, and a descriptor that names one of them.
    pub open spec fn wf(&self) -> bool {
        &&& self.slots().len() == 3
        &&& valid_info(self.info())
    }

    /// Builds the shared storage from three slot values and a descriptor.
    pub fn new(buffers: [T; 3], back_info: usize) -> (r: Self)
        requires
            valid_info(back_info),
        ensures
            r.wf(),
            r.slots() == buffers@,
            r.info() == back_info,
    {
        SharedState { buffers, back_info }
    }

    /// Takes the storage apart into its slots and its descriptor.
    pub fn into_parts(self) -> (r: ([T; 3], usize))
        ensures
            r.0@ == self.slots(),
            r.1 == self.info(),
    {
        (self.buffers, self.back_info)
    }

    /// The descriptor word, as it stands.
    pub fn back_info(&self) -> (r: usize)
        ensures
            r == self.info(),
    {
        self.back_info
    }

    /// The value held in slot `idx`.
    pub fn buffer(&self, idx: usize) -> (r: &T)
        requires
            self.wf(),
            idx < 3,
        ensures
            *r == self.slots()[idx as int],
    {
        &self.buffers[idx]
    }

    /// Mutable access to slot `idx`; the descriptor is left alone.
    pub(crate) fn buffer_mut(&mut self, idx: usize) -> (r: &mut T)
        requires
            old(self).wf(),
            idx < 3,
        ensures
            *r == old(self).slots()[idx as int],
            final(self).slots() == old(self).slots().update(idx as int, *final(r)),
            final(self).info() == old(self).info(),
    {
        &mut self.buffers[idx]
    }

    /// Replaces the descriptor, handing back the one it held.
    pub(crate) fn exchange(&mut self, info: usize) -> (former: usize)
        requires
            old(self).wf(),
            valid_info(info),
        ensures
            former == old(self).info(),
            final(self).wf(),
            final(self).info() == info,
            final(self).slots() == old(self).slots(),
    {
        let former = self.back_info;
        self.back_info = info;
        former
    }
}

} // verus!

verus! {

impl<T: Clone> Clone for SharedState<T> {
    /// A copy with its own slots, each a clone of the matching slot.
    fn clone(&self) -> (r: Self)
        ensures
            r.info() == self.info(),
            r.slots().len() == self.slots().len(),
            forall|i: int| 0 <= i < 3 ==> cloned::<T>(#[trigger] self.slots()[i], r.slots()[i]),
    {
        SharedState { buffers: self.buffers.clone(), back_info: self.back_info }
    }
}

/// Slot-by-slot equality of two sets of slots, as `T`'s `==` sees it.
pub open spec fn same_slots<T: PartialEq>(a: Seq<T>, b: Seq<T>) -> bool {
    forall|i: int| 0 <= i < 3 ==> (#[trigger] a[i]).eq_spec(&b[i])
}

impl<T: PartialEq> PartialEq for SharedState<T> {
    fn eq(&self, other: &Self) -> (r: bool) {
        let e0 = self.buffers[0] == other.buffers[0];
        let e1 = self.buffers[1] == other.buffers[1];
        let e2 = self.buffers[2] == other.buffers[2];
        e0 && e1 && e2 && self.back_info == other.back_info
    }
}

impl<T: PartialEq> vstd::std_specs::cmp::PartialEqSpecImpl for SharedState<T> {
    open spec fn obeys_eq_spec() -> bool {
        <T as PartialEqSpec>::obeys_eq_spec()
    }

    open spec fn eq_spec(&self, other: &Self) -> bool {
        same_slots(self.slots(), other.slots()) && self.info() == other.info()
    }
}

} // verus!
