//! The producer's handle.
use vstd::prelude::*;

use crate::back_info::{
    back_index, descriptor, dirty, index_of, is_dirty, lemma_descriptor_parts, pack, valid_info,
};
use crate::state::SharedState;

verus! {

/// Producer side of a triple buffer: the index of the slot that only the
/// producer writes.
///
/// The handle owns nothing but that index; each operation is given the
/// shared storage, and its contract says what it does to both.
#[derive(Debug)]
pub struct Input {
    /// Index of the input slot.
    pub input_idx: usize,
}

/// One publish: the input slot becomes the back slot, marked dirty, and the
/// former back slot becomes the input slot. `overwrote` tells whether the
/// former back slot held a value that the consumer never took.
pub open spec fn publish_step<T>(
    i0: Input,
    s0: SharedState<T>,
    i1: Input,
    s1: SharedState<T>,
    overwrote: bool,
) -> bool {
    &&& s1.wf()
    &&& s1.slots() == s0.slots()
    &&& s1.info() == descriptor(i0.input_idx, true)
    &&& i1.input_idx == s0.back_idx()
    &&& overwrote == s0.dirty()
}

/// One write of `value`: it is stored in the input slot, which is then
/// published.
pub open spec fn write_step<T>(
    i0: Input,
    s0: SharedState<T>,
    value: T,
    i1: Input,
    s1: SharedState<T>,
) -> bool {
    &&& s1.wf()
    &&& s1.slots() == s0.slots().update(i0.input_idx as int, value)
    &&& s1.info() == descriptor(i0.input_idx, true)
    &&& i1.input_idx == s0.back_idx()
}

impl Input {
    /// Moves `value` into the input slot and publishes it to the consumer.
    pub fn write<T>(&mut self, shared: &mut SharedState<T>, value: T)
        requires
            old(self).input_idx < 3,
            old(shared).wf(),
        ensures
            write_step(*old(self), *old(shared), value, *final(self), *final(shared)),
    {
        *self.raw_input_buffer(shared) = value;
        self.publish(shared);
    }

    /// Whether the consumer has taken the last published value.
    ///
    /// For diagnostics only: whether to write must not depend on it.
    pub fn consumed<T>(&self, shared: &SharedState<T>) -> (r: bool)
        ensures
            r == !shared.dirty(),
    {
        !dirty(shared.back_info())
    }

    /// Mutable access to the input slot, to update it in place.
    ///
    /// The slot holds whatever the consumer last gave up, not the value last
    /// written; nothing is sent until `raw_publish` is called.
    pub fn raw_input_buffer<'a, T>(&self, shared: &'a mut SharedState<T>) -> (r: &'a mut T)
        requires
            self.input_idx < 3,
            old(shared).wf(),
        ensures
            *r == old(shared).slots()[self.input_idx as int],
            final(shared).slots() == old(shared).slots().update(
                self.input_idx as int,
                *final(r),
            ),
            final(shared).info() == old(shared).info(),
    {
        shared.buffer_mut(self.input_idx)
    }

    /// Publishes the input slot, telling whether an unread value was
    /// overwritten.
    pub fn raw_publish<T>(&mut self, shared: &mut SharedState<T>) -> (overwrote: bool)
        requires
            old(self).input_idx < 3,
            old(shared).wf(),
        ensures
            publish_step(*old(self), *old(shared), *final(self), *final(shared), overwrote),
    {
        self.publish(shared)
    }

    /// Takes over the slot that a publish handed back, given the descriptor
    /// that the exchange returned; tells whether that slot held a value the
    /// consumer never took.
    pub fn take_back(&mut self, former: usize) -> (overwrote: bool)
        requires
            valid_info(former),
        ensures
            final(self).input_idx == index_of(former),
            final(self).input_idx < 3,
            overwrote == is_dirty(former),
    {
        self.input_idx = back_index(former);
        dirty(former)
    }

    fn publish<T>(&mut self, shared: &mut SharedState<T>) -> (overwrote: bool)
        requires
            old(self).input_idx < 3,
            old(shared).wf(),
        ensures
            publish_step(*old(self), *old(shared), *final(self), *final(shared), overwrote),
    {
        proof {
            lemma_descriptor_parts(self.input_idx, true);
        }
        let former = shared.exchange(pack(self.input_idx, true));
        self.take_back(former)
    }
}

} // verus!
