//! The whole triple buffer, before it is split into its two handles.
use vstd::prelude::*;
use vstd::std_specs::cmp::PartialEqSpec;

use crate::back_info::{index_of, partitioned};
use crate::input::Input;
use crate::output::Output;
use crate::state::{same_slots, SharedState};

verus! {

/// A triple buffer: a producer handle, a consumer handle and the storage
/// that they share.
#[derive(Debug)]
pub struct TripleBuffer<T> {
    /// Handle of the producer.
    pub input: Input,
    /// Handle of the consumer.
    pub output: Output,
    /// Slots and descriptor.
    pub shared: SharedState<T>,
}

impl<T> TripleBuffer<T> {
    /// The input, output and back slots are three distinct slots.
    pub open spec fn wf(&self) -> bool {
        &&& self.shared.wf()
        &&& partitioned(self.input.input_idx, self.output.output_idx, self.shared.back_idx())
    }

    /// The state of a buffer just built: the producer holds slot 1, the
    /// consumer slot 2, and slot 0 is the back slot, clean.
    pub open spec fn fresh(&self) -> bool {
        &&& self.wf()
        &&& self.input.input_idx == 1
        &&& self.output.output_idx == 2
        &&& self.shared.info() == 0
    }

    /// Builds a triple buffer whose slots each get a value of their own from
    /// `generator`, called once per slot.
    pub fn new_impl<F: Fn() -> T>(generator: F) -> (r: Self)
        requires
            generator.requires(()),
        ensures
            r.fresh(),
            forall|i: int| 0 <= i < 3 ==> generator.ensures((), #[trigger] r.shared.slots()[i]),
    {
        let b0 = generator();
        let b1 = generator();
        let b2 = generator();
        let shared = SharedState::new([b0, b1, b2], 0);
        assert(index_of(0) == 0);
        TripleBuffer { input: Input { input_idx: 1 }, output: Output { output_idx: 2 }, shared }
    }

    /// Parts the buffer into the producer handle, the consumer handle and
    /// their shared storage.
    pub fn split(self) -> (r: (Input, Output, SharedState<T>))
        ensures
            r == (self.input, self.output, self.shared),
    {
        (self.input, self.output, self.shared)
    }
}

impl<T: Clone> TripleBuffer<T> {
    /// Builds a triple buffer whose three slots each hold a clone of
    /// `initial`.
    pub fn new(initial: T) -> (r: Self)
        ensures
            r.fresh(),
            forall|i: int| 0 <= i < 3 ==> cloned::<T>(initial, #[trigger] r.shared.slots()[i]),
    {
        Self::new_impl(|| -> (v: T)
            ensures
                cloned::<T>(initial, v),
            { initial.clone() })
    }
}

impl<T: Default> Default for TripleBuffer<T> {
    /// Builds a triple buffer whose three slots each hold `T`'s default.
    fn default() -> (r: Self)
        ensures
            r.fresh(),
            forall|i: int|
                0 <= i < 3 ==> call_ensures(T::default, (), #[trigger] r.shared.slots()[i]),
    {
        Self::new_impl(|| -> (v: T)
            ensures
                call_ensures(T::default, (), v),
            { T::default() })
    }
}

impl<T: Clone> Clone for TripleBuffer<T> {
    /// A copy with storage of its own: same indices and descriptor, each slot
    /// a clone of the matching one. No handle may be in use meanwhile.
    fn clone(&self) -> (r: Self)
        ensures
            r.input == self.input,
            r.output == self.output,
            r.shared.info() == self.shared.info(),
            r.shared.slots().len() == self.shared.slots().len(),
            forall|i: int|
                0 <= i < 3 ==> cloned::<T>(
                    #[trigger] self.shared.slots()[i],
                    r.shared.slots()[i],
                ),
    {
        TripleBuffer {
            input: Input { input_idx: self.input.input_idx },
            output: Output { output_idx: self.output.output_idx },
            shared: self.shared.clone(),
        }
    }
}

impl<T: PartialEq> PartialEq for TripleBuffer<T> {
    /// Equal slots, descriptors and indices. No handle may be in use
    /// meanwhile.
    fn eq(&self, other: &Self) -> (r: bool) {
        self.shared == other.shared && self.input.input_idx == other.input.input_idx
            && self.output.output_idx == other.output.output_idx
    }
}

impl<T: PartialEq> vstd::std_specs::cmp::PartialEqSpecImpl for TripleBuffer<T> {
    open spec fn obeys_eq_spec() -> bool {
        <T as PartialEqSpec>::obeys_eq_spec()
    }

    open spec fn eq_spec(&self, other: &Self) -> bool {
        &&& same_slots(self.shared.slots(), other.shared.slots())
        &&& self.shared.info() == other.shared.info()
        &&& self.input == other.input
        &&& self.output == other.output
    }
}

} // verus!
