//! What holds of the handles' operations taken together.
use vstd::prelude::*;
use vstd::std_specs::cmp::PartialEqSpec;

use crate::back_info::{lemma_descriptor_parts, partitioned};
use crate::buffer::TripleBuffer;
use crate::input::{publish_step, write_step, Input};
use crate::output::{read_step, update_step, Output};
use crate::state::{same_slots, SharedState};

verus! {

/// A publish keeps the input, output and back slots three distinct slots.
pub proof fn publish_keeps_partition<T>(
    i0: Input,
    o: Output,
    s0: SharedState<T>,
    i1: Input,
    s1: SharedState<T>,
    overwrote: bool,
)
    requires
        s0.wf(),
        partitioned(i0.input_idx, o.output_idx, s0.back_idx()),
        publish_step(i0, s0, i1, s1, overwrote),
    ensures
        partitioned(i1.input_idx, o.output_idx, s1.back_idx()),
{
    lemma_descriptor_parts(i0.input_idx, true);
}

/// A write keeps the input, output and back slots three distinct slots.
pub proof fn write_keeps_partition<T>(
    i0: Input,
    o: Output,
    s0: SharedState<T>,
    value: T,
    i1: Input,
    s1: SharedState<T>,
)
    requires
        s0.wf(),
        partitioned(i0.input_idx, o.output_idx, s0.back_idx()),
        write_step(i0, s0, value, i1, s1),
    ensures
        partitioned(i1.input_idx, o.output_idx, s1.back_idx()),
{
    lemma_descriptor_parts(i0.input_idx, true);
}

/// An update, and so a read, keeps the input, output and back slots three
/// distinct slots.
pub proof fn update_keeps_partition<T>(
    i: Input,
    o0: Output,
    s0: SharedState<T>,
    o1: Output,
    s1: SharedState<T>,
    updated: bool,
)
    requires
        s0.wf(),
        partitioned(i.input_idx, o0.output_idx, s0.back_idx()),
        update_step(o0, s0, o1, s1, updated),
    ensures
        partitioned(i.input_idx, o1.output_idx, s1.back_idx()),
{
    lemma_descriptor_parts(o0.output_idx, false);
}

/// A read that follows a write of `value`, with no write between, returns
/// `value`.
pub proof fn read_sees_write<T>(
    i0: Input,
    o0: Output,
    s0: SharedState<T>,
    value: T,
    i1: Input,
    s1: SharedState<T>,
    o2: Output,
    s2: SharedState<T>,
    read: T,
)
    requires
        s0.wf(),
        partitioned(i0.input_idx, o0.output_idx, s0.back_idx()),
        write_step(i0, s0, value, i1, s1),
        read_step(o0, s1, o2, s2, read),
    ensures
        read == value,
{
    lemma_descriptor_parts(i0.input_idx, true);
}

/// Of two writes with no read between, a read then returns the second value.
pub proof fn second_write_wins<T>(
    i0: Input,
    o0: Output,
    s0: SharedState<T>,
    first: T,
    i1: Input,
    s1: SharedState<T>,
    second: T,
    i2: Input,
    s2: SharedState<T>,
    o3: Output,
    s3: SharedState<T>,
    read: T,
)
    requires
        s0.wf(),
        partitioned(i0.input_idx, o0.output_idx, s0.back_idx()),
        write_step(i0, s0, first, i1, s1),
        write_step(i1, s1, second, i2, s2),
        read_step(o0, s2, o3, s3, read),
    ensures
        read == second,
{
    lemma_descriptor_parts(i0.input_idx, true);
    lemma_descriptor_parts(i1.input_idx, true);
}

/// Of two publishes with no update between, the first reports an overwrite
/// exactly when an unread value was waiting, and the second always does.
pub proof fn second_publish_overwrites<T>(
    i0: Input,
    o: Output,
    s0: SharedState<T>,
    i1: Input,
    s1: SharedState<T>,
    first: bool,
    i2: Input,
    s2: SharedState<T>,
    second: bool,
)
    requires
        s0.wf(),
        partitioned(i0.input_idx, o.output_idx, s0.back_idx()),
        publish_step(i0, s0, i1, s1, first),
        publish_step(i1, s1, i2, s2, second),
    ensures
        first == s0.dirty(),
        second,
{
    lemma_descriptor_parts(i0.input_idx, true);
}

/// Two reads with no write between return the same value, and the second
/// changes neither the consumer's handle nor the shared storage.
pub proof fn clean_read_is_idempotent<T>(
    i: Input,
    o0: Output,
    s0: SharedState<T>,
    o1: Output,
    s1: SharedState<T>,
    first: T,
    o2: Output,
    s2: SharedState<T>,
    second: T,
)
    requires
        s0.wf(),
        partitioned(i.input_idx, o0.output_idx, s0.back_idx()),
        read_step(o0, s0, o1, s1, first),
        read_step(o1, s1, o2, s2, second),
    ensures
        !s1.dirty(),
        second == first,
        o2 == o1,
        s2.slots() == s1.slots(),
        s2.info() == s1.info(),
{
    lemma_descriptor_parts(o0.output_idx, false);
}

/// Two buffers just built, whose slots compare equal, compare equal.
pub proof fn fresh_buffers_equal<T: PartialEq>(a: TripleBuffer<T>, b: TripleBuffer<T>)
    requires
        a.fresh(),
        b.fresh(),
        same_slots(a.shared.slots(), b.shared.slots()),
    ensures
        a.eq_spec(&b),
{
}

/// Buffers whose input indices, or whose output indices, differ never
/// compare equal.
pub proof fn index_difference_breaks_equality<T: PartialEq>(
    a: TripleBuffer<T>,
    b: TripleBuffer<T>,
)
    requires
        a.input.input_idx != b.input.input_idx || a.output.output_idx != b.output.output_idx,
    ensures
        !a.eq_spec(&b),
{
}

} // verus!
