//! The back-buffer descriptor: one word holding the index of the slot in
//! transit (low two bits) and a dirty flag (third bit).
use vstd::prelude::*;

verus! {

/// Mask that extracts the back-buffer index from a descriptor.
pub const BACK_INDEX_MASK: usize = 0b11;

/// Bit set by the producer when it publishes, cleared by the consumer.
pub const BACK_DIRTY_BIT: usize = 0b100;

/// The slot index that a descriptor names.
pub open spec fn index_of(info: usize) -> usize {
    info % 4
}

/// Whether a descriptor carries a value that the consumer has not taken.
pub open spec fn is_dirty(info: usize) -> bool {
    info % 8 >= 4
}

/// The descriptor of slot `idx` with the given dirty flag.
pub open spec fn descriptor(idx: usize, dirty: bool) -> usize {
    if dirty {
        (idx + 4) as usize
    } else {
        idx
    }
}

/// A descriptor names one of the three slots and has no other bit set.
pub open spec fn valid_info(info: usize) -> bool {
    info < 8 && index_of(info) < 3
}

/// The three indices are those of three distinct slots.
pub open spec fn partitioned(input_idx: usize, output_idx: usize, back_idx: usize) -> bool {
    &&& input_idx < 3
    &&& output_idx < 3
    &&& back_idx < 3
    &&& input_idx != output_idx
    &&& input_idx != back_idx
    &&& output_idx != back_idx
}

/// A descriptor rebuilt from its parts is the same word.
pub proof fn lemma_descriptor_parts(idx: usize, dirty: bool)
    requires
        idx < 3,
    ensures
        valid_info(descriptor(idx, dirty)),
        index_of(descriptor(idx, dirty)) == idx,
        is_dirty(descriptor(idx, dirty)) == dirty,
{
}

/// Packs a slot index and a dirty flag into a descriptor.
pub fn pack(idx: usize, dirty: bool) -> (r: usize)
    requires
        idx < 3,
    ensures
        r == descriptor(idx, dirty),
{
    if dirty {
        assert(idx | 4usize == idx + 4) by (bit_vector)
            requires
                idx < 3usize,
        ;
        idx | BACK_DIRTY_BIT
    } else {
        idx
    }
}

/// Whether a word is a well-formed descriptor.
pub fn is_valid(info: usize) -> (r: bool)
    ensures
        r == valid_info(info),
{
    info < 8 && info % 4 < 3
}

/// Reads the slot index out of a descriptor.
pub fn back_index(info: usize) -> (r: usize)
    ensures
        r == index_of(info),
{
    assert(info & 3usize == info % 4) by (bit_vector);
    info & BACK_INDEX_MASK
}

/// Reads the dirty flag out of a descriptor.
pub fn dirty(info: usize) -> (r: bool)
    ensures
        r == is_dirty(info),
{
    assert((info & 4usize != 0usize) == (info % 8 >= 4)) by (bit_vector);
    info & BACK_DIRTY_BIT != 0
}

} // verus!
