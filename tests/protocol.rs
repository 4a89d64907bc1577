use triple_buffer::{Input, Output, SharedState, TripleBuffer, BACK_DIRTY_BIT, BACK_INDEX_MASK};
use triple_buffer::back_info::{back_index, dirty, is_valid, pack};

#[test]
fn basic_handoff() {
    let (mut input, mut output, mut shared) = TripleBuffer::new(42).split();
    assert_eq!(*output.read(&mut shared), 42);
    input.write(&mut shared, 7);
    assert_eq!(*output.read(&mut shared), 7);
    let before = shared.back_info();
    assert_eq!(*output.read(&mut shared), 7);
    assert_eq!(shared.back_info(), before);
}

#[test]
fn read_after_write_returns_written_value() {
    let (mut input, mut output, mut shared) = TripleBuffer::new(String::from("start")).split();
    input.write(&mut shared, String::from("next"));
    assert_eq!(output.read(&mut shared).as_str(), "next");
}

#[test]
fn second_write_overwrites_first() {
    let (mut input, mut output, mut shared) = TripleBuffer::new(0u64).split();
    *input.raw_input_buffer(&mut shared) = 1;
    assert!(!input.raw_publish(&mut shared));
    *input.raw_input_buffer(&mut shared) = 2;
    assert!(input.raw_publish(&mut shared));
    assert_eq!(*output.read(&mut shared), 2);

    input.write(&mut shared, 3);
    input.write(&mut shared, 4);
    assert_eq!(*output.read(&mut shared), 4);
}

#[test]
fn first_publish_after_read_reports_no_overwrite() {
    let (mut input, mut output, mut shared) = TripleBuffer::new(0u8).split();
    input.write(&mut shared, 5);
    assert_eq!(*output.read(&mut shared), 5);
    assert!(!input.raw_publish(&mut shared));
}

#[test]
fn clean_read_leaves_state_alone() {
    let mut buf = TripleBuffer::new(10i32);
    buf.input.write(&mut buf.shared, 11);
    assert_eq!(*buf.output.read(&mut buf.shared), 11);
    let before = buf.clone();
    assert_eq!(*buf.output.read(&mut buf.shared), 11);
    assert_eq!(buf, before);
    assert_eq!(buf.shared.back_info() & BACK_DIRTY_BIT, 0);
}

#[test]
fn duplicate_is_independent() {
    let mut original = TripleBuffer::new(vec![1u8, 2]);
    let mut duplicate = original.clone();
    original.input.write(&mut original.shared, vec![9]);
    assert_eq!(*duplicate.output.read(&mut duplicate.shared), vec![1u8, 2]);
    assert_eq!(*original.output.read(&mut original.shared), vec![9u8]);

    duplicate.input.write(&mut duplicate.shared, vec![7]);
    assert_eq!(*original.output.read(&mut original.shared), vec![9u8]);
    assert_eq!(*duplicate.output.read(&mut duplicate.shared), vec![7u8]);
}

#[test]
fn fresh_buffers_compare_by_contents_and_indices() {
    let a = TripleBuffer::new(3u32);
    let b = TripleBuffer::new(3u32);
    assert_eq!(a, b);
    let mut c = TripleBuffer::new(3u32);
    c.output.output_idx = 0;
    assert!(a != c);
    let mut d = TripleBuffer::new(3u32);
    d.input.input_idx = 0;
    assert!(a != d);
    assert!(a != TripleBuffer::new(4u32));
}

#[test]
fn diagnostics_follow_dirty_bit() {
    let (mut input, mut output, mut shared) = TripleBuffer::new('a').split();
    assert!(input.consumed(&shared));
    assert!(!output.updated(&shared));
    input.write(&mut shared, 'b');
    assert!(!input.consumed(&shared));
    assert!(output.updated(&shared));
    assert!(output.raw_update(&mut shared));
    assert!(input.consumed(&shared));
    assert!(!output.updated(&shared));
    assert!(!output.raw_update(&mut shared));
}

#[test]
fn output_edits_are_replaced_by_update() {
    let (mut input, mut output, mut shared) = TripleBuffer::new(String::new()).split();
    output.raw_output_buffer(&mut shared).push_str("local");
    assert!(!output.raw_update(&mut shared));
    assert_eq!(output.raw_output_buffer(&mut shared).as_str(), "local");
    input.write(&mut shared, String::from("fresh"));
    assert!(output.raw_update(&mut shared));
    assert_eq!(output.raw_output_buffer(&mut shared).as_str(), "fresh");
}

#[test]
fn descriptor_after_write_and_read() {
    let mut buf = TripleBuffer::new(0u16);
    assert_eq!(buf.shared.back_info(), 0);
    assert_eq!(buf.input.input_idx, 1);
    assert_eq!(buf.output.output_idx, 2);
    buf.input.write(&mut buf.shared, 1);
    assert_eq!(buf.shared.back_info(), 1 | BACK_DIRTY_BIT);
    assert_eq!(buf.input.input_idx, 0);
    buf.output.read(&mut buf.shared);
    assert_eq!(buf.shared.back_info(), 2);
    assert_eq!(buf.shared.back_info() & BACK_INDEX_MASK, 2);
    assert_eq!(buf.output.output_idx, 1);
}

#[test]
fn constructors_fill_every_slot() {
    let d: TripleBuffer<u32> = TripleBuffer::default();
    let g = TripleBuffer::new_impl(|| 0u32);
    assert_eq!(d, g);
    for i in 0..3 {
        assert_eq!(*d.shared.buffer(i), 0);
    }
    let (input, output, shared) = g.split();
    let rebuilt = TripleBuffer { input, output, shared };
    assert_eq!(rebuilt, TripleBuffer::new(0u32));
}

#[test]
fn handles_can_be_built_from_indices() {
    let mut shared = SharedState::new([1u8, 2, 3], 0);
    let mut input = Input { input_idx: 1 };
    let mut output = Output { output_idx: 2 };
    assert_eq!(*output.read(&mut shared), 3);
    input.write(&mut shared, 4);
    assert_eq!(*output.read(&mut shared), 4);
    assert_eq!(*shared.buffer(1), 4);
}

#[test]
fn handles_take_over_returned_slots() {
    let mut input = Input { input_idx: 0 };
    assert!(input.take_back(2 | BACK_DIRTY_BIT));
    assert_eq!(input.input_idx, 2);
    assert!(!input.take_back(1));
    assert_eq!(input.input_idx, 1);

    let mut output = Output { output_idx: 0 };
    output.take_back(2 | BACK_DIRTY_BIT);
    assert_eq!(output.output_idx, 2);
}

#[test]
fn descriptor_helpers() {
    assert_eq!(pack(2, true), 6);
    assert_eq!(pack(1, false), 1);
    assert_eq!(back_index(6), 2);
    assert!(dirty(6));
    assert!(!dirty(2));
    assert!(is_valid(6));
    assert!(!is_valid(3));
    assert!(!is_valid(7));
    assert!(!is_valid(8));
}

#[test]
fn storage_comes_apart_into_slots_and_descriptor() {
    let (slots, info) = SharedState::new([5u8, 6, 7], 2 | BACK_DIRTY_BIT).into_parts();
    assert_eq!(slots, [5, 6, 7]);
    assert_eq!(info, 6);
}
