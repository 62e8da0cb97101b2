use libkernel::datastructures::ringbuffer::{BufferFullError, RingBuffer};

#[test]
fn ringbuffer_push_back_pushes_entry() {
    let mut buffer = RingBuffer::<u32, 2>::new();
    assert_eq!(Ok(()), buffer.push_back(1));
    assert_eq!(1, *buffer.index(0));
    assert_eq!(1, buffer.len());
}

#[test]
fn ringbuffer_push_back_on_full_buffer_returns_error() {
    let mut buffer = RingBuffer::<u32, 1>::new();

    buffer.push_back(1).unwrap();
    assert_eq!(Err(BufferFullError(1)), buffer.push_back(2));
}

#[test]
fn ringbuffer_pop_front_pops_oldest_element() {
    let mut buffer = RingBuffer::<u32, 2>::new();

    buffer.push_back(1).unwrap();
    buffer.push_back(2).unwrap();
    assert_eq!(Some(1), buffer.pop_front());
    assert_eq!(2, *buffer.index(0));
    assert_eq!(1, buffer.len());
}

#[test]
fn ringbuffer_pop_front_on_empty_buffer_returns_none() {
    let mut buffer = RingBuffer::<u32, 0>::new();
    assert_eq!(None, buffer.pop_front());
}

#[test]
fn ringbuffer_get_invalid_index_returns_none() {
    let buffer = RingBuffer::<u32, 1>::new();
    assert_eq!(None, buffer.get(0));
    assert_eq!(None, buffer.get(1));
}

#[test]
fn ringbuffer_buffer_wraps_around_after_elements_are_popped() {
    let mut buffer = RingBuffer::<u32, 3>::new();

    buffer.push_back(1).unwrap();
    buffer.push_back(2).unwrap();
    assert_eq!(Some(1), buffer.pop_front());
    assert_eq!(2, *buffer.index(0));

    buffer.push_back(3).unwrap();
    buffer.push_back(4).unwrap();
    assert_eq!(3, *buffer.index(1));
    assert_eq!(4, *buffer.index(2));
}

#[test]
fn iter_iterates_all_populated_entries() {
    let mut buffer = RingBuffer::<u32, 2>::new();

    buffer.push_back(1).unwrap();
    buffer.push_back(2).unwrap();
    buffer.pop_front().unwrap();
    buffer.push_back(3).unwrap();

    let mut iterator = buffer.iter();
    assert_eq!(Some(&2), iterator.next());
    assert_eq!(Some(&3), iterator.next());
    assert_eq!(None, iterator.next());
}

#[test]
fn iter_does_not_exceed_len() {
    let mut buffer = RingBuffer::<u32, 1>::new();
    buffer.push_back(1).unwrap();

    let mut iterator = buffer.iter();
    assert_eq!(Some(&1), iterator.next());
    assert_eq!(None, iterator.next());
}

#[test]
fn clear_removes_all_elements() {
    let mut buffer = RingBuffer::<u32, 2>::new();
    buffer.push_back(1).unwrap();
    buffer.push_back(2).unwrap();
    buffer.clear();

    assert_eq!(0, buffer.len());
    assert_eq!(None, buffer.pop_front());
}

#[test]
fn ringbuffer_full_push_leaves_buffer_unchanged() {
    let mut buffer = RingBuffer::<u32, 2>::new();
    buffer.push_back(5).unwrap();
    buffer.push_back(6).unwrap();
    assert!(buffer.is_full());
    assert_eq!(Err(BufferFullError(2)), buffer.push_back(7));
    assert_eq!(Some(&5), buffer.get(0));
    assert_eq!(Some(&6), buffer.get(1));
    assert_eq!(2, buffer.len());
}

#[test]
fn ringbuffer_keeps_fifo_order_across_many_wraps() {
    let mut buffer = RingBuffer::<u32, 3>::new();
    let mut next_in = 0u32;
    let mut next_out = 0u32;
    for round in 0..20u32 {
        while !buffer.is_full() {
            buffer.push_back(next_in).unwrap();
            next_in += 1;
        }
        let take = 1 + round % 3;
        for _ in 0..take {
            assert_eq!(Some(next_out), buffer.pop_front());
            next_out += 1;
        }
    }
    assert!(buffer.len() <= 3);
}

#[test]
fn ringbuffer_is_empty_after_popping_everything() {
    let mut buffer = RingBuffer::<u32, 2>::new();
    assert!(buffer.is_empty());
    buffer.push_back(1).unwrap();
    assert!(!buffer.is_empty());
    buffer.pop_front().unwrap();
    assert!(buffer.is_empty());
}

#[test]
fn iteration_yields_exactly_len_items_then_none() {
    let mut buffer = RingBuffer::<u32, 3>::new();
    buffer.push_back(1).unwrap();
    buffer.push_back(2).unwrap();
    buffer.pop_front().unwrap();
    buffer.push_back(3).unwrap();
    buffer.push_back(4).unwrap();
    let mut iterator = buffer.iter();
    let yielded: Vec<Option<&u32>> = (0..6).map(|_| iterator.next()).collect();
    assert_eq!(vec![Some(&2), Some(&3), Some(&4), None, None, None], yielded);
    assert_eq!(3, buffer.len());
    assert!(buffer.is_full());
}
