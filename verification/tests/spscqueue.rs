use libkernel::datastructures::spscqueue::{BufferFullError, SpscQueue};

#[test]
fn spscqueue_push_back_pushes_entry() {
    let mut buffer = SpscQueue::<u32, 3>::new();
    assert_eq!(Ok(()), buffer.push_back(1));
    assert_eq!(1, buffer.peek(0).unwrap());
    assert_eq!(1, buffer.len());
}

#[test]
fn spscqueue_push_back_on_full_buffer_returns_error() {
    let mut buffer = SpscQueue::<u32, 2>::new();

    buffer.push_back(1).unwrap();
    assert_eq!(Err(BufferFullError(1)), buffer.push_back(2));
}

#[test]
fn spscqueue_pop_front_pops_oldest_element() {
    let mut buffer = SpscQueue::<u32, 3>::new();

    buffer.push_back(1).unwrap();
    buffer.push_back(2).unwrap();
    assert_eq!(Some(1), buffer.pop_front());
    assert_eq!(2, buffer.peek(0).unwrap());
    assert_eq!(1, buffer.len());
}

#[test]
fn spscqueue_pop_front_on_empty_buffer_returns_none() {
    let mut buffer = SpscQueue::<u32, 2>::new();
    assert_eq!(None, buffer.pop_front());
}

#[test]
fn spscqueue_get_invalid_index_returns_none() {
    let buffer = SpscQueue::<u32, 2>::new();
    assert_eq!(None, buffer.peek(0));
    assert_eq!(None, buffer.peek(1));
}

#[test]
fn spscqueue_buffer_wraps_around_after_elements_are_popped() {
    let mut buffer = SpscQueue::<u32, 4>::new();

    buffer.push_back(1).unwrap();
    buffer.push_back(2).unwrap();
    assert_eq!(Some(1), buffer.pop_front());
    assert_eq!(2, buffer.peek(0).unwrap());

    buffer.push_back(3).unwrap();
    buffer.push_back(4).unwrap();
    assert_eq!(3, buffer.peek(1).unwrap());
    assert_eq!(4, buffer.peek(2).unwrap());
}

#[test]
fn spscqueue_len_counts_across_the_wrap() {
    let mut buffer = SpscQueue::<u32, 3>::new();
    buffer.push_back(1).unwrap();
    buffer.push_back(2).unwrap();
    assert_eq!(Some(1), buffer.pop_front());
    assert_eq!(Some(2), buffer.pop_front());
    buffer.push_back(3).unwrap();
    buffer.push_back(4).unwrap();
    assert_eq!(2, buffer.len());
    assert_eq!(Err(BufferFullError(2)), buffer.push_back(5));
    assert_eq!(Some(3), buffer.peek(0));
    assert_eq!(Some(4), buffer.peek(1));
}

#[test]
fn spscqueue_clear_empties_the_queue() {
    let mut buffer = SpscQueue::<u32, 4>::new();
    buffer.push_back(1).unwrap();
    buffer.push_back(2).unwrap();
    buffer.clear();
    assert_eq!(0, buffer.len());
    assert_eq!(None, buffer.pop_front());
    buffer.push_back(9).unwrap();
    assert_eq!(Some(9), buffer.pop_front());
}
