use libkernel::datastructures::buffered_queue::{BufferFullError, BufferedQueue};

#[test]
fn test_pushing_into_full_queue_returns_error() {
    let mut queue = BufferedQueue::<u32, 1>::new();

    assert_eq!(Ok(()), queue.push(1));
    assert_eq!(Err(BufferFullError), queue.push(1));
}

#[test]
fn test_popping_from_queue_pops_oldest_entry() {
    let mut queue = BufferedQueue::<u32, 2>::new();

    assert_eq!(Ok(()), queue.push(1));
    assert_eq!(Ok(()), queue.push(2));
    assert_eq!(Some(1), queue.pop());
    assert_eq!(Some(2), queue.pop());
}

#[test]
fn test_popping_empty_queue_returns_none() {
    let mut queue = BufferedQueue::<u32, 0>::new();

    assert_eq!(None, queue.pop());
}

#[test]
fn test_push_overwriting_on_full_buffer_overwrites_oldest_entry() {
    let mut queue = BufferedQueue::<u32, 2>::new();
    assert_eq!(Ok(()), queue.push(1));
    assert_eq!(Ok(()), queue.push(2));
    assert_eq!(Some(1), queue.push_overwriting(3));
    assert_eq!(&[2, 3], queue.as_slice());
}

#[test]
fn test_push_overwriting_on_non_full_buffer_does_not_overwrite() {
    let mut queue = BufferedQueue::<u32, 2>::new();
    assert_eq!(Ok(()), queue.push(1));
    assert_eq!(None, queue.push_overwriting(2));
    assert_eq!(&[1, 2], queue.as_slice());
}

#[test]
fn buffered_queue_reports_length_and_fullness() {
    let mut queue = BufferedQueue::<u32, 2>::new();
    assert!(queue.is_empty());
    assert!(!queue.is_full());
    queue.push(7).unwrap();
    assert_eq!(1, queue.len());
    queue.push(8).unwrap();
    assert!(queue.is_full());
    assert!(!queue.is_empty());
}

#[test]
fn buffered_queue_iter_yields_oldest_first() {
    let mut queue = BufferedQueue::<u32, 3>::new();
    queue.push(4).unwrap();
    queue.push(5).unwrap();
    queue.push(6).unwrap();
    assert_eq!(Some(4), queue.push_overwriting(7));
    let items: Vec<u32> = queue.iter().copied().collect();
    assert_eq!(vec![5, 6, 7], items);
}

#[test]
fn buffered_queue_full_push_leaves_queue_unchanged() {
    let mut queue = BufferedQueue::<u32, 2>::new();
    queue.push(1).unwrap();
    queue.push(2).unwrap();
    assert_eq!(Err(BufferFullError), queue.push(3));
    assert_eq!(&[1, 2], queue.as_slice());
}

#[test]
fn buffered_queue_iter_yields_len_items_then_none() {
    let mut queue = BufferedQueue::<u32, 3>::new();
    queue.push(1).unwrap();
    queue.push(2).unwrap();
    let mut iterator = queue.iter();
    assert_eq!(Some(&1), iterator.next());
    assert_eq!(Some(&2), iterator.next());
    assert_eq!(None, iterator.next());
    assert_eq!(2, queue.len());
}
