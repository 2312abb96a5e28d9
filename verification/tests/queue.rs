use media_bridge::queue::BoundedQueue;

#[test]
fn new_queue_is_empty() {
    let q: BoundedQueue<u32> = BoundedQueue::new(3);
    assert_eq!(q.len(), 0);
    assert_eq!(q.capacity(), 3);
    assert!(q.is_empty());
    assert!(!q.is_full());
}

#[test]
fn items_leave_in_the_order_they_came() {
    let mut q: BoundedQueue<u32> = BoundedQueue::new(4);
    for n in [7, 3, 9, 3] {
        assert_eq!(q.try_push(n), Ok(()));
    }
    assert_eq!(q.pop(), Some(7));
    assert_eq!(q.pop(), Some(3));
    assert_eq!(q.try_push(1), Ok(()));
    assert_eq!(q.pop(), Some(9));
    assert_eq!(q.pop(), Some(3));
    assert_eq!(q.pop(), Some(1));
    assert_eq!(q.pop(), None);
}

#[test]
fn full_queue_hands_the_item_back_and_keeps_its_content() {
    let mut q: BoundedQueue<u32> = BoundedQueue::new(2);
    assert_eq!(q.try_push(1), Ok(()));
    assert_eq!(q.try_push(2), Ok(()));
    assert!(q.is_full());
    assert_eq!(q.try_push(3), Err(3));
    assert_eq!(q.len(), 2);
    assert_eq!(q.pop(), Some(1));
    assert!(!q.is_full());
    assert_eq!(q.try_push(3), Ok(()));
    assert_eq!(q.pop(), Some(2));
    assert_eq!(q.pop(), Some(3));
    assert!(q.is_empty());
}

#[test]
fn queue_without_room_accepts_nothing() {
    let mut q: BoundedQueue<u32> = BoundedQueue::new(0);
    assert!(q.is_full());
    assert!(q.is_empty());
    assert_eq!(q.try_push(5), Err(5));
    assert_eq!(q.pop(), None);
}

#[test]
fn interleaved_offers_and_takes_keep_the_order() {
    let mut q: BoundedQueue<u32> = BoundedQueue::new(3);
    let mut accepted = Vec::new();
    let mut delivered = Vec::new();
    for n in 0..40u32 {
        if q.try_push(n).is_ok() {
            accepted.push(n);
        }
        if n % 3 == 0 {
            if let Some(x) = q.pop() {
                delivered.push(x);
            }
        }
    }
    while let Some(x) = q.pop() {
        delivered.push(x);
    }
    assert_eq!(delivered, accepted);
}
