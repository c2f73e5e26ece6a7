use sprocket_tasks::queue::{QueueFullError, SpscQueue, CAPACITY};

#[test]
fn new_queue_is_empty() {
    let q = SpscQueue::new();
    assert_eq!(q.len(), 0);
    assert!(q.is_empty());
    assert!(!q.is_full());
    assert_eq!(q.capacity(), 16);
    assert_eq!(CAPACITY, 16);
}

#[test]
fn fifo_order_up_to_capacity() {
    for n in 0..=16u32 {
        let mut q = SpscQueue::new();
        for v in 0..n {
            assert_eq!(q.enqueue(100 + v), Ok(()));
        }
        assert_eq!(q.len(), n as usize);
        for v in 0..n {
            assert_eq!(q.dequeue(), Some(100 + v));
        }
        assert_eq!(q.dequeue(), None);
    }
}

#[test]
fn enqueue_on_full_queue_fails_and_keeps_occupancy() {
    let mut q = SpscQueue::new();
    for v in 1..=16u32 {
        assert_eq!(q.enqueue(v), Ok(()));
    }
    assert!(q.is_full());
    assert_eq!(q.enqueue(99), Err(QueueFullError { value: 99 }));
    assert_eq!(q.len(), 16);
    assert_eq!(q.dequeue(), Some(1));
    assert_eq!(q.enqueue(17), Ok(()));
    for v in 2..=17u32 {
        assert_eq!(q.dequeue(), Some(v));
    }
}

#[test]
fn dequeue_on_empty_queue_returns_nothing() {
    let mut q = SpscQueue::new();
    assert_eq!(q.dequeue(), None);
    assert_eq!(q.len(), 0);
    assert_eq!(q.enqueue(5), Ok(()));
    assert_eq!(q.dequeue(), Some(5));
    assert_eq!(q.dequeue(), None);
    assert_eq!(q.len(), 0);
}

#[test]
fn interleaved_use_wraps_around_the_ring() {
    let mut q = SpscQueue::new();
    let mut next_in: u32 = 0;
    let mut next_out: u32 = 0;
    for _ in 0..100 {
        for _ in 0..3 {
            assert_eq!(q.enqueue(next_in), Ok(()));
            next_in += 1;
        }
        for _ in 0..3 {
            assert_eq!(q.dequeue(), Some(next_out));
            next_out += 1;
        }
    }
    assert!(q.is_empty());
}
