use sprocket_tasks::arena::Arena;
use sprocket_tasks::handlers::{BlinkPhase, MainHandler, StepdownButton};
use sprocket_tasks::queue::SpscQueue;
use sprocket_tasks::receive::AsyncReceive;
use sprocket_tasks::task::{step, Steppable, TaskHandle};

#[test]
fn receive_waits_for_a_message() {
    let mut q = SpscQueue::new();
    let mut rx = AsyncReceive::new();
    assert_eq!(rx.step(&mut q), None);
    assert_eq!(rx.received, None);
    q.enqueue(7).unwrap();
    q.enqueue(8).unwrap();
    assert_eq!(rx.step(&mut q), Some(7));
    assert_eq!(rx.received, Some(7));
    assert_eq!(q.len(), 1);
}

#[test]
fn producer_blinks_then_sends() {
    let mut q = SpscQueue::new();
    let mut p = StepdownButton::new(8, 0);
    assert_eq!(p.step(&mut q), None);
    assert_eq!(p.phase, BlinkPhase::Low);
    assert!(p.led_low);
    assert!(q.is_empty());
    p.step(&mut q);
    assert_eq!(p.phase, BlinkPhase::High);
    assert!(!p.led_low);
    assert!(q.is_empty());
    p.step(&mut q);
    assert!(p.led_low);
    assert_eq!(p.ttl_ct, 1);
    assert_eq!(q.dequeue(), Some(1));
}

#[test]
fn producer_passes_restart_after_count_halves() {
    let mut q = SpscQueue::new();
    let mut p = StepdownButton::new(3, 0);
    p.step(&mut q);
    p.step(&mut q);
    p.step(&mut q);
    assert_eq!(p.round, 1);
    p.step(&mut q);
    p.step(&mut q);
    assert_eq!(p.round, 0);
    assert_eq!(p.ttl_ct, 2);
}

#[test]
fn producer_count_wraps() {
    let mut q = SpscQueue::new();
    let mut p = StepdownButton::new(1, u32::MAX);
    p.step(&mut q);
    p.step(&mut q);
    p.step(&mut q);
    assert_eq!(p.ttl_ct, 0);
    assert_eq!(q.dequeue(), Some(0));
}

#[test]
fn consumer_takes_everything_in_pairs() {
    let mut q = SpscQueue::new();
    let mut c = MainHandler::new();
    assert_eq!(c.step(&mut q), None);
    assert_eq!(c.last, None);
    for v in 1..=3u32 {
        q.enqueue(v).unwrap();
    }
    c.step(&mut q);
    assert!(q.is_empty());
    assert_eq!(c.last, Some(3));
    assert!(c.awaiting_second);
    assert!(c.led_low);
    q.enqueue(4).unwrap();
    c.step(&mut q);
    assert_eq!(c.last, Some(4));
    assert!(!c.awaiting_second);
    assert!(!c.led_low);
}

#[test]
fn producer_and_consumer_hand_over_sixteen_counts() {
    let mut arena = Arena::new(1024);
    let mut q = SpscQueue::new();
    let mut producer =
        TaskHandle::spawn(&mut arena, 8usize, |count| StepdownButton::new(*count.get(), 0))
            .unwrap();
    let mut consumer = TaskHandle::spawn(&mut arena, (), |_| MainHandler::new()).unwrap();
    // The first count goes out on the producer's third step, each later one
    // two steps after the one before.
    assert_eq!(step(&mut producer, &mut q), None);
    for i in 1..=16u32 {
        assert_eq!(step(&mut producer, &mut q), None);
        assert_eq!(step(&mut producer, &mut q), None);
        assert_eq!(q.len(), 1);
        assert_eq!(step(&mut consumer, &mut q), None);
        let c = consumer.computation_ref();
        assert_eq!(c.last, Some(i));
        assert_eq!(c.awaiting_second, i % 2 == 1);
        assert_eq!(c.led_low, i % 2 == 1);
        assert!(q.is_empty());
    }
}
