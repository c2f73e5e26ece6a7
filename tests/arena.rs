use sprocket_tasks::arena::{AllocError, Arena, Span};

#[test]
fn allocations_are_consecutive_and_disjoint() {
    let mut a = Arena::new(16);
    let sizes = [3usize, 5, 8];
    let mut spans = Vec::new();
    for s in sizes {
        spans.push(a.allocate(s).unwrap());
    }
    assert_eq!(spans[0], Span { start: 0, len: 3 });
    assert_eq!(spans[1], Span { start: 3, len: 5 });
    assert_eq!(spans[2], Span { start: 8, len: 8 });
    for i in 0..spans.len() {
        for j in i + 1..spans.len() {
            assert!(spans[i].start + spans[i].len <= spans[j].start);
        }
    }
    assert_eq!(a.used(), 16);
    assert_eq!(a.remaining(), 0);
}

#[test]
fn first_allocation_past_capacity_fails() {
    let mut a = Arena::new(16);
    assert_eq!(a.allocate(10), Ok(Span { start: 0, len: 10 }));
    assert_eq!(a.allocate(7), Err(AllocError { requested: 7, available: 6 }));
    assert_eq!(a.used(), 10);
    assert_eq!(a.allocate(6), Ok(Span { start: 10, len: 6 }));
    assert_eq!(a.allocate(1), Err(AllocError { requested: 1, available: 0 }));
    assert_eq!(a.capacity(), 16);
}

#[test]
fn zero_sized_request_takes_nothing() {
    let mut a = Arena::new(4);
    assert_eq!(a.allocate(0), Ok(Span { start: 0, len: 0 }));
    assert_eq!(a.used(), 0);
}

#[test]
fn values_are_placed_by_their_size() {
    let mut a = Arena::new(20);
    let mut x = a.allocate_value(7u64).unwrap();
    assert_eq!(x.location(), Span { start: 0, len: 8 });
    assert_eq!(*x.get(), 7);
    *x.get_mut() = 9;
    assert_eq!(*x.get(), 9);
    let y = a.allocate_value(1u32).unwrap();
    assert_eq!(y.location(), Span { start: 8, len: 4 });
    assert!(a.allocate_value(2u64).is_ok());
    assert!(a.allocate_value(3u8).is_err());
    assert_eq!(a.used(), 20);
}
