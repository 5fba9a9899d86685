use foreci::series::SeriesBuffer;

#[test]
fn buffer_keeps_last_capacity_values() {
    let mut b: SeriesBuffer<u64> = SeriesBuffer::new(3);
    for v in 1..=5u64 {
        b.push(v);
    }
    assert_eq!(b.len(), 3);
    assert_eq!(b.snapshot(), vec![3, 4, 5]);
}

#[test]
fn buffer_below_capacity_keeps_everything() {
    let mut b: SeriesBuffer<u64> = SeriesBuffer::new(4);
    b.push(7);
    b.push(8);
    assert_eq!(b.snapshot(), vec![7, 8]);
    assert_eq!(b.last(), Some(8));
    assert!(!b.is_empty());
}

#[test]
fn buffer_snapshot_does_not_change_contents() {
    let mut b: SeriesBuffer<u64> = SeriesBuffer::new(2);
    b.push(1);
    let first = b.snapshot();
    let second = b.snapshot();
    assert_eq!(first, second);
    assert_eq!(b.len(), 1);
}

#[test]
fn buffer_window_takes_newest() {
    let mut b: SeriesBuffer<u64> = SeriesBuffer::new(10);
    for v in 0..6u64 {
        b.push(v);
    }
    assert_eq!(b.window(2), vec![4, 5]);
    assert_eq!(b.window(100), vec![0, 1, 2, 3, 4, 5]);
    assert_eq!(b.window(0), Vec::<u64>::new());
}

#[test]
fn buffer_drain_excess_drops_from_front() {
    let mut b: SeriesBuffer<u64> = SeriesBuffer::new(10);
    for v in 0..6u64 {
        b.push(v);
    }
    b.drain_excess(4);
    assert_eq!(b.snapshot(), vec![2, 3, 4, 5]);
    b.drain_excess(9);
    assert_eq!(b.snapshot(), vec![2, 3, 4, 5]);
}

#[test]
fn buffer_empty_and_clear() {
    let mut b: SeriesBuffer<u64> = SeriesBuffer::new(1);
    assert!(b.is_empty());
    assert_eq!(b.last(), None);
    b.push(9);
    b.push(10);
    assert_eq!(b.snapshot(), vec![10]);
    b.clear();
    assert!(b.is_empty());
    assert_eq!(b.capacity(), 1);
}
