use hw_monitor::HistoryRing;

#[test]
fn ring_evicts_oldest_at_capacity_three() {
    let mut r = HistoryRing::new(3);
    for v in [10u32, 20, 30, 40] {
        r.push(v);
    }
    assert_eq!(r.to_vec(), vec![20, 30, 40]);
    assert_eq!(r.snapshot_tail(2), vec![40, 30]);
}

#[test]
fn ring_length_never_exceeds_capacity() {
    let mut r = HistoryRing::new(5);
    for v in 0u32..20 {
        r.push(v);
        assert!(r.len() <= r.capacity());
    }
    assert_eq!(r.len(), 5);
    assert_eq!(r.to_vec(), vec![15, 16, 17, 18, 19]);
}

#[test]
fn ring_full_push_evicts_exactly_one() {
    let mut r = HistoryRing::new(2);
    r.push(1);
    r.push(2);
    r.push(3);
    assert_eq!(r.to_vec(), vec![2, 3]);
    assert_eq!(r.len(), 2);
}

#[test]
fn ring_empty_history_for_any_count() {
    let r = HistoryRing::new(60);
    assert_eq!(r.snapshot_tail(0), Vec::<u32>::new());
    assert_eq!(r.snapshot_tail(1), Vec::<u32>::new());
    assert_eq!(r.snapshot_tail(1000), Vec::<u32>::new());
}

#[test]
fn ring_underfilled_history_returns_all_pushed() {
    let mut r = HistoryRing::new(60);
    for v in [5u32, 6, 7] {
        r.push(v);
    }
    assert_eq!(r.snapshot_tail(3), vec![7, 6, 5]);
    assert_eq!(r.snapshot_tail(60), vec![7, 6, 5]);
    assert_eq!(r.snapshot_tail(usize::MAX), vec![7, 6, 5]);
}

#[test]
fn ring_history_is_reverse_push_order() {
    let mut r = HistoryRing::new(4);
    for v in [1u32, 2, 3, 4, 5, 6] {
        r.push(v);
    }
    assert_eq!(r.snapshot_tail(10), vec![6, 5, 4, 3]);
    assert_eq!(r.snapshot_tail(1), vec![6]);
}

#[test]
fn ring_zero_capacity_holds_nothing() {
    let mut r = HistoryRing::new(0);
    r.push(9);
    assert_eq!(r.len(), 0);
    assert_eq!(r.snapshot_tail(5), Vec::<u32>::new());
}
