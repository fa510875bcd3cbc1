use ncd::bridge::{StreamBridge, CONDUIT_CAPACITY};

#[test]
fn conduit_delivers_in_fifo_order() {
    let mut b = StreamBridge::new();
    b.push(vec![1]);
    b.push(vec![2]);
    b.push(vec![3]);
    assert_eq!(b.pop(), Some(vec![1]));
    b.push(vec![4]);
    assert_eq!(b.pop(), Some(vec![2]));
    assert_eq!(b.pop(), Some(vec![3]));
    assert_eq!(b.pop(), Some(vec![4]));
    assert_eq!(b.pop(), None);
}

#[test]
fn conduit_reports_fullness_at_capacity() {
    let mut b = StreamBridge::new();
    for i in 0..CONDUIT_CAPACITY {
        assert!(!b.is_full());
        b.push(vec![i as u8]);
    }
    assert!(b.is_full());
    assert_eq!(b.pop(), Some(vec![0u8]));
    assert!(!b.is_full());
}

#[test]
fn closed_conduit_drains_before_reporting_drained() {
    let mut b = StreamBridge::new();
    b.push(vec![10]);
    b.push(vec![20]);
    b.close();
    assert!(!b.is_drained());
    assert_eq!(b.pop(), Some(vec![10]));
    assert_eq!(b.pop(), Some(vec![20]));
    assert!(b.is_drained());
    assert_eq!(b.pop(), None);
}
