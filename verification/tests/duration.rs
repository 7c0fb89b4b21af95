use polkadot::pvf_worker::duration::CpuDuration;

#[test]
fn new_rejects_a_full_second_of_nanos() {
    assert!(CpuDuration::new(0, 999_999_999).is_some());
    assert!(CpuDuration::new(0, 1_000_000_000).is_none());
    assert!(CpuDuration::new(u64::MAX, u32::MAX).is_none());
}

#[test]
fn parts_are_kept() {
    let d = CpuDuration::new(12, 345).unwrap();
    assert_eq!(d.as_secs(), 12);
    assert_eq!(d.subsec_nanos(), 345);
    assert_eq!(CpuDuration::zero(), CpuDuration::new(0, 0).unwrap());
    assert_eq!(CpuDuration::from_secs(7), CpuDuration::new(7, 0).unwrap());
}

#[test]
fn from_millis_splits_seconds() {
    assert_eq!(CpuDuration::from_millis(0), CpuDuration::zero());
    assert_eq!(CpuDuration::from_millis(200), CpuDuration::new(0, 200_000_000).unwrap());
    assert_eq!(CpuDuration::from_millis(5_000), CpuDuration::new(5, 0).unwrap());
    assert_eq!(CpuDuration::from_millis(1_999), CpuDuration::new(1, 999_000_000).unwrap());
    let max = CpuDuration::from_millis(u64::MAX);
    assert_eq!(max.as_secs(), u64::MAX / 1_000);
    assert_eq!(max.subsec_nanos(), (u64::MAX % 1_000) as u32 * 1_000_000);
}

#[test]
fn as_millis_rounds_down() {
    assert_eq!(CpuDuration::new(0, 999_999).unwrap().as_millis(), 0);
    assert_eq!(CpuDuration::new(0, 1_000_000).unwrap().as_millis(), 1);
    assert_eq!(CpuDuration::new(3, 141_592_653).unwrap().as_millis(), 3_141);
    assert_eq!(
        CpuDuration::new(u64::MAX, 999_999_999).unwrap().as_millis(),
        u64::MAX as u128 * 1_000 + 999
    );
}

#[test]
fn at_least_orders_by_length() {
    let a = CpuDuration::new(1, 999_999_999).unwrap();
    let b = CpuDuration::new(2, 0).unwrap();
    assert!(b.at_least(&a));
    assert!(!a.at_least(&b));
    assert!(a.at_least(&a));
    assert!(CpuDuration::new(2, 1).unwrap().at_least(&b));
}

#[test]
fn saturating_sub_borrows_and_saturates() {
    let a = CpuDuration::new(5, 100).unwrap();
    let b = CpuDuration::new(2, 200).unwrap();
    assert_eq!(a.saturating_sub(&b), CpuDuration::new(2, 999_999_900).unwrap());
    assert_eq!(b.saturating_sub(&a), CpuDuration::zero());
    assert_eq!(a.saturating_sub(&a), CpuDuration::zero());
    assert_eq!(
        CpuDuration::new(5, 300).unwrap().saturating_sub(&b),
        CpuDuration::new(3, 100).unwrap()
    );
}
