use rumsim::interval::{Interval, NANOS_PER_SEC};

#[test]
fn interval_parts() {
    let span = Interval::new(3, 250).unwrap();
    assert_eq!(span.as_secs(), 3);
    assert_eq!(span.subsec_nanos(), 250);
    assert!(!span.is_zero());
    assert!(Interval::new(3, NANOS_PER_SEC).is_none());
    assert!(Interval::new(3, u32::MAX).is_none());
    assert!(Interval::new(u64::MAX, NANOS_PER_SEC - 1).is_some());
    assert!(Interval::zero().is_zero());
    assert_eq!(Interval::zero(), Interval::from_secs(0));
    assert_eq!(Interval::from_secs(30), Interval::new(30, 0).unwrap());
}

#[test]
fn interval_from_millis() {
    assert_eq!(Interval::from_millis(0), Interval::zero());
    assert_eq!(Interval::from_millis(999), Interval::new(0, 999_000_000).unwrap());
    assert_eq!(Interval::from_millis(1000), Interval::from_secs(1));
    assert_eq!(Interval::from_millis(61_001), Interval::new(61, 1_000_000).unwrap());
    assert_eq!(
        Interval::from_millis(u64::MAX),
        Interval::new(18_446_744_073_709_551, 615_000_000).unwrap()
    );
}

#[test]
fn interval_order() {
    let short = Interval::new(1, 999_999_999).unwrap();
    let long = Interval::new(2, 0).unwrap();
    assert!(short.shorter_than(&long));
    assert!(!long.shorter_than(&short));
    assert!(!long.shorter_than(&long));
    assert!(Interval::new(2, 1).unwrap().shorter_than(&Interval::new(2, 2).unwrap()));
}

#[test]
fn interval_saturating_sub() {
    let a = Interval::new(5, 100).unwrap();
    assert_eq!(a.saturating_sub(&Interval::new(2, 50).unwrap()), Interval::new(3, 50).unwrap());
    assert_eq!(
        a.saturating_sub(&Interval::new(2, 200).unwrap()),
        Interval::new(2, 999_999_900).unwrap()
    );
    assert_eq!(a.saturating_sub(&a), Interval::zero());
    assert_eq!(a.saturating_sub(&Interval::new(5, 101).unwrap()), Interval::zero());
    assert_eq!(a.saturating_sub(&Interval::from_secs(u64::MAX)), Interval::zero());
    assert_eq!(a.saturating_sub(&Interval::zero()), a);
    assert_eq!(
        Interval::from_secs(u64::MAX).saturating_sub(&Interval::new(0, 1).unwrap()),
        Interval::new(u64::MAX - 1, 999_999_999).unwrap()
    );
}
