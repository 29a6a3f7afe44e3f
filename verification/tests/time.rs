use uhd_usrp::time::{TimeSpec, NANOS_PER_SEC};

#[test]
fn new_keeps_parts() {
    let t = TimeSpec::new(7, 250_000_000);
    assert_eq!(t.full_secs(), 7);
    assert_eq!(t.frac_nanos(), 250_000_000);
    assert_eq!(NANOS_PER_SEC, 1_000_000_000);
}

#[test]
fn from_parts_already_normalized() {
    let t = TimeSpec::from_parts(3, 125_000_000).unwrap();
    assert_eq!(t.full_secs(), 3);
    assert_eq!(t.frac_nanos(), 125_000_000);
}

#[test]
fn from_parts_positive_overflow_carries() {
    let t = TimeSpec::from_parts(5, 1_500_000_000).unwrap();
    assert_eq!(t.full_secs(), 6);
    assert_eq!(t.frac_nanos(), 500_000_000);
}

#[test]
fn from_parts_negative_underflow_carries() {
    let t = TimeSpec::from_parts(0, -1).unwrap();
    assert_eq!(t.full_secs(), -1);
    assert_eq!(t.frac_nanos(), 999_999_999);

    let t = TimeSpec::from_parts(2, -500_000_000).unwrap();
    assert_eq!(t.full_secs(), 1);
    assert_eq!(t.frac_nanos(), 500_000_000);
}

#[test]
fn from_parts_multiple_seconds_of_carry() {
    let t = TimeSpec::from_parts(0, 3_250_000_000).unwrap();
    assert_eq!(t.full_secs(), 3);
    assert_eq!(t.frac_nanos(), 250_000_000);

    let t = TimeSpec::from_parts(0, -3_250_000_000).unwrap();
    assert_eq!(t.full_secs(), -4);
    assert_eq!(t.frac_nanos(), 750_000_000);
}

#[test]
fn from_parts_overflow_is_rejected() {
    assert!(TimeSpec::from_parts(i64::MAX, 1_000_000_000).is_none());
    assert!(TimeSpec::from_parts(i64::MIN, -1).is_none());
    assert!(TimeSpec::from_parts(i64::MAX, 999_999_999).is_some());
    assert!(TimeSpec::from_parts(i64::MIN, 0).is_some());
}

#[test]
fn add_carries_fractional_overflow() {
    let a = TimeSpec::new(1, 600_000_000);
    let b = TimeSpec::new(2, 700_000_000);
    let s = a.add(b).unwrap();
    assert_eq!(s.full_secs(), 4);
    assert_eq!(s.frac_nanos(), 300_000_000);
}

#[test]
fn add_without_carry() {
    let a = TimeSpec::new(1, 100_000_000);
    let b = TimeSpec::new(2, 200_000_000);
    let s = a.add(b).unwrap();
    assert_eq!(s.full_secs(), 3);
    assert_eq!(s.frac_nanos(), 300_000_000);
}

#[test]
fn add_overflow_is_rejected() {
    let a = TimeSpec::new(i64::MAX, 600_000_000);
    let b = TimeSpec::new(0, 700_000_000);
    assert!(a.add(b).is_none());
    let c = TimeSpec::new(i64::MAX, 0);
    let d = TimeSpec::new(0, 999_999_999);
    assert!(c.add(d).is_some());
}
