use uhd_usrp::metadata::{RawRxMetadata, RxErrorcode, RxMetadata, TxMetadata};
use uhd_usrp::time::TimeSpec;

fn raw(error_code: u32) -> RawRxMetadata {
    RawRxMetadata {
        has_time_spec: false,
        full_secs: 0,
        frac_nanos: 0,
        start_of_burst: false,
        end_of_burst: false,
        fragment_offset: 0,
        more_fragments: false,
        out_of_sequence: false,
        error_code,
    }
}

#[test]
fn every_native_error_code_maps_to_its_variant() {
    assert_eq!(uhd_usrp::metadata::rx_error_for_code(0x0), RxErrorcode::NoError);
    assert_eq!(uhd_usrp::metadata::rx_error_for_code(0x1), RxErrorcode::Timeout);
    assert_eq!(uhd_usrp::metadata::rx_error_for_code(0x2), RxErrorcode::LateCommand);
    assert_eq!(uhd_usrp::metadata::rx_error_for_code(0x4), RxErrorcode::BrokenChain);
    assert_eq!(uhd_usrp::metadata::rx_error_for_code(0x8), RxErrorcode::Overflow);
    assert_eq!(uhd_usrp::metadata::rx_error_for_code(0xC), RxErrorcode::Alignment);
    assert_eq!(uhd_usrp::metadata::rx_error_for_code(0xF), RxErrorcode::BadPacket);
    assert_eq!(uhd_usrp::metadata::rx_error_for_code(0x3), RxErrorcode::Unknown);
    assert_eq!(uhd_usrp::metadata::rx_error_for_code(0xdead), RxErrorcode::Unknown);
}

#[test]
fn empty_descriptor_has_no_marks() {
    let md = RxMetadata::new();
    assert!(!md.start_of_burst());
    assert!(!md.end_of_burst());
    assert!(md.time_spec().is_none());
    assert_eq!(md.fragment_offset(), 0);
    assert!(!md.more_fragments());
    assert!(!md.out_of_sequence());
    assert_eq!(md.error_code(), RxErrorcode::NoError);
}

#[test]
fn from_raw_carries_every_field() {
    let mut r = raw(0x8);
    r.start_of_burst = true;
    r.end_of_burst = true;
    r.fragment_offset = 40;
    r.more_fragments = true;
    r.out_of_sequence = true;
    let md = RxMetadata::from_raw(r);
    assert!(md.start_of_burst());
    assert!(md.end_of_burst());
    assert_eq!(md.fragment_offset(), 40);
    assert!(md.more_fragments());
    assert!(md.out_of_sequence());
    assert_eq!(md.error_code(), RxErrorcode::Overflow);
    assert!(md.time_spec().is_none());
}

#[test]
fn from_raw_normalizes_the_timestamp() {
    let mut r = raw(0);
    r.has_time_spec = true;
    r.full_secs = 4;
    r.frac_nanos = 1_500_000_000;
    let md = RxMetadata::from_raw(r);
    let t = md.time_spec().unwrap();
    assert_eq!(t.full_secs(), 5);
    assert_eq!(t.frac_nanos(), 500_000_000);
}

#[test]
fn from_raw_rejects_unrepresentable_timestamp() {
    let mut r = raw(0);
    r.has_time_spec = true;
    r.full_secs = i64::MAX;
    r.frac_nanos = 1_000_000_000;
    let md = RxMetadata::from_raw(r);
    assert!(md.time_spec().is_none());
}

#[test]
fn tx_metadata_builder_sets_each_field() {
    let md = TxMetadata::new()
        .offset(Some(TimeSpec::new(2, 500_000_000)))
        .start_of_burst(true)
        .end_of_burst(true);
    assert_eq!(md.offset.unwrap().full_secs(), 2);
    assert!(md.start_of_burst);
    assert!(md.end_of_burst);
}

#[test]
fn tx_metadata_to_raw_scheduled() {
    let md = TxMetadata::new().offset(Some(TimeSpec::new(2, 500_000_000)));
    let r = md.to_raw();
    assert!(r.has_time_spec);
    assert_eq!(r.full_secs, 2);
    assert_eq!(r.frac_nanos, 500_000_000);
    assert!(!r.start_of_burst);
    assert!(!r.end_of_burst);
}

#[test]
fn tx_metadata_to_raw_unscheduled() {
    let md = TxMetadata::default().end_of_burst(true);
    let r = md.to_raw();
    assert!(!r.has_time_spec);
    assert_eq!(r.full_secs, 0);
    assert_eq!(r.frac_nanos, 0);
    assert!(r.end_of_burst);
}
