use uhd_usrp::error::{status_to_result, UhdError};

#[test]
fn zero_status_is_success() {
    assert_eq!(status_to_result(0), Ok(()));
}

#[test]
fn known_codes_map_to_their_errors() {
    assert_eq!(status_to_result(1), Err(UhdError::InvalidDevice));
    assert_eq!(status_to_result(10), Err(UhdError::Index));
    assert_eq!(status_to_result(11), Err(UhdError::Key));
    assert_eq!(status_to_result(20), Err(UhdError::NotImplemented));
    assert_eq!(status_to_result(30), Err(UhdError::Io));
    assert_eq!(status_to_result(43), Err(UhdError::InvalidArgument));
    assert_eq!(status_to_result(44), Err(UhdError::Runtime));
    assert_eq!(status_to_result(45), Err(UhdError::Environment));
}

#[test]
fn unmapped_codes_collapse_to_unknown() {
    assert_eq!(status_to_result(2), Err(UhdError::Unknown));
    assert_eq!(status_to_result(100), Err(UhdError::Unknown));
    assert_eq!(status_to_result(u32::MAX), Err(UhdError::Unknown));
}
