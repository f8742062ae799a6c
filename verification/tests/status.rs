use efi_core::status::Status;

const HIGH_BIT: usize = 1 << (usize::BITS - 1);

#[test]
fn status_codes_have_their_numbers() {
    assert_eq!(Status::Success.code(), 0);
    assert_eq!(Status::InvalidParameter.code(), HIGH_BIT | 2);
    assert_eq!(Status::Unsupported.code(), HIGH_BIT | 3);
    assert_eq!(Status::BufferTooSmall.code(), HIGH_BIT | 5);
    assert_eq!(Status::NotReady.code(), HIGH_BIT | 6);
    assert_eq!(Status::DeviceError.code(), HIGH_BIT | 7);
    assert_eq!(Status::OutOfResources.code(), HIGH_BIT | 9);
    assert_eq!(Status::NotFound.code(), HIGH_BIT | 14);
    assert_eq!(Status::SecurityViolation.code(), HIGH_BIT | 26);
    assert_eq!(Status::EndOfFile.code(), HIGH_BIT | 31);
}

#[test]
fn only_success_is_no_error() {
    assert!(!Status::Success.is_error());
    for status in [
        Status::InvalidParameter,
        Status::Unsupported,
        Status::BufferTooSmall,
        Status::NotReady,
        Status::DeviceError,
        Status::OutOfResources,
        Status::NotFound,
        Status::SecurityViolation,
        Status::EndOfFile,
    ] {
        assert!(status.is_error());
    }
}
