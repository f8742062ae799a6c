//! Status codes of the service interface.
//!
//! The numeric values are those of `r_efi::efi::Status`; the library keeps an
//! enum of the codes it returns and proves what the numeric helpers compute.

use vstd::prelude::*;

verus! {

/// The status codes that the firmware core returns.
#[derive(Clone, Copy, Debug, PartialEq, Eq, Structural)]
pub enum Status {
    Success,
    InvalidParameter,
    Unsupported,
    BufferTooSmall,
    NotReady,
    DeviceError,
    OutOfResources,
    NotFound,
    SecurityViolation,
    EndOfFile,
}

/// The high bit of a machine word, which marks a status code as an error.
pub open spec fn error_bit() -> int {
    (usize::MAX as int + 1) / 2
}

/// Whether the two high bits of `code` are `10`: the error class of status codes.
pub open spec fn is_error_code(code: int) -> bool {
    error_bit() <= code < error_bit() + error_bit() / 2
}

impl Status {
    /// The number of the code within its class.
    pub open spec fn number(self) -> int {
        match self {
            Status::Success => 0,
            Status::InvalidParameter => 2,
            Status::Unsupported => 3,
            Status::BufferTooSmall => 5,
            Status::NotReady => 6,
            Status::DeviceError => 7,
            Status::OutOfResources => 9,
            Status::NotFound => 14,
            Status::SecurityViolation => 26,
            Status::EndOfFile => 31,
        }
    }

    /// The numeric value of the code: zero for success, otherwise the number
    /// with the error bit set.
    pub open spec fn spec_code(self) -> int {
        if self is Success {
            0
        } else {
            error_bit() + self.number()
        }
    }

    /// The numeric value handed across the service interface.
    pub fn code(self) -> (code: usize)
        ensures
            code == self.spec_code(),
    {
        efi_code(self)
    }

    /// True for every code but `Success`.
    pub fn is_error(self) -> (r: bool)
        ensures
            r == (self != Status::Success),
    {
        let code = efi_code(self);
        efi_is_error(code)
    }
}

/// `r_efi::efi::Status::as_usize` on the constant of `r_efi::efi::Status`
/// that corresponds to `status`. Each constant is `Status::from_usize` of
/// its number, or-ed with the error mask `0x80 << (width - 8)` for all but
/// `SUCCESS`, and `as_usize` hands that integer back.
#[verifier::external_body]
fn efi_code(status: Status) -> (code: usize)
    ensures
        code == status.spec_code(),
{
    match status {
        Status::Success => r_efi::efi::Status::SUCCESS.as_usize(),
        Status::InvalidParameter => r_efi::efi::Status::INVALID_PARAMETER.as_usize(),
        Status::Unsupported => r_efi::efi::Status::UNSUPPORTED.as_usize(),
        Status::BufferTooSmall => r_efi::efi::Status::BUFFER_TOO_SMALL.as_usize(),
        Status::NotReady => r_efi::efi::Status::NOT_READY.as_usize(),
        Status::DeviceError => r_efi::efi::Status::DEVICE_ERROR.as_usize(),
        Status::OutOfResources => r_efi::efi::Status::OUT_OF_RESOURCES.as_usize(),
        Status::NotFound => r_efi::efi::Status::NOT_FOUND.as_usize(),
        Status::SecurityViolation => r_efi::efi::Status::SECURITY_VIOLATION.as_usize(),
        Status::EndOfFile => r_efi::efi::Status::END_OF_FILE.as_usize(),
    }
}

/// `r_efi::efi::Status::is_error` on the status made of `code`: it masks the
/// two high bits of the word and compares them with the error mask, so it is
/// true exactly when the highest bit is set and the next one is clear.
#[verifier::external_body]
fn efi_is_error(code: usize) -> (r: bool)
    ensures
        r == is_error_code(code as int),
{
    r_efi::efi::Status::from_usize(code).is_error()
}

} // verus!
