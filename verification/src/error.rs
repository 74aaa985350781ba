//! The failures that reading a secret can end in.

use vstd::prelude::*;

verus! {

/// Why a secret could not be read or was not accepted.
#[derive(Clone, Copy, Debug, PartialEq, Eq, Structural)]
pub enum PasswordError {
    /// A call into the operating system failed; the value is its error code.
    Os(i32),
    /// The input ended before a complete line had been read.
    UnexpectedEof,
    /// The secret was turned down. A validator returns this to ask for
    /// another attempt, and the retry loop returns it once no attempt is
    /// left.
    PermissionDenied,
    /// Any failure that carries no operating-system error code.
    Other,
}

/// `std::io::Error`, as a value that is handed on unread.
#[verifier::external_type_specification]
#[verifier::external_body]
pub struct ExIoError(std::io::Error);

/// `std::io::Error::last_os_error` gives the error that the operating system
/// reported last. Nothing is claimed of it.
pub assume_specification[ std::io::Error::last_os_error ]() -> (error: std::io::Error)
;

/// `std::io::Error::raw_os_error` gives the operating system's code for the
/// error, if it has one. Nothing is claimed of it.
pub assume_specification[ std::io::Error::raw_os_error ](error: &std::io::Error) -> (code: Option<
    i32,
>)
;

impl PasswordError {
    /// The failure that stands for an operating-system error code, or for the
    /// lack of one.
    pub open spec fn spec_from_os_code(code: Option<i32>) -> PasswordError {
        match code {
            Some(code) => PasswordError::Os(code),
            None => PasswordError::Other,
        }
    }

    /// The failure that stands for an operating-system error code, or for the
    /// lack of one.
    #[verifier::when_used_as_spec(spec_from_os_code)]
    pub fn from_os_code(code: Option<i32>) -> (error: PasswordError)
        ensures
            error == Self::spec_from_os_code(code),
    {
        match code {
            Some(code) => PasswordError::Os(code),
            None => PasswordError::Other,
        }
    }
}

/// Turns the return value of a C function into a result: zero is success,
/// and anything else is the failure that the operating system reported last,
/// with its code where it has one.
pub fn io_result(ret: i32) -> (result: Result<(), PasswordError>)
    ensures
        ret == 0 <==> result is Ok,
        result matches Err(error) ==> error is Os || error == PasswordError::Other,
{
    if ret == 0 {
        Ok(())
    } else {
        let last = std::io::Error::last_os_error();
        Err(PasswordError::from_os_code(last.raw_os_error()))
    }
}

} // verus!
