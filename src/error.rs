//! Errors reported at the runtime's boundary.
use vstd::prelude::*;

verus! {

/// Declares `std::io::Error` so that errors from the kernel can be carried
/// through the library unchanged.
#[verifier::external_type_specification]
#[verifier::external_body]
pub struct ExIoError(std::io::Error);

/// Why the runtime could not start, or why the ring failed later.
#[derive(Debug)]
pub enum UringError {
    /// The ring could not be created.
    FailedInit(std::io::Error),
    /// A kernel feature the runtime relies on is missing.
    UnsupportedFeature(&'static str),
    /// Probing the kernel for supported opcodes failed.
    ProbeFailed(std::io::Error),
    /// A required opcode is not supported by the kernel.
    UnsupportedOpcode(&'static str),
    /// Submitting to, or waiting on, the ring failed.
    SubmitFailed(std::io::Error),
    /// Any other I/O error.
    IOError(std::io::Error),
}

/// The error `std::io::Error::from_raw_os_error(code)` builds.
pub uninterp spec fn os_error(code: i32) -> std::io::Error;

/// Relies on `std::io::Error::from_raw_os_error`: the error it builds is
/// determined by the code alone.
#[verifier::external_body]
fn io_error_from_code(code: i32) -> (e: std::io::Error)
    ensures
        e == os_error(code),
{
    std::io::Error::from_raw_os_error(code)
}

/// The meaning of a raw kernel result: a non-negative value is a success
/// payload, a negative one is the negated error number.
pub open spec fn raw_result_spec(res: i32) -> Result<i32, std::io::Error> {
    if res >= 0 {
        Ok(res)
    } else {
        Err(os_error(-res as i32))
    }
}

/// Translates a raw kernel result into a standard I/O result.
/// `i32::MIN` has no negation in `i32` and so names no error number.
pub fn libc_result_to_std(res: i32) -> (r: Result<i32, std::io::Error>)
    requires
        res != i32::MIN,
    ensures
        r == raw_result_spec(res),
{
    if res >= 0 {
        Ok(res)
    } else {
        Err(io_error_from_code(-res))
    }
}

/// A non-negative raw result is a success carrying that value; a negative one
/// (other than `i32::MIN`) is the OS error whose number is its negation.
pub proof fn lemma_raw_result_convention(n: i32)
    requires
        n != i32::MIN,
    ensures
        n >= 0 ==> raw_result_spec(n) == Ok::<i32, std::io::Error>(n),
        n < 0 ==> raw_result_spec(n) == Err::<i32, std::io::Error>(os_error(-n as i32)),
{
}

} // verus!
