use vstd::prelude::*;

verus! {

#[verifier::external_type_specification]
#[verifier::external_body]
pub struct ExErrno(nix::errno::Errno);

/// The raw errno value that a `nix` error stands for.
pub uninterp spec fn errno_number(e: nix::errno::Errno) -> i32;

/// Relies on `nix::errno::Errno` being a `#[repr(i32)]` enum whose
/// discriminant is the raw errno value of each variant.
#[verifier::external_body]
fn raw_errno(e: nix::errno::Errno) -> (r: i32)
    ensures
        r == errno_number(e),
{
    e as i32
}

/// A failure of a gpiochip operation.
#[derive(Clone, Copy, Debug, PartialEq, Eq, Structural)]
pub enum GpioError {
    /// The operating system refused the call, with this errno value.
    Os(i32),
    /// An argument was rejected before any call was made.
    InvalidInput,
    /// The kernel handed back data that does not form a valid record.
    InvalidData,
}

/// Maps an error reported through `nix` to the library's error.
pub fn from_nix_error(err: nix::Error) -> (r: GpioError)
    ensures
        r == GpioError::Os(errno_number(err)),
{
    GpioError::Os(raw_errno(err))
}

/// Maps a result reported through `nix` to the library's result type.
pub fn from_nix_result<T>(res: nix::Result<T>) -> (r: Result<T, GpioError>)
    ensures
        res is Ok <==> r is Ok,
        res is Ok ==> r->Ok_0 == res->Ok_0,
        res is Err ==> r == Err::<T, GpioError>(GpioError::Os(errno_number(res->Err_0))),
{
    match res {
        Ok(v) => Ok(v),
        Err(e) => Err(from_nix_error(e)),
    }
}

} // verus!
