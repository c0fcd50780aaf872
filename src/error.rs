//! Errors in the host's convention: a negative errno value.
use vstd::prelude::*;

verus! {

/// The largest errno magnitude the host uses.
pub const MAX_ERRNO: i32 = 4095;

/// No such file or directory.
pub const ENOENT: i32 = -2;

/// Invalid argument; also reported when a registration is attempted twice.
pub const EINVAL: i32 = -22;

/// An error as the host reports it: an errno value in `[-MAX_ERRNO, -1]`.
#[derive(Clone, Copy, Debug, PartialEq, Eq)]
pub struct Error {
    errno: i32,
}

/// Whether `errno` is a value the host may report as an error.
pub open spec fn is_errno(errno: i32) -> bool {
    -MAX_ERRNO <= errno < 0
}

impl Error {
    #[verifier::type_invariant]
    spec fn inv(self) -> bool {
        is_errno(self.errno)
    }

    /// The errno value held.
    pub closed spec fn errno(self) -> i32 {
        self.errno
    }

    /// Converts a host return code into an error; a value that is not an
    /// errno becomes `EINVAL`.
    pub fn from_kernel_errno(errno: i32) -> (r: Error)
        ensures
            is_errno(errno) ==> r.errno() == errno,
            !is_errno(errno) ==> r.errno() == EINVAL,
    {
        if -MAX_ERRNO <= errno && errno < 0 {
            Error { errno }
        } else {
            Error { errno: EINVAL }
        }
    }

    /// The error for an invalid argument.
    pub fn einval() -> (r: Error)
        ensures
            r.errno() == EINVAL,
    {
        Error { errno: EINVAL }
    }

    /// The errno value, as returned to the host.
    pub fn to_kernel_errno(&self) -> (r: i32)
        ensures
            r == self.errno(),
            is_errno(r),
    {
        proof {
            use_type_invariant(self);
        }
        self.errno
    }
}

/// What the host receives for `r`: zero or the value on success, the errno
/// on failure.
pub open spec fn kernel_ret(r: Result<i32, Error>) -> i32 {
    match r {
        Ok(v) => v,
        Err(e) => e.errno(),
    }
}

/// What the host receives for the outcome of an operation with no value.
pub open spec fn unit_ret(r: Result<(), Error>) -> i32 {
    match r {
        Ok(_) => 0,
        Err(e) => e.errno(),
    }
}

/// Turns the outcome of an operation with no value into the host's return
/// convention.
pub fn from_unit_result(r: Result<(), Error>) -> (c: i32)
    ensures
        c == unit_ret(r),
        r is Err ==> is_errno(c),
{
    match r {
        Ok(()) => 0,
        Err(e) => e.to_kernel_errno(),
    }
}

/// Turns a host return code into a `Result`: negative codes are errors.
pub fn to_result(ret: i32) -> (r: Result<(), Error>)
    ensures
        r is Ok <==> ret >= 0,
        ret < 0 && is_errno(ret) ==> r is Err && r->Err_0.errno() == ret,
        ret < 0 && !is_errno(ret) ==> r is Err && r->Err_0.errno() == EINVAL,
{
    if ret < 0 {
        Err(Error::from_kernel_errno(ret))
    } else {
        Ok(())
    }
}

/// Turns a `Result` into the host's return convention.
pub fn from_kernel_result(r: Result<i32, Error>) -> (c: i32)
    ensures
        c == kernel_ret(r),
        r is Err ==> is_errno(c),
{
    match r {
        Ok(v) => v,
        Err(e) => e.to_kernel_errno(),
    }
}

} // verus!
