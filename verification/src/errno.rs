//! Error codes handed to the guest.
//!
//! The numbers are those of the Linux ABI; each is read from `libc` where it is returned.

use vstd::prelude::*;

verus! {

/// Out of memory.
pub const ENOMEM: i32 = 12;

/// Permission denied.
pub const EACCES: i32 = 13;

/// Device or resource busy.
pub const EBUSY: i32 = 16;

/// Invalid argument.
pub const EINVAL: i32 = 22;

/// Result of a request of the guest: a value, or the error code to answer with.
pub type IoctlResult<T> = Result<T, i32>;

/// Reads `libc::ENOMEM`, which is 12 on Linux.
#[verifier::external_body]
pub(crate) fn enomem() -> (code: i32)
    ensures
        code == ENOMEM,
{
    libc::ENOMEM
}

/// Reads `libc::EACCES`, which is 13 on Linux.
#[verifier::external_body]
pub(crate) fn eacces() -> (code: i32)
    ensures
        code == EACCES,
{
    libc::EACCES
}

/// Reads `libc::EBUSY`, which is 16 on Linux.
#[verifier::external_body]
pub(crate) fn ebusy() -> (code: i32)
    ensures
        code == EBUSY,
{
    libc::EBUSY
}

/// Reads `libc::EINVAL`, which is 22 on Linux.
#[verifier::external_body]
pub(crate) fn einval() -> (code: i32)
    ensures
        code == EINVAL,
{
    libc::EINVAL
}

} // verus!
