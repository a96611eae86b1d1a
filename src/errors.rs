//! The operating system's error numbers, as `nix` reports them.
use vstd::prelude::*;

verus! {

#[verifier::external_type_specification]
#[verifier::external_body]
pub struct ExErrno(nix::errno::Errno);

/// Relies on `nix::errno::Errno::last`: reads the calling thread's `errno`.
/// What it holds depends on the last failed call, so nothing is promised.
#[verifier::external_body]
pub(crate) fn last_errno() -> (r: nix::errno::Errno) {
    nix::errno::Errno::last()
}

/// Turns the return value of a C call that reports failure through `errno`
/// into a `Result`: zero is success, anything else fails with `errno`.
pub fn check_status(ret: i32) -> (r: Result<(), nix::errno::Errno>)
    ensures
        r is Ok <==> ret == 0,
{
    if ret != 0 {
        Err(last_errno())
    } else {
        Ok(())
    }
}

} // verus!
