//! Mapping from the kernel BPF subsystem's return codes to the library's errors.
use vstd::prelude::*;

verus! {

/// The errno value the kernel uses for "no such entry".
pub const ENOENT: i32 = 2;

/// Failure of a library call.
#[derive(Debug, Clone, PartialEq, Eq)]
pub enum Error {
    /// The kernel rejected a call; carries the OS error code it reported.
    System(i32),
    /// The caller handed a malformed argument; no kernel call was made.
    InvalidInput(String),
}

pub type Result<T> = core::result::Result<T, Error>;

/// Relies on nix::errno::Errno::from_i32, which maps libc::ENOENT (2 on Linux)
/// to `Errno::ENOENT` and every other code to another variant.
#[verifier::external_body]
pub(crate) fn is_not_found(errno: i32) -> (r: bool)
    ensures
        r == (errno == ENOENT),
{
    matches!(nix::errno::Errno::from_i32(errno), nix::errno::Errno::ENOENT)
}

/// Status of a call that returns zero on success and a negated errno on failure:
/// the error carries the code as a positive errno, whatever the sign it came with.
pub fn check_neg_errno(ret: i32) -> (r: Result<()>)
    requires
        ret != i32::MIN,
    ensures
        ret == 0 ==> r == Ok::<(), Error>(()),
        ret < 0 ==> r == Err::<(), Error>(Error::System((-ret) as i32)),
        ret > 0 ==> r == Err::<(), Error>(Error::System(ret)),
        ret != 0 ==> (r matches Err(Error::System(c)) && c > 0),
{
    if ret < 0 {
        Err(Error::System(-ret))
    } else if ret > 0 {
        Err(Error::System(ret))
    } else {
        Ok(())
    }
}

/// Status of a call that returns a negated errno when negative and anything
/// else on success (a setter that may report a non-negative value).
pub fn check_negative_status(ret: i32) -> (r: Result<()>)
    requires
        ret != i32::MIN,
    ensures
        ret >= 0 ==> r == Ok::<(), Error>(()),
        ret < 0 ==> r == Err::<(), Error>(Error::System((-ret) as i32)),
        ret < 0 ==> (r matches Err(Error::System(c)) && c > 0),
{
    if ret < 0 {
        Err(Error::System(-ret))
    } else {
        Ok(())
    }
}

/// The status of a call that returned `ret` and left `errno` in the thread's
/// errno: every non-zero `ret` is a failure, whatever its reason.
pub open spec fn errno_status(ret: i32, errno: i32) -> Result<()> {
    if ret == 0 {
        Ok(())
    } else {
        Err(Error::System(errno))
    }
}

/// Status of a call that returns zero on success and leaves the reason of a
/// failure in the thread's errno, which is handed in as `errno`.
pub fn check_errno(ret: i32, errno: i32) -> (r: Result<()>)
    ensures
        r == errno_status(ret, errno),
{
    if ret == 0 {
        Ok(())
    } else {
        Err(Error::System(errno))
    }
}

/// Result of a call that returns a new file descriptor, or a negative value
/// with the reason left in the thread's errno, handed in as `errno`.
pub fn check_fd(fd: i32, errno: i32) -> (r: Result<i32>)
    ensures
        fd >= 0 ==> r == Ok::<i32, Error>(fd),
        fd < 0 ==> r == Err::<i32, Error>(Error::System(errno)),
{
    if fd < 0 {
        Err(Error::System(errno))
    } else {
        Ok(fd)
    }
}

/// Status of an attach call, from the error signal queried for the handle it
/// returned: zero means a live link; otherwise the signal is a negated errno,
/// surfaced as the positive code, whatever the sign it came with.
pub fn check_link_error(err: i64) -> (r: Result<()>)
    requires
        -(i32::MAX as i64) <= err <= i32::MAX as i64,
    ensures
        err == 0 ==> r == Ok::<(), Error>(()),
        err < 0 ==> r == Err::<(), Error>(Error::System((-err) as i32)),
        err > 0 ==> r == Err::<(), Error>(Error::System(err as i32)),
        err != 0 ==> (r matches Err(Error::System(c)) && c > 0),
{
    if err < 0 {
        Err(Error::System((-err) as i32))
    } else if err > 0 {
        Err(Error::System(err as i32))
    } else {
        Ok(())
    }
}

} // verus!
