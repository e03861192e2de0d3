//! Trusted boundary to the operating system.
//!
//! Each function here makes exactly one call into an outside crate and hands
//! its outcome back as plain values. Verus believes the stated contracts;
//! everything else in the library is proved against them. The results of
//! these calls depend on machine state, so the contracts say only what holds
//! of every outcome.

use vstd::prelude::*;

use crate::exhaust::OpenAttempt;

verus! {

/// Relies on nix::unistd::sysconf with the open-file-maximum variable.
/// `Ok(Some(v))` carries the raw interface value, which is never the
/// interface's failure return of -1; `Ok(None)` means the variable has no
/// defined value; `Err` carries the reported error code of an outright
/// failure.
#[verifier::external_body]
pub(crate) fn sysconf_open_max() -> (r: Result<Option<i64>, i32>)
    ensures
        r matches Ok(Some(v)) ==> v != -1,
{
    match nix::unistd::sysconf(nix::unistd::SysconfVar::OPEN_MAX) {
        Ok(Some(v)) => Ok(Some(v as i64)),
        Ok(None) => Ok(None),
        Err(e) => Err(e as i32),
    }
}

/// Relies on nix::sys::resource::getrlimit for the descriptor-count
/// resource: success carries the (soft, hard) limit pair exactly as the
/// kernel reported it; `Err` carries the reported error code.
#[verifier::external_body]
pub(crate) fn getrlimit_nofile() -> (r: Result<(u64, u64), i32>) {
    match nix::sys::resource::getrlimit(nix::sys::resource::Resource::RLIMIT_NOFILE) {
        Ok((soft, hard)) => Ok((soft as u64, hard as u64)),
        Err(e) => Err(e as i32),
    }
}

/// Relies on libc::RLIM_INFINITY: on Linux targets — the only ones this
/// library's trusted contracts are written against — the resource-limit
/// interface's "unbounded" sentinel is the all-ones value. Other platforms
/// define a different sentinel, so this contract must be re-read before the
/// library is built anywhere else.
#[verifier::external_body]
pub(crate) fn rlim_infinity() -> (r: u64)
    ensures
        r == u64::MAX,
{
    libc::RLIM_INFINITY as u64
}

/// Relies on nix::sys::stat::fstat: the probe succeeds exactly when the
/// given number currently refers to an open descriptor, and the identifying
/// inode of the underlying file object comes back as a plain value.
#[verifier::external_body]
pub(crate) fn fstat_inode(fd: i32) -> (r: Option<u64>) {
    match nix::sys::stat::fstat(fd) {
        Ok(st) => Some(st.st_ino as u64),
        Err(_) => None,
    }
}

/// Relies on nix::errno::Errno::from_raw and Errno::desc: the platform's
/// textual description of an operating-system error code. The text is a
/// fixed table lookup on the code alone (codes the table does not know all
/// share one fixed text), named here by [`crate::text::errno_text`].
#[verifier::external_body]
pub(crate) fn errno_desc(code: i32) -> (r: &'static str)
    ensures
        r@ == crate::text::errno_text(code),
{
    nix::errno::Errno::from_raw(code).desc()
}

/// Relies on nix::fcntl::open of the always-present read-only device path:
/// success hands back a fresh nonnegative descriptor number (the underlying
/// interface returns a nonnegative descriptor or its failure sentinel, which
/// the crate turns into the error case), and the descriptor stays open until
/// the process closes it. A failure with the too-many-open-files code is
/// told apart from every other failure; both carry the raw error code.
#[verifier::external_body]
pub(crate) fn open_dev_null() -> (r: OpenAttempt)
    ensures
        r matches OpenAttempt::Opened(fd) ==> fd >= 0,
{
    match nix::fcntl::open("/dev/null", nix::fcntl::OFlag::O_RDONLY, nix::sys::stat::Mode::empty())
    {
        Ok(fd) => OpenAttempt::Opened(fd),
        Err(nix::errno::Errno::EMFILE) => OpenAttempt::Exhausted(nix::errno::Errno::EMFILE as i32),
        Err(e) => OpenAttempt::Failed(e as i32),
    }
}

} // verus!
