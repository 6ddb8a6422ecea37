//! The two facts this crate takes from the target platform: which status
//! flags make a descriptor non-blocking, and which error number means that a
//! call would have blocked. Both are fixed when the crate is built; neither
//! touches a descriptor.

use vstd::prelude::*;

verus! {

/// The status-flag word that `nix` builds from `flags` by keeping the bits it
/// knows as `OFlag`s and adding `OFlag::O_NONBLOCK`.
pub uninterp spec fn non_blocking_flags(flags: i32) -> i32;

/// Whether `nix` reads the error number `code` as `Errno::EAGAIN`, the
/// number for a call that would have blocked.
pub uninterp spec fn errno_would_block(code: i32) -> bool;

/// Calls `nix::fcntl::OFlag::from_bits_truncate` on `flags`, joins the result
/// with `OFlag::O_NONBLOCK` and hands back the bits. Trusted: the result is
/// a function of `flags` alone, named `non_blocking_flags`; nothing is
/// claimed about which bits it holds.
#[verifier::external_body]
pub(crate) fn with_non_blocking(flags: i32) -> (updated: i32)
    ensures
        updated == non_blocking_flags(flags),
{
    (nix::fcntl::OFlag::from_bits_truncate(flags) | nix::fcntl::OFlag::O_NONBLOCK).bits()
}

/// Calls `nix::errno::Errno::from_i32` on `code` and tells whether the
/// result is `Errno::EAGAIN`. Trusted: the answer is a function of
/// `code` alone, named `errno_would_block`.
#[verifier::external_body]
pub(crate) fn is_would_block(code: i32) -> (blocked: bool)
    ensures
        blocked == errno_would_block(code),
{
    nix::errno::Errno::from_i32(code) == nix::errno::Errno::EAGAIN
}

} // verus!
