//! What a system call answers.

use vstd::prelude::*;

verus! {

/// The answer of a system call: a count (of bytes, or whatever else the call counts) or the number
/// of an error.
#[derive(Clone, Copy, Debug, PartialEq, Eq, Structural)]
pub enum SysResult {
    Done(usize),
    Failed(i32),
}

/// The errors that are told apart.
#[derive(Clone, Copy, Debug, PartialEq, Eq, Structural)]
pub enum ErrnoKind {
    /// `EINTR`: a signal arrived before anything was done. The call is to be made again.
    Interrupted,
    /// `ENOENT`: there is no such file.
    NoEntry,
    /// `ENOTDIR`: a part of the path is not a directory.
    NotDirectory,
    /// Any other error.
    Other,
}

/// Which error a number stands for, on Linux.
pub open spec fn kind_of(errno: i32) -> ErrnoKind {
    if errno == 4 {
        ErrnoKind::Interrupted
    } else if errno == 2 {
        ErrnoKind::NoEntry
    } else if errno == 20 {
        ErrnoKind::NotDirectory
    } else {
        ErrnoKind::Other
    }
}

/// `nix::errno::Errno::from_raw`: the variant for the number of an error. Taken on trust: of the
/// numbers that Linux knows on any machine, 4 is `EINTR`, 2 is `ENOENT`, 20 is `ENOTDIR`, and no
/// other number gives one of these three.
#[verifier::external_body]
pub(crate) fn errno_kind(errno: i32) -> (k: ErrnoKind)
    ensures
        k == kind_of(errno),
{
    match nix::errno::Errno::from_raw(errno) {
        nix::errno::Errno::EINTR => ErrnoKind::Interrupted,
        nix::errno::Errno::ENOENT => ErrnoKind::NoEntry,
        nix::errno::Errno::ENOTDIR => ErrnoKind::NotDirectory,
        _ => ErrnoKind::Other,
    }
}

} // verus!
