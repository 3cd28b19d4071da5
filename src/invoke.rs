use vstd::prelude::*;
use crate::command::{code_of, FcntlCmd};
use crate::descriptor::{flock_or_zeroed, kind_code, FcntlLockType, Flock, FlockOperations, F_UNLCK};
use crate::error::FcntlError;

verus! {

/// Linux `EAGAIN`: resource temporarily unavailable.
pub const EAGAIN: i32 = 11;

/// Linux `EACCES`: permission denied.
pub const EACCES: i32 = 13;

/// Allowed types for the `arg` parameter of the `fcntl` syscall.
#[derive(Copy, Clone, Debug, PartialEq, Eq, Structural)]
pub enum FcntlArg {
    Flock(Flock),
}

/// Whether `arg` is the payload that `cmd` takes.
pub open spec fn arg_fits(cmd: FcntlCmd, arg: FcntlArg) -> bool {
    match cmd {
        FcntlCmd::GetLock
        | FcntlCmd::SetLock
        | FcntlCmd::SetLockWait
        | FcntlCmd::OpenFileDescriptorSetLockWait => arg is Flock,
    }
}

/// What the syscall is to be given for `cmd` and `arg`: the command's code and
/// the descriptor that the kernel may write back into.
pub open spec fn request_of(cmd: FcntlCmd, arg: FcntlArg) -> Result<(i32, Flock), FcntlError> {
    if arg_fits(cmd, arg) {
        Ok((code_of(cmd), arg->Flock_0))
    } else {
        Err(FcntlError::InvalidArgForCmd)
    }
}

/// What a syscall comes to: the descriptor as the kernel left it when the call
/// returned 0, else the return value with the error number read right after it.
pub open spec fn outcome_of(rv: i32, errno: Option<i32>, flock: Flock) -> Result<FcntlArg, FcntlError> {
    if rv == 0 {
        Ok(FcntlArg::Flock(flock))
    } else {
        Err(FcntlError::Errno(rv, errno))
    }
}

/// Checks `arg` against `cmd` and gives the command's code and the descriptor
/// to hand to the syscall. On `Err` no syscall is to be made.
#[allow(unreachable_patterns)]
pub fn fcntl_request(cmd: FcntlCmd, arg: FcntlArg) -> (r: Result<(i32, Flock), FcntlError>)
    ensures
        r == request_of(cmd, arg),
        r is Err <==> !arg_fits(cmd, arg),
        r is Err ==> r == Err::<(i32, Flock), FcntlError>(FcntlError::InvalidArgForCmd),
{
    match cmd {
        FcntlCmd::GetLock
        | FcntlCmd::SetLock
        | FcntlCmd::SetLockWait
        | FcntlCmd::OpenFileDescriptorSetLockWait => match arg {
            FcntlArg::Flock(flock) => Ok((cmd.into(), flock)),
            _ => Err(FcntlError::InvalidArgForCmd),
        },
    }
}

/// Interprets what the syscall returned (`rv`), the error number read right
/// after it, and the descriptor as the kernel left it.
pub fn fcntl_result(rv: i32, errno: Option<i32>, flock: Flock) -> (r: Result<FcntlArg, FcntlError>)
    ensures
        r == outcome_of(rv, errno, flock),
{
    if rv == 0 {
        Ok(FcntlArg::Flock(flock))
    } else {
        Err(FcntlError::Errno(rv, errno))
    }
}

/// The query that tells whether a lock is held on the range of `flock`
/// (the whole file where it is `None`).
pub open spec fn is_file_locked_request_of(flock: Option<Flock>) -> (FcntlCmd, FcntlArg) {
    (FcntlCmd::GetLock, FcntlArg::Flock(flock_or_zeroed(flock)))
}

/// A query's answer: locked unless the kernel reported `F_UNLCK`.
pub open spec fn is_file_locked_result_of(outcome: Result<FcntlArg, FcntlError>) -> Result<bool, FcntlError> {
    match outcome {
        Ok(FcntlArg::Flock(f)) => Ok(f.l_type != F_UNLCK),
        Err(e) => Err(e),
    }
}

/// The request that acquires a lock of kind `locktype` (read where it is
/// `None`) on the range of `flock` (the whole file where it is `None`),
/// waiting for a conflicting lock to go away. The caller's lock kind is
/// always overwritten.
pub open spec fn lock_file_request_of(flock: Option<Flock>, locktype: Option<FcntlLockType>) -> (FcntlCmd, FcntlArg) {
    let kind = match locktype {
        Some(t) => t,
        None => FcntlLockType::Read,
    };
    (FcntlCmd::SetLockWait, FcntlArg::Flock(flock_or_zeroed(flock).with_kind(kind_code(kind))))
}

/// Whether an error is the kernel's report of a conflicting lock held elsewhere.
pub open spec fn is_conflict(e: FcntlError) -> bool {
    match e {
        FcntlError::Errno(_, Some(code)) => code == EACCES || code == EAGAIN,
        _ => false,
    }
}

/// An acquire's answer: `true` once acquired, `false` on a conflicting lock,
/// any other error as it came.
pub open spec fn lock_file_result_of(outcome: Result<FcntlArg, FcntlError>) -> Result<bool, FcntlError> {
    match outcome {
        Ok(_) => Ok(true),
        Err(e) => if is_conflict(e) {
            Ok(false)
        } else {
            Err(e)
        },
    }
}

/// The request that releases the lock on the range of `flock` (the whole
/// file where it is `None`): its lock kind is always set to `F_UNLCK`, and no
/// waiting is asked for.
pub open spec fn unlock_file_request_of(flock: Option<Flock>) -> (FcntlCmd, FcntlArg) {
    (FcntlCmd::SetLock, FcntlArg::Flock(flock_or_zeroed(flock).with_kind(F_UNLCK)))
}

/// A release's answer: `true` on success, any error as it came.
pub open spec fn unlock_file_result_of(outcome: Result<FcntlArg, FcntlError>) -> Result<bool, FcntlError> {
    match outcome {
        Ok(_) => Ok(true),
        Err(e) => Err(e),
    }
}

/// The command and payload with which to ask whether the range of `flock`
/// (the whole file where it is `None`) is locked. The file must be open for
/// reading to test for a read lock and for writing to test for a write lock.
pub fn is_file_locked_request(flock: Option<Flock>) -> (r: (FcntlCmd, FcntlArg))
    ensures
        r == is_file_locked_request_of(flock),
{
    match flock {
        Some(f) => (FcntlCmd::GetLock, FcntlArg::Flock(f)),
        None => (FcntlCmd::GetLock, FcntlArg::Flock(Flock::default())),
    }
}

/// Whether the file is locked, from the outcome of the query that
/// `is_file_locked_request` describes.
pub fn is_file_locked_result(outcome: Result<FcntlArg, FcntlError>) -> (r: Result<bool, FcntlError>)
    ensures
        r == is_file_locked_result_of(outcome),
{
    match outcome {
        Ok(FcntlArg::Flock(f)) => Ok(f.l_type != F_UNLCK),
        Err(e) => Err(e),
    }
}

/// The command and payload with which to lock the range of `flock` (the whole
/// file where it is `None`) with `locktype` (a read lock where it is `None`).
pub fn lock_file_request(flock: Option<Flock>, locktype: Option<FcntlLockType>) -> (r: (FcntlCmd, FcntlArg))
    ensures
        r == lock_file_request_of(flock, locktype),
{
    let locktype = match locktype {
        Some(t) => t,
        None => FcntlLockType::Read,
    };
    let f = match flock {
        Some(f) => f,
        None => Flock::default(),
    };
    (FcntlCmd::SetLockWait, FcntlArg::Flock(f.with_locktype(locktype)))
}

/// Whether the lock was acquired, from the outcome of the request that
/// `lock_file_request` describes. A conflicting lock held elsewhere
/// (`EACCES` or `EAGAIN`) gives `Ok(false)`; every other error is passed on.
pub fn lock_file_result(outcome: Result<FcntlArg, FcntlError>) -> (r: Result<bool, FcntlError>)
    ensures
        r == lock_file_result_of(outcome),
{
    match outcome {
        Ok(FcntlArg::Flock(_)) => Ok(true),
        Err(FcntlError::Errno(_, Some(EACCES))) | Err(FcntlError::Errno(_, Some(EAGAIN))) => Ok(false),
        Err(e) => Err(e),
    }
}

/// The command and payload with which to release the lock on the range of
/// `flock` (the whole file where it is `None`).
pub fn unlock_file_request(flock: Option<Flock>) -> (r: (FcntlCmd, FcntlArg))
    ensures
        r == unlock_file_request_of(flock),
{
    let f = match flock {
        Some(f) => f,
        None => Flock::default(),
    };
    (FcntlCmd::SetLock, FcntlArg::Flock(f.with_l_type(F_UNLCK)))
}

/// Whether the lock was released, from the outcome of the request that
/// `unlock_file_request` describes.
pub fn unlock_file_result(outcome: Result<FcntlArg, FcntlError>) -> (r: Result<bool, FcntlError>)
    ensures
        r == unlock_file_result_of(outcome),
{
    match outcome {
        Ok(FcntlArg::Flock(_)) => Ok(true),
        Err(e) => Err(e),
    }
}

/// Releasing a lock does not depend on one being held: the request sent is
/// the same whatever lock kind the caller's descriptor carries, and every call
/// that the kernel accepts reports `true`.
pub proof fn lemma_unlock_unconditional(
    flock: Option<Flock>,
    kind: i16,
    rv: i32,
    errno: Option<i32>,
    returned: Flock,
)
    ensures
        unlock_file_request_of(Some(flock_or_zeroed(flock).with_kind(kind)))
            == unlock_file_request_of(flock),
        rv == 0 ==> unlock_file_result_of(outcome_of(rv, errno, returned))
            == Ok::<bool, FcntlError>(true),
{
}

} // verus!
