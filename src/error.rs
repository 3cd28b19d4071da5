use vstd::prelude::*;
use crate::command::FcntlCmd;

verus! {

/// Error type which functions of this crate will return.
#[derive(Copy, Clone, Debug, PartialEq, Eq, Structural, Hash, PartialOrd, Ord)]
pub enum FcntlError {
    /// The requested FcntlCmd is not yet handled by this implementation
    CommandNotImplemented(FcntlCmd),
    /// The syscall returned the given value with the given error number (`None` if the
    /// error number could not be read)
    Errno(i32, Option<i32>),
    /// An internal error occurred. If you get this error variant, please report this as a bug!
    Internal,
    /// The enum variant of `arg` does not match the expected variant for the requested `cmd`.
    /// No operation was performed.
    InvalidArgForCmd,
}

/// The character of a decimal digit.
pub open spec fn digit_char(d: nat) -> char {
    if d == 0 {
        '0'
    } else if d == 1 {
        '1'
    } else if d == 2 {
        '2'
    } else if d == 3 {
        '3'
    } else if d == 4 {
        '4'
    } else if d == 5 {
        '5'
    } else if d == 6 {
        '6'
    } else if d == 7 {
        '7'
    } else if d == 8 {
        '8'
    } else {
        '9'
    }
}

/// The decimal digits of a natural number, without leading zeros.
pub open spec fn digits_of(n: nat) -> Seq<char>
    decreases n,
{
    if n < 10 {
        seq![digit_char(n)]
    } else {
        digits_of(n / 10).push(digit_char(n % 10))
    }
}

/// The decimal text of an integer, with a leading `-` when it is negative.
pub open spec fn decimal_of(n: int) -> Seq<char> {
    if n < 0 {
        seq!['-'] + digits_of((-n) as nat)
    } else {
        digits_of(n as nat)
    }
}

/// The name of a command, as its variant is written.
pub open spec fn cmd_name(cmd: FcntlCmd) -> Seq<char> {
    match cmd {
        FcntlCmd::SetLock => "SetLock"@,
        FcntlCmd::SetLockWait => "SetLockWait"@,
        FcntlCmd::GetLock => "GetLock"@,
        FcntlCmd::OpenFileDescriptorSetLockWait => "OpenFileDescriptorSetLockWait"@,
    }
}

/// The human-readable text of an error.
pub open spec fn message_of(e: FcntlError) -> Seq<char> {
    match e {
        FcntlError::CommandNotImplemented(cmd) => cmd_name(cmd)
            + " is not implemented for this operation"@,
        FcntlError::Errno(rv, Some(errno)) => "syscall "@ + decimal_of(rv as int)
            + " returned unknown or unexpected error: "@ + decimal_of(errno as int),
        FcntlError::Errno(rv, None) => "syscall returned "@ + decimal_of(rv as int)
            + " error but we could not retrieve errno"@,
        FcntlError::Internal => "we encountered an internal error. Please report this as a bug (fcntl)!"@,
        FcntlError::InvalidArgForCmd => "the provided arg parameter is invalid for the requested cmd"@,
    }
}

fn cmd_name_str(cmd: FcntlCmd) -> (r: &'static str)
    ensures
        r@ == cmd_name(cmd),
{
    match cmd {
        FcntlCmd::SetLock => "SetLock",
        FcntlCmd::SetLockWait => "SetLockWait",
        FcntlCmd::GetLock => "GetLock",
        FcntlCmd::OpenFileDescriptorSetLockWait => "OpenFileDescriptorSetLockWait",
    }
}

fn push_digits(s: &mut String, n: u32)
    ensures
        final(s)@ == old(s)@ + digits_of(n as nat),
    decreases n,
{
    if n >= 10 {
        push_digits(s, n / 10);
    }
    let d: usize = (n % 10) as usize;
    let all = "0123456789";
    proof {
        reveal_strlit("0123456789");
    }
    let digit = all.substring_char(d, d + 1);
    assert(digit@ =~= seq![digit_char(d as nat)]);
    s.append(digit);
    assert(final(s)@ =~= old(s)@ + digits_of(n as nat));
}

fn push_decimal(s: &mut String, n: i32)
    ensures
        final(s)@ == old(s)@ + decimal_of(n as int),
{
    if n < 0 {
        s.append("-");
        let magnitude: u32 = (-(n as i64)) as u32;
        push_digits(s, magnitude);
        proof {
            reveal_strlit("-");
        }
        assert(final(s)@ =~= old(s)@ + decimal_of(n as int));
    } else {
        push_digits(s, n as u32);
    }
}

impl FcntlError {
    /// The human-readable text of this error.
    pub fn describe(&self) -> (r: String)
        ensures
            r@ == message_of(*self),
    {
        match self {
            FcntlError::CommandNotImplemented(cmd) => {
                let mut s = String::from_str(cmd_name_str(*cmd));
                s.append(" is not implemented for this operation");
                s
            },
            FcntlError::Errno(rv, Some(errno)) => {
                let mut s = String::from_str("syscall ");
                push_decimal(&mut s, *rv);
                s.append(" returned unknown or unexpected error: ");
                push_decimal(&mut s, *errno);
                assert(s@ =~= message_of(*self));
                s
            },
            FcntlError::Errno(rv, None) => {
                let mut s = String::from_str("syscall returned ");
                push_decimal(&mut s, *rv);
                s.append(" error but we could not retrieve errno");
                s
            },
            FcntlError::Internal => String::from_str(
                "we encountered an internal error. Please report this as a bug (fcntl)!",
            ),
            FcntlError::InvalidArgForCmd => String::from_str(
                "the provided arg parameter is invalid for the requested cmd",
            ),
        }
    }
}

} // verus!
