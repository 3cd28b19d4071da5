use vstd::prelude::*;

verus! {

/// Linux `F_GETLK`: report the lock that would block the given one.
pub const F_GETLK: i32 = 5;

/// Linux `F_SETLK`: set or clear a lock without waiting.
pub const F_SETLK: i32 = 6;

/// Linux `F_SETLKW`: set a lock, waiting for a conflicting one to go away.
pub const F_SETLKW: i32 = 7;

/// Linux `F_OFD_SETLKW`: as `F_SETLKW`, for a lock owned by the open file description.
pub const F_OFD_SETLKW: i32 = 38;

/// Allowed commands (`cmd` parameter) for the `fcntl` syscall.
#[derive(Copy, Clone, Debug, PartialEq, Eq, Structural, Hash, PartialOrd, Ord)]
pub enum FcntlCmd {
    /// F_SETLK
    SetLock,
    /// F_SETLKW
    SetLockWait,
    /// F_GETLK
    GetLock,
    /// F_OFD_SETLKW
    OpenFileDescriptorSetLockWait,
}

/// The platform's code for a command.
pub open spec fn code_of(cmd: FcntlCmd) -> i32 {
    match cmd {
        FcntlCmd::SetLock => F_SETLK,
        FcntlCmd::SetLockWait => F_SETLKW,
        FcntlCmd::GetLock => F_GETLK,
        FcntlCmd::OpenFileDescriptorSetLockWait => F_OFD_SETLKW,
    }
}

/// The command that a platform code stands for, if any.
pub open spec fn cmd_of_code(code: i32) -> Option<FcntlCmd> {
    if code == F_SETLK {
        Some(FcntlCmd::SetLock)
    } else if code == F_SETLKW {
        Some(FcntlCmd::SetLockWait)
    } else if code == F_GETLK {
        Some(FcntlCmd::GetLock)
    } else if code == F_OFD_SETLKW {
        Some(FcntlCmd::OpenFileDescriptorSetLockWait)
    } else {
        None
    }
}

/// Translating a command to its code and the code back gives the command
/// again; so no two commands share a code.
pub proof fn lemma_code_round_trip(cmd: FcntlCmd, other: FcntlCmd)
    ensures
        cmd_of_code(code_of(cmd)) == Some(cmd),
        code_of(cmd) == code_of(other) ==> cmd == other,
{
}

impl From<FcntlCmd> for i32 {
    fn from(cmd: FcntlCmd) -> (r: i32)
        ensures
            r == code_of(cmd),
    {
        match cmd {
            FcntlCmd::SetLock => F_SETLK,
            FcntlCmd::SetLockWait => F_SETLKW,
            FcntlCmd::GetLock => F_GETLK,
            FcntlCmd::OpenFileDescriptorSetLockWait => F_OFD_SETLKW,
        }
    }
}

impl vstd::std_specs::convert::FromSpecImpl<FcntlCmd> for i32 {
    open spec fn obeys_from_spec() -> bool {
        true
    }

    open spec fn from_spec(cmd: FcntlCmd) -> i32 {
        code_of(cmd)
    }
}

} // verus!
