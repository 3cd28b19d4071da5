use fcntl::{FcntlCmd, FcntlError};

#[test]
fn describe_command_not_implemented() {
    assert_eq!(
        FcntlError::CommandNotImplemented(FcntlCmd::OpenFileDescriptorSetLockWait).describe(),
        "OpenFileDescriptorSetLockWait is not implemented for this operation"
    );
    assert_eq!(
        FcntlError::CommandNotImplemented(FcntlCmd::GetLock).describe(),
        "GetLock is not implemented for this operation"
    );
}

#[test]
fn describe_errno_with_code() {
    assert_eq!(
        FcntlError::Errno(-1, Some(11)).describe(),
        "syscall -1 returned unknown or unexpected error: 11"
    );
    assert_eq!(
        FcntlError::Errno(i32::MIN, Some(0)).describe(),
        "syscall -2147483648 returned unknown or unexpected error: 0"
    );
    assert_eq!(
        FcntlError::Errno(i32::MAX, Some(1070)).describe(),
        "syscall 2147483647 returned unknown or unexpected error: 1070"
    );
}

#[test]
fn describe_errno_without_code() {
    assert_eq!(
        FcntlError::Errno(-1, None).describe(),
        "syscall returned -1 error but we could not retrieve errno"
    );
}

#[test]
fn describe_internal_and_invalid_arg() {
    assert_eq!(
        FcntlError::Internal.describe(),
        "we encountered an internal error. Please report this as a bug (fcntl)!"
    );
    assert_eq!(
        FcntlError::InvalidArgForCmd.describe(),
        "the provided arg parameter is invalid for the requested cmd"
    );
}
