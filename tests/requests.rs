use fcntl::{
    fcntl_request, fcntl_result, is_file_locked_request, is_file_locked_result, lock_file_request,
    lock_file_result, unlock_file_request, unlock_file_result, FcntlArg, FcntlCmd, FcntlError, FcntlLockType,
    Flock, FlockOperations, F_RDLCK, F_UNLCK, F_WRLCK,
};

fn zeroed() -> Flock {
    Flock { l_type: 0, l_whence: 0, l_start: 0, l_len: 0, l_pid: 0 }
}

#[test]
fn request_gives_code_and_descriptor() {
    let f = Flock { l_type: F_WRLCK, l_whence: 0, l_start: 4, l_len: 8, l_pid: 0 };
    assert_eq!(fcntl_request(FcntlCmd::GetLock, FcntlArg::Flock(f)), Ok((5, f)));
    assert_eq!(fcntl_request(FcntlCmd::SetLock, FcntlArg::Flock(f)), Ok((6, f)));
    assert_eq!(fcntl_request(FcntlCmd::SetLockWait, FcntlArg::Flock(f)), Ok((7, f)));
    assert_eq!(fcntl_request(FcntlCmd::OpenFileDescriptorSetLockWait, FcntlArg::Flock(f)), Ok((38, f)));
}

#[test]
fn result_of_success_is_the_returned_descriptor() {
    let back = Flock { l_type: F_RDLCK, l_whence: 0, l_start: 0, l_len: 0, l_pid: 1234 };
    assert_eq!(fcntl_result(0, None, back), Ok(FcntlArg::Flock(back)));
}

#[test]
fn result_of_failure_carries_return_value_and_errno() {
    assert_eq!(fcntl_result(-1, Some(9), zeroed()), Err(FcntlError::Errno(-1, Some(9))));
    assert_eq!(fcntl_result(-1, None, zeroed()), Err(FcntlError::Errno(-1, None)));
}

#[test]
fn query_request_defaults_to_whole_file() {
    assert_eq!(is_file_locked_request(None), (FcntlCmd::GetLock, FcntlArg::Flock(zeroed())));
    let f = Flock { l_type: F_WRLCK, l_whence: 1, l_start: 3, l_len: 9, l_pid: 0 };
    assert_eq!(is_file_locked_request(Some(f)), (FcntlCmd::GetLock, FcntlArg::Flock(f)));
}

#[test]
fn fresh_file_reports_unlocked() {
    // the kernel answers a query on an unlocked file with F_UNLCK
    let (cmd, arg) = is_file_locked_request(None);
    let (code, sent) = match fcntl_request(cmd, arg) {
        Ok(pair) => pair,
        Err(e) => panic!("{:?}", e),
    };
    assert_eq!(code, libc::F_GETLK);
    let answer = sent.with_l_type(F_UNLCK);
    assert_eq!(is_file_locked_result(fcntl_result(0, None, answer)), Ok(false));
}

#[test]
fn query_reports_locked_for_held_lock() {
    let held = Flock { l_type: F_WRLCK, l_whence: 0, l_start: 0, l_len: 0, l_pid: 42 };
    assert_eq!(is_file_locked_result(Ok(FcntlArg::Flock(held))), Ok(true));
    let read = Flock { l_type: F_RDLCK, ..held };
    assert_eq!(is_file_locked_result(Ok(FcntlArg::Flock(read))), Ok(true));
}

#[test]
fn query_passes_errors_on() {
    let e = FcntlError::Errno(-1, Some(libc::EBADF));
    assert_eq!(is_file_locked_result(Err(e)), Err(e));
}

#[test]
fn lock_request_defaults_to_whole_file_read_lock() {
    let mut expected = zeroed();
    expected.l_type = F_RDLCK;
    assert_eq!(lock_file_request(None, None), (FcntlCmd::SetLockWait, FcntlArg::Flock(expected)));
}

#[test]
fn lock_request_overwrites_callers_lock_kind() {
    let f = Flock { l_type: F_UNLCK, l_whence: 2, l_start: -5, l_len: 5, l_pid: 0 };
    let (cmd, arg) = lock_file_request(Some(f), Some(FcntlLockType::Write));
    assert_eq!(cmd, FcntlCmd::SetLockWait);
    assert_eq!(arg, FcntlArg::Flock(Flock { l_type: F_WRLCK, ..f }));
    let (_, arg) = lock_file_request(Some(f), None);
    assert_eq!(arg, FcntlArg::Flock(Flock { l_type: F_RDLCK, ..f }));
}

#[test]
fn lock_then_unlock_report_true() {
    let (cmd, FcntlArg::Flock(sent)) = lock_file_request(None, None);
    assert_eq!(i32::from(cmd), libc::F_SETLKW);
    assert_eq!(lock_file_result(fcntl_result(0, None, sent)), Ok(true));
    let (cmd, FcntlArg::Flock(sent)) = unlock_file_request(None);
    assert_eq!(i32::from(cmd), libc::F_SETLK);
    assert_eq!(unlock_file_result(fcntl_result(0, None, sent)), Ok(true));
}

#[test]
fn conflicting_lock_gives_false() {
    assert_eq!(lock_file_result(fcntl_result(-1, Some(libc::EAGAIN), zeroed())), Ok(false));
    assert_eq!(lock_file_result(fcntl_result(-1, Some(libc::EACCES), zeroed())), Ok(false));
}

#[test]
fn other_lock_errors_pass_on() {
    let intr = FcntlError::Errno(-1, Some(libc::EINTR));
    assert_eq!(lock_file_result(Err(intr)), Err(intr));
    assert_eq!(lock_file_result(Err(FcntlError::Errno(-1, None))), Err(FcntlError::Errno(-1, None)));
    assert_eq!(lock_file_result(Err(FcntlError::Internal)), Err(FcntlError::Internal));
}

#[test]
fn unlock_request_always_clears_lock_kind() {
    let f = Flock { l_type: F_WRLCK, l_whence: 0, l_start: 100, l_len: 0, l_pid: 0 };
    assert_eq!(
        unlock_file_request(Some(f)),
        (FcntlCmd::SetLock, FcntlArg::Flock(Flock { l_type: F_UNLCK, ..f }))
    );
    let mut expected = zeroed();
    expected.l_type = F_UNLCK;
    assert_eq!(unlock_file_request(None), (FcntlCmd::SetLock, FcntlArg::Flock(expected)));
}

#[test]
fn unlock_without_held_lock_is_true() {
    // the same request goes out whether or not the descriptor carried a lock kind
    let f = Flock { l_type: F_RDLCK, l_whence: 0, l_start: 0, l_len: 0, l_pid: 0 };
    assert_eq!(unlock_file_request(Some(f)), unlock_file_request(None));
    let (_, FcntlArg::Flock(sent)) = unlock_file_request(None);
    assert_eq!(unlock_file_result(fcntl_result(0, None, sent)), Ok(true));
    assert_eq!(unlock_file_result(fcntl_result(0, None, sent)), Ok(true));
}

#[test]
fn unlock_errors_pass_on_unchanged() {
    let e = FcntlError::Errno(-1, Some(libc::EAGAIN));
    assert_eq!(unlock_file_result(Err(e)), Err(e));
}
