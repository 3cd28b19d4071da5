//! Advisory record locking through the `fcntl` syscall, as a set of verified
//! translations: a lock command becomes the platform's command code, a lock
//! request becomes the descriptor handed to the kernel, and what the kernel
//! hands back becomes a structured outcome.
//!
//! The syscall itself is made by the caller, between a `*_request` function,
//! which says what to send, and the matching `*_result` function, which says
//! what the answer means.

mod command;
mod descriptor;
mod error;
mod invoke;

pub use command::{code_of, cmd_of_code, lemma_code_round_trip, FcntlCmd, F_GETLK, F_OFD_SETLKW, F_SETLK, F_SETLKW};
pub use descriptor::{
    flock_or_zeroed, kind_code, zeroed_flock, FcntlLockType, Flock, FlockOperations, F_RDLCK, F_UNLCK, F_WRLCK,
};
pub use error::{cmd_name, decimal_of, digit_char, digits_of, message_of, FcntlError};
pub use invoke::{
    arg_fits, fcntl_request, fcntl_result, is_conflict, is_file_locked_request, is_file_locked_request_of,
    is_file_locked_result, is_file_locked_result_of, lock_file_request, lock_file_request_of, lock_file_result,
    lock_file_result_of, outcome_of, request_of, unlock_file_request, unlock_file_request_of, unlock_file_result,
    unlock_file_result_of, lemma_unlock_unconditional, FcntlArg, EACCES, EAGAIN,
};
