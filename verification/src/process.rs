//! Processes: yielding, spawning, waiting.

use vstd::prelude::*;

use crate::syscall::error::{check_done, check_error, done_of, error_of, reply_of, SysError, SysResult};

verus! {

/// What giving up the rest of the time slice came to.
pub fn yield_now(reply: isize) -> (r: SysResult<()>)
    ensures
        r == done_of(reply),
{
    check_done(reply)
}

/// The identifier of this process: the reply itself, which is never an
/// error.
pub fn getpid(reply: isize) -> (pid: usize)
    ensures
        pid == reply as usize,
{
    #[verifier::truncate]
    (reply as usize)
}

/// The identifier of the new process.
pub fn spawn(reply: isize) -> (r: SysResult<usize>)
    ensures
        r == reply_of(reply),
{
    check_error(reply)
}

/// The exit code of the process waited for: the low 32 bits of the reply,
/// read as a signed number.
pub fn wait(reply: isize) -> (r: SysResult<i32>)
    ensures
        r == (if reply < 0 {
            Err::<i32, SysError>(error_of(reply))
        } else {
            Ok::<i32, SysError>((reply as usize) as i32)
        }),
{
    match check_error(reply) {
        Ok(v) => Ok(#[verifier::truncate] (v as i32)),
        Err(e) => Err(e),
    }
}

} // verus!
