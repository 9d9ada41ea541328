//! The console.

use vstd::prelude::*;

use crate::syscall::error::{check_error, error_of, reply_of, SysError, SysResult};

verus! {

/// The number of bytes written to the console.
pub fn write_bytes(reply: isize) -> (r: SysResult<usize>)
    ensures
        r == reply_of(reply),
{
    check_error(reply)
}

/// The number of bytes of a text written to the console.
pub fn write_str(reply: isize) -> (r: SysResult<usize>)
    ensures
        r == reply_of(reply),
{
    write_bytes(reply)
}

/// The number of bytes read from the console.
pub fn read_bytes(reply: isize) -> (r: SysResult<usize>)
    ensures
        r == reply_of(reply),
{
    check_error(reply)
}

/// The number of bytes of a text printed.
pub fn print(reply: isize) -> (r: SysResult<usize>)
    ensures
        r == reply_of(reply),
{
    check_error(reply)
}

/// The number of bytes printed for a line: those of the text and those of
/// the line break, which is written by a call of its own. Where the text
/// failed the line break is not written, and `break_reply` is not read.
pub fn println(text_reply: isize, break_reply: isize) -> (r: SysResult<usize>)
    ensures
        r == (if text_reply < 0 {
            Err::<usize, SysError>(error_of(text_reply))
        } else if break_reply < 0 {
            Err::<usize, SysError>(error_of(break_reply))
        } else {
            Ok::<usize, SysError>((text_reply + break_reply) as usize)
        }),
{
    let text: usize = match print(text_reply) {
        Ok(n) => n,
        Err(e) => {
            return Err(e);
        },
    };
    match print(break_reply) {
        Ok(n) => Ok(text + n),
        Err(e) => Err(e),
    }
}

} // verus!
