//! Operations on paths: metadata, access checks, the working directory.

use vstd::prelude::*;
use vstd::string::StringSliceAdditionalSpecFns;
use vstd::utf8::valid_utf8;

use crate::fs::types::FileStat;
use crate::syscall::error::{check_done, check_error, done_of, error_of, SysError, SysResult};
use crate::text::utf8_str;

verus! {

/// Access check: the path exists.
pub const F_OK: u32 = 0;

/// Access check: the path can be executed.
pub const X_OK: u32 = 1;

/// Access check: the path can be written.
pub const W_OK: u32 = 2;

/// Access check: the path can be read.
pub const R_OK: u32 = 4;

/// What the kernel told of a path: `filled` when the call succeeded.
pub fn stat(reply: isize, filled: FileStat) -> (r: SysResult<FileStat>)
    ensures
        r == match done_of(reply) {
            Ok(_) => Ok::<FileStat, SysError>(filled),
            Err(e) => Err::<FileStat, SysError>(e),
        },
{
    match check_done(reply) {
        Ok(_) => Ok(filled),
        Err(e) => Err(e),
    }
}

/// What the kernel told of an open file: `filled` when the call succeeded.
pub fn fstat(reply: isize, filled: FileStat) -> (r: SysResult<FileStat>)
    ensures
        r == match done_of(reply) {
            Ok(_) => Ok::<FileStat, SysError>(filled),
            Err(e) => Err::<FileStat, SysError>(e),
        },
{
    stat(reply, filled)
}

/// True when an access check with `F_OK` succeeded.
pub fn path_exists(reply: isize) -> (b: bool)
    ensures
        b == (reply >= 0),
{
    reply >= 0
}

/// True when the path is a regular file: the metadata call succeeded and
/// told so.
pub fn is_file(reply: isize, filled: FileStat) -> (b: bool)
    ensures
        b == (reply >= 0 && filled.file_type == 1),
{
    match stat(reply, filled) {
        Ok(st) => st.is_file(),
        Err(_) => false,
    }
}

/// True when the path is a directory: the metadata call succeeded and told
/// so.
pub fn is_dir(reply: isize, filled: FileStat) -> (b: bool)
    ensures
        b == (reply >= 0 && filled.file_type == 2),
{
    match stat(reply, filled) {
        Ok(st) => st.is_dir(),
        Err(_) => false,
    }
}

/// True when an access check with `R_OK` succeeded.
pub fn can_read(reply: isize) -> (b: bool)
    ensures
        b == (reply >= 0),
{
    reply >= 0
}

/// True when an access check with `W_OK` succeeded.
pub fn can_write(reply: isize) -> (b: bool)
    ensures
        b == (reply >= 0),
{
    reply >= 0
}

/// True when an access check with `X_OK` succeeded.
pub fn can_execute(reply: isize) -> (b: bool)
    ensures
        b == (reply >= 0),
{
    reply >= 0
}

/// The length of the working directory's path in a buffer of `len` bytes,
/// from the kernel's reply: the reply counts the closing zero, the path
/// does not.
pub open spec fn cwd_len(reply: isize) -> int {
    if reply > 0 {
        reply - 1
    } else {
        0
    }
}

/// The working directory, from the kernel's reply and the buffer that the
/// kernel filled. The reply counts the closing zero. A path that is not
/// valid UTF-8, or that is said to be longer than the buffer, is an
/// `InvalidArgument`.
pub fn getcwd<'a>(reply: isize, buf: &'a [u8]) -> (r: SysResult<&'a str>)
    ensures
        reply < 0 ==> r == Err::<&str, SysError>(error_of(reply)),
        reply >= 0 && (cwd_len(reply) > buf@.len() || !valid_utf8(
            buf@.subrange(0, cwd_len(reply)),
        )) ==> r == Err::<&str, SysError>(SysError::InvalidArgument),
        reply >= 0 && cwd_len(reply) <= buf@.len() && valid_utf8(buf@.subrange(0, cwd_len(reply)))
            ==> r is Ok && r->Ok_0.spec_bytes() == buf@.subrange(0, cwd_len(reply)),
{
    let len: usize = match check_error(reply) {
        Ok(len) => len,
        Err(e) => {
            return Err(e);
        },
    };
    let path_len: usize = if len > 0 {
        len - 1
    } else {
        0
    };
    if path_len > buf.len() {
        return Err(SysError::InvalidArgument);
    }
    match utf8_str(vstd::slice::slice_subrange(buf, 0, path_len)) {
        Some(path) => Ok(path),
        None => Err(SysError::InvalidArgument),
    }
}

/// What a change of the working directory came to.
pub fn chdir(reply: isize) -> (r: SysResult<()>)
    ensures
        r == done_of(reply),
{
    check_done(reply)
}

/// What the creation of a directory came to.
pub fn mkdir(reply: isize) -> (r: SysResult<()>)
    ensures
        r == done_of(reply),
{
    check_done(reply)
}

/// What the removal of an empty directory came to.
pub fn rmdir(reply: isize) -> (r: SysResult<()>)
    ensures
        r == done_of(reply),
{
    check_done(reply)
}

/// What the removal of a file came to.
pub fn unlink(reply: isize) -> (r: SysResult<()>)
    ensures
        r == done_of(reply),
{
    check_done(reply)
}

/// What the removal of a file came to; another name for `unlink`.
pub fn remove(reply: isize) -> (r: SysResult<()>)
    ensures
        r == done_of(reply),
{
    unlink(reply)
}

/// What a rename came to.
pub fn rename(reply: isize) -> (r: SysResult<()>)
    ensures
        r == done_of(reply),
{
    check_done(reply)
}

} // verus!
