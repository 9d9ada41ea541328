//! Open files.
//!
//! A `File` is a handle and the flags it was opened with. Every method that
//! the kernel answers takes the kernel's reply.

use vstd::prelude::*;

use crate::fs::types::{FileStat, OpenFlags, O_CREATE, O_DIRECTORY, O_RDONLY, O_TRUNC, O_WRONLY};
use crate::io::Handle;
use crate::syscall::error::{
    check_done, check_error, check_wide, done_of, reply_of, wide_reply_of, SysError, SysResult,
};

verus! {

/// An open file.
#[derive(Debug, PartialEq, Eq)]
pub struct File {
    handle: Handle,
    flags: OpenFlags,
}

/// A file as plain values.
pub struct FileView {
    pub handle: Handle,
    pub flags: OpenFlags,
}

impl View for File {
    type V = FileView;

    closed spec fn view(&self) -> FileView {
        FileView { handle: self.handle, flags: self.flags }
    }
}

/// How far a transfer of a whole buffer has come.
#[derive(Debug, Clone, Copy, PartialEq, Eq)]
pub enum Progress {
    /// This many bytes are done; transfer the rest, from there on.
    More(usize),
    /// The transfer is over.
    Done(SysResult<()>),
}

/// True when the flags may open a file: a directory is not opened as one.
pub open spec fn opens_file(flags: OpenFlags) -> bool {
    (flags.0 & O_DIRECTORY) == 0
}

/// What opening with `flags` gives, from the kernel's reply: flags that ask
/// for a directory are refused whatever the kernel said; else the file has
/// the handle in the low 32 bits of the reply.
pub open spec fn opened_file(flags: OpenFlags, reply: isize) -> SysResult<FileView> {
    if !opens_file(flags) {
        Err(SysError::InvalidArgument)
    } else {
        match reply_of(reply) {
            Ok(v) => Ok(FileView { handle: Handle(v as u32), flags }),
            Err(e) => Err(e),
        }
    }
}

/// What follows one transfer that moved the bytes of `reply`, after `total`
/// of `len` bytes were done: an error ends it, and so does a transfer of
/// nothing, with the error `stalled`; else it goes on until `len` is
/// reached.
pub open spec fn progress_of(total: usize, len: usize, reply: isize, stalled: SysError) -> Progress {
    if total >= len {
        Progress::Done(Ok(()))
    } else {
        match reply_of(reply) {
            Err(e) => Progress::Done(Err(e)),
            Ok(n) => if n == 0 {
                Progress::Done(Err(stalled))
            } else if total + n >= len {
                Progress::Done(Ok(()))
            } else {
                Progress::More((total + n) as usize)
            },
        }
    }
}

fn progress(total: usize, len: usize, reply: isize, stalled: SysError) -> (p: Progress)
    ensures
        p == progress_of(total, len, reply, stalled),
{
    if total >= len {
        return Progress::Done(Ok(()));
    }
    match check_error(reply) {
        Err(e) => Progress::Done(Err(e)),
        Ok(n) => {
            if n == 0 {
                Progress::Done(Err(stalled))
            } else if n >= len - total {
                Progress::Done(Ok(()))
            } else {
                Progress::More(total + n)
            }
        },
    }
}

impl File {
    /// True when `flags` may open a file. Where this is false no call is
    /// made to the kernel.
    pub fn accepts(flags: OpenFlags) -> (b: bool)
        ensures
            b == opens_file(flags),
    {
        (flags.0 & O_DIRECTORY) == 0
    }

    /// The file that an open call with `flags` gave. Flags that ask for a
    /// directory are an `InvalidArgument`; `reply` is then not read.
    pub fn open_with_flags(flags: OpenFlags, reply: isize) -> (r: SysResult<File>)
        ensures
            r is Ok <==> opened_file(flags, reply) is Ok,
            r is Ok ==> r->Ok_0@ == opened_file(flags, reply)->Ok_0,
            r is Err ==> r->Err_0 == opened_file(flags, reply)->Err_0,
    {
        if (flags.0 & O_DIRECTORY) != 0 {
            return Err(SysError::InvalidArgument);
        }
        match check_error(reply) {
            Ok(v) => Ok(
                File { handle: Handle::from_raw(#[verifier::truncate] (v as u32)), flags },
            ),
            Err(e) => Err(e),
        }
    }

    /// The file that an open call for reading gave.
    pub fn open(reply: isize) -> (r: SysResult<File>)
        ensures
            r is Ok <==> reply >= 0,
            r is Ok ==> r->Ok_0@ == opened_file(OpenFlags(O_RDONLY), reply)->Ok_0,
            r is Err ==> r->Err_0 == crate::syscall::error::error_of(reply),
    {
        assert((O_RDONLY & O_DIRECTORY) == 0) by (bit_vector);
        File::open_with_flags(OpenFlags::new(O_RDONLY), reply)
    }

    /// The flags with which a file is created: write-only, created if it
    /// does not exist, cut to nothing if it does.
    pub fn create_flags() -> (f: OpenFlags)
        ensures
            f.0 == 0x0301,
            opens_file(f),
    {
        assert((O_WRONLY | O_CREATE | O_TRUNC) == 0x0301) by (bit_vector);
        assert((0x0301u32 & O_DIRECTORY) == 0) by (bit_vector);
        OpenFlags::new(O_WRONLY | O_CREATE | O_TRUNC)
    }

    /// The file that an open call with `create_flags` gave.
    pub fn create(reply: isize) -> (r: SysResult<File>)
        ensures
            r is Ok <==> reply >= 0,
            r is Ok ==> r->Ok_0@ == opened_file(OpenFlags(0x0301), reply)->Ok_0,
            r is Err ==> r->Err_0 == crate::syscall::error::error_of(reply),
    {
        File::open_with_flags(File::create_flags(), reply)
    }

    /// A file for a handle that is already open.
    pub fn from_raw_handle(handle: u32, flags: OpenFlags) -> (f: File)
        ensures
            f@ == (FileView { handle: Handle(handle), flags }),
    {
        File { handle: Handle::from_raw(handle), flags }
    }

    /// The number of bytes read, 0 at the end of the file.
    pub fn read(&self, reply: isize) -> (r: SysResult<usize>)
        ensures
            r == reply_of(reply),
    {
        check_error(reply)
    }

    /// The number of bytes read at an offset of the caller's choice.
    pub fn pread(&self, reply: isize) -> (r: SysResult<usize>)
        ensures
            r == reply_of(reply),
    {
        check_error(reply)
    }

    /// One step of reading exactly `len` bytes. `total` bytes were read
    /// before, `reply` answers the read of the rest. The end of the file
    /// before `len` bytes is an `EndOfFile` error.
    pub fn read_exact(&self, total: usize, len: usize, reply: isize) -> (p: Progress)
        ensures
            p == progress_of(total, len, reply, SysError::EndOfFile),
    {
        progress(total, len, reply, SysError::EndOfFile)
    }

    /// The number of bytes written.
    pub fn write(&self, reply: isize) -> (r: SysResult<usize>)
        ensures
            r == reply_of(reply),
    {
        check_error(reply)
    }

    /// The number of bytes written at an offset of the caller's choice.
    pub fn pwrite(&self, reply: isize) -> (r: SysResult<usize>)
        ensures
            r == reply_of(reply),
    {
        check_error(reply)
    }

    /// One step of writing all of `len` bytes. `total` bytes were written
    /// before, `reply` answers the write of the rest. A write that takes
    /// nothing is an `IoError`.
    pub fn write_all(&self, total: usize, len: usize, reply: isize) -> (p: Progress)
        ensures
            p == progress_of(total, len, reply, SysError::IoError),
    {
        progress(total, len, reply, SysError::IoError)
    }

    /// The position after a seek, counted from the start of the file.
    pub fn seek(&self, reply: isize) -> (r: SysResult<u64>)
        ensures
            r == wide_reply_of(reply),
    {
        check_wide(reply)
    }

    /// What a seek to the start came to.
    pub fn rewind(&self, reply: isize) -> (r: SysResult<()>)
        ensures
            r == done_of(reply),
    {
        check_done(reply)
    }

    /// The position, from the reply to a seek by 0 from where the cursor
    /// stands.
    pub fn position(&self, reply: isize) -> (r: SysResult<u64>)
        ensures
            r == wide_reply_of(reply),
    {
        check_wide(reply)
    }

    /// What the kernel told of the file: `filled` when the call succeeded.
    pub fn stat(&self, reply: isize, filled: FileStat) -> (r: SysResult<FileStat>)
        ensures
            r == match done_of(reply) {
                Ok(_) => Ok::<FileStat, SysError>(filled),
                Err(e) => Err::<FileStat, SysError>(e),
            },
    {
        match check_done(reply) {
            Ok(_) => Ok(filled),
            Err(e) => Err(e),
        }
    }

    /// The size of the file, from what the kernel told of it.
    pub fn size(&self, reply: isize, filled: FileStat) -> (r: SysResult<u64>)
        ensures
            r == match done_of(reply) {
                Ok(_) => Ok::<u64, SysError>(filled.size),
                Err(e) => Err::<u64, SysError>(e),
            },
    {
        match check_done(reply) {
            Ok(_) => Ok(filled.size),
            Err(e) => Err(e),
        }
    }

    /// What a flush came to.
    pub fn flush(&self, reply: isize) -> (r: SysResult<()>)
        ensures
            r == done_of(reply),
    {
        check_done(reply)
    }

    /// What a change of the file's length came to.
    pub fn truncate(&self, reply: isize) -> (r: SysResult<()>)
        ensures
            r == done_of(reply),
    {
        check_done(reply)
    }

    /// The handle of the file.
    pub fn handle(&self) -> (h: &Handle)
        ensures
            *h == self@.handle,
    {
        &self.handle
    }

    /// The raw value of the handle.
    pub fn raw_handle(&self) -> (raw: u32)
        ensures
            raw == self@.handle.0,
    {
        self.handle.raw()
    }

    /// The flags that the file was opened with.
    pub fn flags(&self) -> (f: OpenFlags)
        ensures
            f == self@.flags,
    {
        self.flags
    }

    /// True unless the file was opened write-only.
    pub fn can_read(&self) -> (b: bool)
        ensures
            b == ((self@.flags.0 & 0x3) != O_WRONLY),
    {
        self.flags.can_read()
    }

    /// True unless the file was opened read-only.
    pub fn can_write(&self) -> (b: bool)
        ensures
            b == ((self@.flags.0 & 0x3) != O_RDONLY),
    {
        self.flags.can_write()
    }
}

/// Reading a file in one call: the number of bytes read, from the replies
/// to the open and to the read. Where the open failed no read is made and
/// `read_reply` is not read.
pub fn read_file(open_reply: isize, read_reply: isize) -> (r: SysResult<usize>)
    ensures
        r == (if open_reply < 0 {
            Err::<usize, SysError>(crate::syscall::error::error_of(open_reply))
        } else {
            reply_of(read_reply)
        }),
{
    match File::open(open_reply) {
        Ok(file) => file.read(read_reply),
        Err(e) => Err(e),
    }
}

/// One step of writing a new file in one call: `open_reply` answers the
/// open with `create_flags`, `reply` the write of what is left after
/// `total` of `len` bytes. Where the open failed nothing is written.
pub fn write_file(open_reply: isize, total: usize, len: usize, reply: isize) -> (p: Progress)
    ensures
        p == (if open_reply < 0 {
            Progress::Done(Err(crate::syscall::error::error_of(open_reply)))
        } else {
            progress_of(total, len, reply, SysError::IoError)
        }),
{
    match File::create(open_reply) {
        Ok(file) => file.write_all(total, len, reply),
        Err(e) => Progress::Done(Err(e)),
    }
}

/// A transfer that goes on has come further, and stays short of the whole:
/// so a loop over `read_exact` or `write_all` ends.
pub proof fn lemma_progress_advances(total: usize, len: usize, reply: isize, stalled: SysError)
    ensures
        progress_of(total, len, reply, stalled) matches Progress::More(next) ==> total < next
            < len,
{
}

} // verus!
