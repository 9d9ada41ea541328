//! Error codes returned by the kernel, and how a raw reply is decoded.

use vstd::prelude::*;

verus! {

/// Result of a kernel operation.
pub type SysResult<T> = Result<T, SysError>;

/// An error reported by the kernel.
#[derive(Debug, Clone, Copy, PartialEq, Eq, Structural)]
pub enum SysError {
    NotImplemented,
    InvalidSyscall,
    InvalidArgument,
    InvalidHandle,
    PermissionDenied,
    NotFound,
    AlreadyExists,
    Busy,
    Timeout,
    OutOfMemory,
    BufferTooSmall,
    Interrupted,
    EndOfFile,
    BrokenPipe,
    IsDirectory,
    NotDirectory,
    NotEmpty,
    IoError,
    LimitReached,
    NotSupported,
    BadAddress,
    ProtocolError,
    Unknown,
}

/// The numeric code of each error.
pub open spec fn error_code(e: SysError) -> int {
    match e {
        SysError::NotImplemented => -1,
        SysError::InvalidSyscall => -2,
        SysError::InvalidArgument => -3,
        SysError::InvalidHandle => -4,
        SysError::PermissionDenied => -5,
        SysError::NotFound => -6,
        SysError::AlreadyExists => -7,
        SysError::Busy => -8,
        SysError::Timeout => -9,
        SysError::OutOfMemory => -10,
        SysError::BufferTooSmall => -11,
        SysError::Interrupted => -12,
        SysError::EndOfFile => -13,
        SysError::BrokenPipe => -14,
        SysError::IsDirectory => -15,
        SysError::NotDirectory => -16,
        SysError::NotEmpty => -17,
        SysError::IoError => -18,
        SysError::LimitReached => -19,
        SysError::NotSupported => -20,
        SysError::BadAddress => -21,
        SysError::ProtocolError => -22,
        SysError::Unknown => -127,
    }
}

/// The error that a 32-bit code stands for; every code without a name of its
/// own is `Unknown`.
pub open spec fn error_of_i32(code: i32) -> SysError {
    if code == -1 {
        SysError::NotImplemented
    } else if code == -2 {
        SysError::InvalidSyscall
    } else if code == -3 {
        SysError::InvalidArgument
    } else if code == -4 {
        SysError::InvalidHandle
    } else if code == -5 {
        SysError::PermissionDenied
    } else if code == -6 {
        SysError::NotFound
    } else if code == -7 {
        SysError::AlreadyExists
    } else if code == -8 {
        SysError::Busy
    } else if code == -9 {
        SysError::Timeout
    } else if code == -10 {
        SysError::OutOfMemory
    } else if code == -11 {
        SysError::BufferTooSmall
    } else if code == -12 {
        SysError::Interrupted
    } else if code == -13 {
        SysError::EndOfFile
    } else if code == -14 {
        SysError::BrokenPipe
    } else if code == -15 {
        SysError::IsDirectory
    } else if code == -16 {
        SysError::NotDirectory
    } else if code == -17 {
        SysError::NotEmpty
    } else if code == -18 {
        SysError::IoError
    } else if code == -19 {
        SysError::LimitReached
    } else if code == -20 {
        SysError::NotSupported
    } else if code == -21 {
        SysError::BadAddress
    } else if code == -22 {
        SysError::ProtocolError
    } else {
        SysError::Unknown
    }
}

/// The error that a raw reply stands for: the reply is cut to its low 32
/// bits, read as a signed number, and looked up.
pub open spec fn error_of(code: isize) -> SysError {
    error_of_i32(code as i32)
}

/// What a raw reply means: a negative reply is an error, any other reply is
/// the value itself.
pub open spec fn reply_of(ret: isize) -> SysResult<usize> {
    if ret < 0 {
        Err(error_of(ret))
    } else {
        Ok(ret as usize)
    }
}

/// What a raw reply means where only success counts: nothing, or the error.
pub open spec fn done_of(ret: isize) -> SysResult<()> {
    if ret < 0 {
        Err(error_of(ret))
    } else {
        Ok(())
    }
}

/// What a raw reply means where the value is a 64-bit number.
pub open spec fn wide_reply_of(ret: isize) -> SysResult<u64> {
    if ret < 0 {
        Err(error_of(ret))
    } else {
        Ok(ret as u64)
    }
}

impl SysError {
    /// Turns a raw reply code into an error.
    pub fn from_code(code: isize) -> (e: SysError)
        ensures
            e == error_of(code),
    {
        let low: i32 = #[verifier::truncate] (code as i32);
        if low == -1 {
            SysError::NotImplemented
        } else if low == -2 {
            SysError::InvalidSyscall
        } else if low == -3 {
            SysError::InvalidArgument
        } else if low == -4 {
            SysError::InvalidHandle
        } else if low == -5 {
            SysError::PermissionDenied
        } else if low == -6 {
            SysError::NotFound
        } else if low == -7 {
            SysError::AlreadyExists
        } else if low == -8 {
            SysError::Busy
        } else if low == -9 {
            SysError::Timeout
        } else if low == -10 {
            SysError::OutOfMemory
        } else if low == -11 {
            SysError::BufferTooSmall
        } else if low == -12 {
            SysError::Interrupted
        } else if low == -13 {
            SysError::EndOfFile
        } else if low == -14 {
            SysError::BrokenPipe
        } else if low == -15 {
            SysError::IsDirectory
        } else if low == -16 {
            SysError::NotDirectory
        } else if low == -17 {
            SysError::NotEmpty
        } else if low == -18 {
            SysError::IoError
        } else if low == -19 {
            SysError::LimitReached
        } else if low == -20 {
            SysError::NotSupported
        } else if low == -21 {
            SysError::BadAddress
        } else if low == -22 {
            SysError::ProtocolError
        } else {
            SysError::Unknown
        }
    }

    /// The numeric code of the error.
    pub fn code(self) -> (c: i32)
        ensures
            c == error_code(self),
    {
        match self {
            SysError::NotImplemented => -1,
            SysError::InvalidSyscall => -2,
            SysError::InvalidArgument => -3,
            SysError::InvalidHandle => -4,
            SysError::PermissionDenied => -5,
            SysError::NotFound => -6,
            SysError::AlreadyExists => -7,
            SysError::Busy => -8,
            SysError::Timeout => -9,
            SysError::OutOfMemory => -10,
            SysError::BufferTooSmall => -11,
            SysError::Interrupted => -12,
            SysError::EndOfFile => -13,
            SysError::BrokenPipe => -14,
            SysError::IsDirectory => -15,
            SysError::NotDirectory => -16,
            SysError::NotEmpty => -17,
            SysError::IoError => -18,
            SysError::LimitReached => -19,
            SysError::NotSupported => -20,
            SysError::BadAddress => -21,
            SysError::ProtocolError => -22,
            SysError::Unknown => -127,
        }
    }
}

/// Decodes a raw kernel reply.
pub fn check_error(ret: isize) -> (r: SysResult<usize>)
    ensures
        r == reply_of(ret),
{
    if ret < 0 {
        Err(SysError::from_code(ret))
    } else {
        Ok(ret as usize)
    }
}

/// Decodes a raw kernel reply of which only success counts.
pub fn check_done(ret: isize) -> (r: SysResult<()>)
    ensures
        r == done_of(ret),
{
    if ret < 0 {
        Err(SysError::from_code(ret))
    } else {
        Ok(())
    }
}

/// Decodes a raw kernel reply whose value is a 64-bit number.
pub fn check_wide(ret: isize) -> (r: SysResult<u64>)
    ensures
        r == wide_reply_of(ret),
{
    if ret < 0 {
        Err(SysError::from_code(ret))
    } else {
        Ok(ret as u64)
    }
}

/// Every error is recovered from its own code.
pub proof fn lemma_code_round_trip(e: SysError)
    ensures
        error_of(error_code(e) as isize) == e,
        error_code(e) < 0,
{
}

/// A reply decodes to `Ok` exactly when it is not negative, and then to the
/// reply itself.
pub proof fn lemma_reply_ok_iff_nonnegative(ret: isize)
    ensures
        reply_of(ret) is Ok <==> ret >= 0,
        ret >= 0 ==> reply_of(ret) == Ok::<usize, SysError>(ret as usize),
{
}

} // verus!
