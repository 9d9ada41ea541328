use redpowder::syscall::error::{check_error, SysError};

const ALL: [(SysError, i32); 23] = [
    (SysError::NotImplemented, -1),
    (SysError::InvalidSyscall, -2),
    (SysError::InvalidArgument, -3),
    (SysError::InvalidHandle, -4),
    (SysError::PermissionDenied, -5),
    (SysError::NotFound, -6),
    (SysError::AlreadyExists, -7),
    (SysError::Busy, -8),
    (SysError::Timeout, -9),
    (SysError::OutOfMemory, -10),
    (SysError::BufferTooSmall, -11),
    (SysError::Interrupted, -12),
    (SysError::EndOfFile, -13),
    (SysError::BrokenPipe, -14),
    (SysError::IsDirectory, -15),
    (SysError::NotDirectory, -16),
    (SysError::NotEmpty, -17),
    (SysError::IoError, -18),
    (SysError::LimitReached, -19),
    (SysError::NotSupported, -20),
    (SysError::BadAddress, -21),
    (SysError::ProtocolError, -22),
    (SysError::Unknown, -127),
];

#[test]
fn every_error_has_its_code() {
    for (error, code) in ALL {
        assert_eq!(error.code(), code);
    }
}

#[test]
fn every_code_gives_its_error() {
    for (error, code) in ALL {
        assert_eq!(SysError::from_code(code as isize), error);
    }
}

#[test]
fn codes_without_a_name_are_unknown() {
    assert_eq!(SysError::from_code(-23), SysError::Unknown);
    assert_eq!(SysError::from_code(-126), SysError::Unknown);
    assert_eq!(SysError::from_code(-128), SysError::Unknown);
    assert_eq!(SysError::from_code(0), SysError::Unknown);
    assert_eq!(SysError::from_code(5), SysError::Unknown);
    assert_eq!(SysError::from_code(isize::MIN), SysError::Unknown);
}

#[test]
fn only_the_low_32_bits_of_a_code_count() {
    let wide: i64 = -1 - (1i64 << 32);
    assert_eq!(SysError::from_code(wide as isize), SysError::NotImplemented);
}

#[test]
fn check_error_decodes_negative_replies() {
    assert_eq!(check_error(-6), Err(SysError::NotFound));
    assert_eq!(check_error(-1), Err(SysError::NotImplemented));
    assert_eq!(check_error(-1000), Err(SysError::Unknown));
}

#[test]
fn check_error_passes_values_through() {
    assert_eq!(check_error(0), Ok(0));
    assert_eq!(check_error(17), Ok(17));
    assert_eq!(check_error(isize::MAX), Ok(isize::MAX as usize));
}
