use redpowder::fs::dir::{list_dir, Dir};
use redpowder::fs::file::{read_file, write_file, File, Progress};
use redpowder::fs::ops;
use redpowder::fs::types::{FileStat, OpenFlags, O_DIRECTORY, O_RDONLY, O_RDWR};
use redpowder::io::Handle;
use redpowder::syscall::error::SysError;

fn dirent(ino: u64, rec_len: u16, kind: u8, name: &[u8]) -> Vec<u8> {
    let mut out = Vec::new();
    out.extend_from_slice(&ino.to_le_bytes());
    out.extend_from_slice(&rec_len.to_le_bytes());
    out.push(kind);
    out.push(name.len() as u8);
    out.extend_from_slice(name);
    out.resize(rec_len as usize, 0);
    out
}

#[test]
fn files_are_opened_from_the_reply() {
    let file = File::open(5).unwrap();
    assert_eq!(*file.handle(), Handle::from_raw(5));
    assert_eq!(file.raw_handle(), 5);
    assert_eq!(file.flags(), OpenFlags::new(O_RDONLY));
    assert!(file.can_read());
    assert!(!file.can_write());
    assert_eq!(File::open(-6), Err(SysError::NotFound));
}

#[test]
fn files_are_created_write_only() {
    assert_eq!(File::create_flags().bits(), 0x0301);
    let file = File::create(8).unwrap();
    assert_eq!(file.flags().bits(), 0x0301);
    assert!(file.can_write());
    assert!(!file.can_read());
    assert_eq!(File::create(-5), Err(SysError::PermissionDenied));
}

#[test]
fn directories_are_not_opened_as_files() {
    let flags = OpenFlags::new(O_RDONLY | O_DIRECTORY);
    assert!(!File::accepts(flags));
    assert_eq!(File::open_with_flags(flags, 5), Err(SysError::InvalidArgument));
    assert_eq!(File::open_with_flags(flags, -6), Err(SysError::InvalidArgument));
    assert!(File::accepts(OpenFlags::new(O_RDWR)));
    let file = File::open_with_flags(OpenFlags::new(O_RDWR), 9).unwrap();
    assert!(file.can_read() && file.can_write());
    assert_eq!(file, File::from_raw_handle(9, OpenFlags::new(O_RDWR)));
}

#[test]
fn transfers_pass_the_reply_on() {
    let file = File::open(5).unwrap();
    assert_eq!(file.read(100), Ok(100));
    assert_eq!(file.read(0), Ok(0));
    assert_eq!(file.read(-18), Err(SysError::IoError));
    assert_eq!(file.pread(7), Ok(7));
    assert_eq!(file.write(3), Ok(3));
    assert_eq!(file.pwrite(-4), Err(SysError::InvalidHandle));
    assert_eq!(file.seek(1 << 20), Ok(1 << 20));
    assert_eq!(file.seek(-3), Err(SysError::InvalidArgument));
    assert_eq!(file.rewind(0), Ok(()));
    assert_eq!(file.rewind(-3), Err(SysError::InvalidArgument));
    assert_eq!(file.position(77), Ok(77));
    assert_eq!(file.flush(0), Ok(()));
    assert_eq!(file.flush(-18), Err(SysError::IoError));
    assert_eq!(file.truncate(0), Ok(()));
    assert_eq!(file.truncate(-5), Err(SysError::PermissionDenied));
}

#[test]
fn stat_gives_what_the_kernel_filled_in() {
    let file = File::open(5).unwrap();
    let filled = FileStat { file_type: 1, size: 4096, ..FileStat::zeroed() };
    assert_eq!(file.stat(0, filled), Ok(filled));
    assert_eq!(file.stat(-4, filled), Err(SysError::InvalidHandle));
    assert_eq!(file.size(0, filled), Ok(4096));
    assert_eq!(file.size(-4, filled), Err(SysError::InvalidHandle));
    assert_eq!(ops::stat(0, filled), Ok(filled));
    assert_eq!(ops::stat(-6, filled), Err(SysError::NotFound));
    assert_eq!(ops::fstat(0, filled), Ok(filled));
}

#[test]
fn read_exact_goes_on_until_all_is_read() {
    let file = File::open(5).unwrap();
    assert_eq!(file.read_exact(0, 10, 4), Progress::More(4));
    assert_eq!(file.read_exact(4, 10, 5), Progress::More(9));
    assert_eq!(file.read_exact(9, 10, 1), Progress::Done(Ok(())));
    assert_eq!(file.read_exact(0, 10, 10), Progress::Done(Ok(())));
    assert_eq!(file.read_exact(0, 10, 11), Progress::Done(Ok(())));
    assert_eq!(file.read_exact(0, 0, -18), Progress::Done(Ok(())));
}

#[test]
fn read_exact_fails_at_the_end_of_the_file() {
    let file = File::open(5).unwrap();
    assert_eq!(file.read_exact(4, 10, 0), Progress::Done(Err(SysError::EndOfFile)));
    assert_eq!(file.read_exact(4, 10, -18), Progress::Done(Err(SysError::IoError)));
}

#[test]
fn write_all_fails_when_nothing_is_taken() {
    let file = File::create(5).unwrap();
    assert_eq!(file.write_all(0, 10, 6), Progress::More(6));
    assert_eq!(file.write_all(6, 10, 4), Progress::Done(Ok(())));
    assert_eq!(file.write_all(6, 10, 0), Progress::Done(Err(SysError::IoError)));
    assert_eq!(file.write_all(6, 10, -14), Progress::Done(Err(SysError::BrokenPipe)));
}

#[test]
fn whole_files_are_read_and_written() {
    assert_eq!(read_file(5, 100), Ok(100));
    assert_eq!(read_file(-6, 100), Err(SysError::NotFound));
    assert_eq!(read_file(5, -18), Err(SysError::IoError));
    assert_eq!(write_file(5, 0, 8, 8), Progress::Done(Ok(())));
    assert_eq!(write_file(5, 0, 8, 3), Progress::More(3));
    assert_eq!(write_file(-5, 0, 8, 8), Progress::Done(Err(SysError::PermissionDenied)));
}

#[test]
fn path_checks_read_the_reply() {
    assert!(ops::path_exists(0));
    assert!(!ops::path_exists(-6));
    assert!(ops::can_read(0));
    assert!(!ops::can_read(-5));
    assert!(ops::can_write(0));
    assert!(!ops::can_write(-5));
    assert!(ops::can_execute(0));
    assert!(!ops::can_execute(-5));
    assert_eq!((ops::F_OK, ops::X_OK, ops::W_OK, ops::R_OK), (0, 1, 2, 4));
    let file = FileStat { file_type: 1, ..FileStat::zeroed() };
    let dir = FileStat { file_type: 2, ..FileStat::zeroed() };
    assert!(ops::is_file(0, file));
    assert!(!ops::is_file(0, dir));
    assert!(!ops::is_file(-6, file));
    assert!(ops::is_dir(0, dir));
    assert!(!ops::is_dir(0, file));
    assert!(!ops::is_dir(-6, dir));
}

#[test]
fn path_changes_read_the_reply() {
    assert_eq!(ops::chdir(0), Ok(()));
    assert_eq!(ops::chdir(-16), Err(SysError::NotDirectory));
    assert_eq!(ops::mkdir(0), Ok(()));
    assert_eq!(ops::mkdir(-7), Err(SysError::AlreadyExists));
    assert_eq!(ops::rmdir(-17), Err(SysError::NotEmpty));
    assert_eq!(ops::rmdir(0), Ok(()));
    assert_eq!(ops::unlink(-15), Err(SysError::IsDirectory));
    assert_eq!(ops::remove(-15), Err(SysError::IsDirectory));
    assert_eq!(ops::remove(0), Ok(()));
    assert_eq!(ops::rename(0), Ok(()));
    assert_eq!(ops::rename(-6), Err(SysError::NotFound));
}

#[test]
fn working_directory_is_the_buffer_without_its_closing_zero() {
    let mut buf = [0u8; 16];
    buf[..5].copy_from_slice(b"/apps");
    assert_eq!(ops::getcwd(6, &buf), Ok("/apps"));
    assert_eq!(ops::getcwd(1, &buf), Ok(""));
    assert_eq!(ops::getcwd(0, &buf), Ok(""));
    assert_eq!(ops::getcwd(-11, &buf), Err(SysError::BufferTooSmall));
    assert_eq!(ops::getcwd(17, &buf), Ok("/apps\0\0\0\0\0\0\0\0\0\0\0"));
    assert_eq!(ops::getcwd(18, &buf), Err(SysError::InvalidArgument));
    let broken = [b'/', 0xC3, 0];
    assert_eq!(ops::getcwd(3, &broken), Err(SysError::InvalidArgument));
}

#[test]
fn directory_remembers_its_path() {
    let dir = Dir::open("/apps", 4).unwrap();
    assert_eq!(dir.raw_handle(), 4);
    assert_eq!(*dir.handle(), Handle::from_raw(4));
    assert_eq!(dir.path_bytes(), b"/apps");
    assert_eq!(dir.read_raw(120), Ok(120));
    assert_eq!(dir.read_raw(-4), Err(SysError::InvalidHandle));
    assert!(Dir::open("/apps", -16).is_err());
    let long = "d".repeat(300);
    let dir = Dir::open(&long, 4).unwrap();
    assert_eq!(dir.path_bytes(), "d".repeat(255).as_bytes());
}

#[test]
fn read_all_takes_a_buffer_apart() {
    let dir = Dir::open("/apps", 4).unwrap();
    let mut buf = dirent(1, 16, 1, b"a");
    buf.extend(dirent(2, 20, 2, b"bb"));
    buf.extend(dirent(3, 13, 3, b"c"));
    let filled = buf.len() as isize;
    buf.resize(4096, 0);
    let mut entries = Vec::new();
    assert_eq!(dir.read_all(filled, &buf, &mut entries), Ok(true));
    let names: Vec<&str> = entries.iter().map(|e| e.name()).collect();
    assert_eq!(names, vec!["a", "bb", "c"]);
    assert_eq!(entries[1].ino(), 2);
    assert!(entries[1].is_dir());

    assert_eq!(dir.read_all(0, &buf, &mut entries), Ok(false));
    assert_eq!(entries.len(), 3);
    assert_eq!(dir.read_all(-18, &buf, &mut entries), Err(SysError::IoError));
    assert_eq!(entries.len(), 3);

    let mut more = Vec::new();
    assert_eq!(dir.read_all(16, &buf, &mut more), Ok(true));
    assert_eq!(more.len(), 1);
    let mut more = Vec::new();
    assert_eq!(dir.read_all(17, &buf, &mut more), Ok(true));
    assert_eq!(more.len(), 2);
}

#[test]
fn read_all_stops_at_a_broken_record() {
    let dir = Dir::open("/apps", 4).unwrap();
    let mut buf = dirent(1, 16, 1, b"a");
    buf.extend(dirent(2, 5, 2, b"bb"));
    buf.extend(dirent(3, 13, 3, b"c"));
    let mut entries = Vec::new();
    assert_eq!(dir.read_all(buf.len() as isize, &buf, &mut entries), Ok(true));
    assert_eq!(entries.len(), 1);
}

#[test]
fn entries_are_pulled_one_by_one() {
    let mut rd = list_dir("/apps", 4).unwrap();
    assert_eq!(rd.dir().raw_handle(), 4);
    assert!(!rd.is_finished());
    assert!(rd.next_entry().is_none());

    let mut chunk = dirent(1, 16, 1, b"a");
    chunk.extend(dirent(2, 20, 2, b"bb"));
    assert!(rd.refill_buffer(chunk.len() as isize, &chunk));
    assert_eq!(rd.next_entry().unwrap().name(), "a");
    assert_eq!(rd.next_entry().unwrap().name(), "bb");
    assert!(rd.next_entry().is_none());
    assert!(!rd.is_finished());

    let chunk = dirent(3, 13, 1, b"c");
    assert!(rd.refill_buffer(13, &chunk));
    assert_eq!(rd.next_entry().unwrap().name(), "c");
    assert!(rd.next_entry().is_none());

    assert!(!rd.refill_buffer(0, &chunk));
    assert!(rd.is_finished());
    assert!(rd.next_entry().is_none());
    assert!(!rd.refill_buffer(13, &chunk));
    assert!(rd.next_entry().is_none());
}

#[test]
fn iterator_finishes_on_errors_and_on_false_counts() {
    let chunk = dirent(3, 13, 1, b"c");
    let mut rd = Dir::open("/", 4).unwrap().entries();
    assert!(!rd.refill_buffer(-18, &chunk));
    assert!(rd.is_finished());
    let mut rd = Dir::open("/", 4).unwrap().entries();
    assert!(!rd.refill_buffer(14, &chunk));
    assert!(rd.is_finished());
    let big = vec![0u8; 2000];
    let mut rd = Dir::open("/", 4).unwrap().entries();
    assert!(!rd.refill_buffer(1025, &big));
    let mut rd = Dir::open("/", 4).unwrap().entries();
    assert!(rd.refill_buffer(1024, &big));
    assert!(list_dir("/none", -6).is_err());
}
