use redpowder::fs::types::{
    DirEntry, FileStat, FileType, FsStat, OpenFlags, SeekFrom, Stat, DIRENT_HEADER, O_APPEND, O_CREATE,
    O_DIRECTORY, O_EXCL, O_RDONLY, O_RDWR, O_TRUNC, O_WRONLY,
};

fn record(ino: u64, rec_len: u16, kind: u8, name: &[u8]) -> Vec<u8> {
    let mut out = Vec::new();
    out.extend_from_slice(&ino.to_le_bytes());
    out.extend_from_slice(&rec_len.to_le_bytes());
    out.push(kind);
    out.push(name.len() as u8);
    out.extend_from_slice(name);
    out
}

#[test]
fn open_flags_know_their_access_mode() {
    assert!(OpenFlags::new(O_RDONLY).can_read());
    assert!(!OpenFlags::new(O_RDONLY).can_write());
    assert!(!OpenFlags::new(O_WRONLY).can_read());
    assert!(OpenFlags::new(O_WRONLY).can_write());
    assert!(OpenFlags::new(O_RDWR).can_read());
    assert!(OpenFlags::new(O_RDWR).can_write());
    assert!(OpenFlags::new(O_WRONLY | O_CREATE | O_TRUNC).can_write());
    assert!(!OpenFlags::new(O_WRONLY | O_CREATE | O_TRUNC).can_read());
    assert!(OpenFlags::new(3).can_read());
    assert!(OpenFlags::new(3).can_write());
}

#[test]
fn open_flags_combine() {
    let flags = OpenFlags::new(O_WRONLY).with(O_CREATE).with(O_APPEND);
    assert_eq!(flags.bits(), 0x0501);
    assert_eq!(flags, OpenFlags(0x0501));
    assert_eq!(OpenFlags::new(O_EXCL).with(O_DIRECTORY).bits(), 0x1800);
    assert_eq!(OpenFlags::new(7).with(0).bits(), 7);
}

#[test]
fn seek_origins_have_their_numbers() {
    assert_eq!(SeekFrom::Start.whence(), 0);
    assert_eq!(SeekFrom::Current.whence(), 1);
    assert_eq!(SeekFrom::End.whence(), 2);
}

#[test]
fn file_types_come_from_their_codes() {
    assert_eq!(FileType::from_u8(0), FileType::Unknown);
    assert_eq!(FileType::from_u8(1), FileType::Regular);
    assert_eq!(FileType::from_u8(2), FileType::Directory);
    assert_eq!(FileType::from_u8(3), FileType::Symlink);
    assert_eq!(FileType::from_u8(4), FileType::CharDevice);
    assert_eq!(FileType::from_u8(5), FileType::BlockDevice);
    assert_eq!(FileType::from_u8(6), FileType::Fifo);
    assert_eq!(FileType::from_u8(7), FileType::Socket);
    assert_eq!(FileType::from_u8(8), FileType::Unknown);
    assert_eq!(FileType::from_u8(255), FileType::Unknown);
    assert!(FileType::Regular.is_file());
    assert!(!FileType::Regular.is_dir());
    assert!(FileType::Directory.is_dir());
    assert!(!FileType::Directory.is_file());
    assert!(FileType::Symlink.is_symlink());
    assert!(!FileType::Fifo.is_symlink());
}

#[test]
fn file_stat_tells_the_kind() {
    let zero = FileStat::zeroed();
    assert_eq!(zero, FileStat::default());
    assert_eq!(zero.size, 0);
    assert_eq!(zero.file_type(), FileType::Unknown);
    assert!(!zero.is_file());
    assert!(!zero.is_dir());
    let file = FileStat { file_type: 1, size: 99, ..zero };
    assert!(file.is_file());
    assert!(!file.is_dir());
    let dir = FileStat { file_type: 2, ..zero };
    assert!(dir.is_dir());
    assert_eq!(dir.file_type(), FileType::Directory);
    assert_eq!(FileStat::SIZE, 56);
    let fs = FsStat {
        fs_type: 1,
        block_size: 4096,
        total_blocks: 10,
        free_blocks: 5,
        total_inodes: 3,
        free_inodes: 2,
        max_name_len: 255,
        _pad: 0,
    };
    assert_eq!(fs.block_size, 4096);
}

#[test]
fn empty_entry_has_no_name() {
    let entry = DirEntry::empty();
    assert_eq!(entry.name(), "");
    assert_eq!(entry.name_bytes(), b"");
    assert_eq!(entry.file_type(), FileType::Unknown);
    assert_eq!(entry.ino(), 0);
    assert!(!entry.is_file());
    assert!(!entry.is_dir());
}

#[test]
fn entry_is_parsed_from_a_record() {
    assert_eq!(DIRENT_HEADER, 12);
    let mut buf = record(0x0102_0304_0506_0708, 24, 1, b"hello.txt");
    buf.resize(24, 0);
    buf.extend_from_slice(&record(9, 15, 2, b"sub"));
    let (entry, len) = DirEntry::parse_from_buffer(&buf).unwrap();
    assert_eq!(len, 24);
    assert_eq!(entry.name(), "hello.txt");
    assert_eq!(entry.ino(), 0x0102_0304_0506_0708);
    assert_eq!(entry.file_type(), FileType::Regular);
    assert!(entry.is_file());
    let (next, len) = DirEntry::parse_from_buffer(&buf[24..]).unwrap();
    assert_eq!(len, 15);
    assert_eq!(next.name(), "sub");
    assert!(next.is_dir());
    assert_eq!(next.ino(), 9);
}

#[test]
fn entry_needs_a_whole_record() {
    let whole = record(1, 16, 1, b"abcd");
    assert!(DirEntry::parse_from_buffer(&whole).is_some());
    for len in 0..12 {
        assert!(DirEntry::parse_from_buffer(&whole[..len]).is_none());
    }
    assert!(DirEntry::parse_from_buffer(&whole[..15]).is_none());
    assert!(DirEntry::parse_from_buffer(&record(1, 11, 1, b"abcd")).is_none());
    assert!(DirEntry::parse_from_buffer(&record(1, 0, 1, b"")).is_none());
    assert!(DirEntry::parse_from_buffer(&record(1, 17, 1, b"abcd")).is_none());
    let mut cut = record(1, 12, 1, b"");
    cut[11] = 200;
    assert!(DirEntry::parse_from_buffer(&cut).is_none());
}

#[test]
fn entry_may_have_the_longest_name() {
    let name = [b'n'; 255];
    let buf = record(5, 267, 7, &name);
    let (entry, len) = DirEntry::parse_from_buffer(&buf).unwrap();
    assert_eq!(len, 267);
    assert_eq!(entry.name_bytes(), &name[..]);
    assert_eq!(entry.file_type(), FileType::Socket);
}

#[test]
fn entry_name_that_is_no_text_reads_as_empty() {
    let buf = record(5, 14, 1, &[0xFF, 0xFE]);
    let (entry, _) = DirEntry::parse_from_buffer(&buf).unwrap();
    assert_eq!(entry.name(), "");
    assert_eq!(entry.name_bytes(), &[0xFF, 0xFE]);
    let buf = record(5, 15, 1, "día".as_bytes());
    let (entry, _) = DirEntry::parse_from_buffer(&buf).unwrap();
    assert_eq!(entry.name(), "día");
}

#[test]
fn stat_record_starts_empty() {
    let st = Stat::default();
    assert_eq!((st.mode, st.size, st.ino, st.nlink), (0, 0, 0, 0));
    let filled = Stat { size: 12, mtime_sec: 3, mtime_nsec: 500, ..st };
    assert_eq!((filled.size, filled.mtime_sec, filled.mtime_nsec), (12, 3, 500));
}
