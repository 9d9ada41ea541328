//! Types shared by the file and directory operations.

use vstd::prelude::*;
use vstd::string::StringSliceAdditionalSpecFns;
use vstd::utf8::valid_utf8;

use crate::encoding::{le_u16, le_u64, read_u16, read_u64};
use crate::text::utf8_str;

verus! {

/// Open for reading only.
pub const O_RDONLY: u32 = 0;

/// Open for writing only.
pub const O_WRONLY: u32 = 1;

/// Open for reading and writing.
pub const O_RDWR: u32 = 2;

/// Create the file if it does not exist.
pub const O_CREATE: u32 = 0x0100;

/// Cut the file to length 0.
pub const O_TRUNC: u32 = 0x0200;

/// Write at the end.
pub const O_APPEND: u32 = 0x0400;

/// Fail if the file exists.
pub const O_EXCL: u32 = 0x0800;

/// Open a directory.
pub const O_DIRECTORY: u32 = 0x1000;

/// Flags of an open call. The two lowest bits are the access mode.
#[derive(Debug, Clone, Copy, PartialEq, Eq, Structural)]
pub struct OpenFlags(pub u32);

impl OpenFlags {
    /// The flags with the given bits.
    pub fn new(value: u32) -> (f: OpenFlags)
        ensures
            f.0 == value,
    {
        OpenFlags(value)
    }

    /// These flags and the bits of `other`.
    pub fn with(self, other: u32) -> (f: OpenFlags)
        ensures
            f.0 == self.0 | other,
    {
        OpenFlags(self.0 | other)
    }

    /// True unless the access mode is write-only.
    pub fn can_read(&self) -> (b: bool)
        ensures
            b == ((self.0 & 0x3) != O_WRONLY),
    {
        (self.0 & 0x3) != O_WRONLY
    }

    /// True unless the access mode is read-only.
    pub fn can_write(&self) -> (b: bool)
        ensures
            b == ((self.0 & 0x3) != O_RDONLY),
    {
        (self.0 & 0x3) != O_RDONLY
    }

    /// The raw bits.
    pub fn bits(&self) -> (bits: u32)
        ensures
            bits == self.0,
    {
        self.0
    }
}

/// Where a seek counts from.
#[derive(Debug, Clone, Copy, PartialEq, Eq, Structural)]
pub enum SeekFrom {
    /// From the start of the file.
    Start,
    /// From the current position.
    Current,
    /// From the end of the file.
    End,
}

impl SeekFrom {
    /// The number that the kernel knows the origin by.
    pub fn whence(self) -> (w: u32)
        ensures
            w == match self {
                SeekFrom::Start => 0u32,
                SeekFrom::Current => 1u32,
                SeekFrom::End => 2u32,
            },
    {
        match self {
            SeekFrom::Start => 0,
            SeekFrom::Current => 1,
            SeekFrom::End => 2,
        }
    }
}

/// Kind of a file.
#[derive(Debug, Clone, Copy, PartialEq, Eq, Structural)]
pub enum FileType {
    Unknown,
    Regular,
    Directory,
    Symlink,
    CharDevice,
    BlockDevice,
    Fifo,
    Socket,
}

/// The kind that a code stands for; codes without a kind are `Unknown`.
pub open spec fn file_type_of(value: u8) -> FileType {
    if value == 1 {
        FileType::Regular
    } else if value == 2 {
        FileType::Directory
    } else if value == 3 {
        FileType::Symlink
    } else if value == 4 {
        FileType::CharDevice
    } else if value == 5 {
        FileType::BlockDevice
    } else if value == 6 {
        FileType::Fifo
    } else if value == 7 {
        FileType::Socket
    } else {
        FileType::Unknown
    }
}

impl FileType {
    /// The kind that a code stands for.
    pub fn from_u8(value: u8) -> (t: FileType)
        ensures
            t == file_type_of(value),
    {
        match value {
            1 => FileType::Regular,
            2 => FileType::Directory,
            3 => FileType::Symlink,
            4 => FileType::CharDevice,
            5 => FileType::BlockDevice,
            6 => FileType::Fifo,
            7 => FileType::Socket,
            _ => FileType::Unknown,
        }
    }

    /// True for a regular file.
    pub fn is_file(&self) -> (b: bool)
        ensures
            b == (*self == FileType::Regular),
    {
        match self {
            FileType::Regular => true,
            _ => false,
        }
    }

    /// True for a directory.
    pub fn is_dir(&self) -> (b: bool)
        ensures
            b == (*self == FileType::Directory),
    {
        match self {
            FileType::Directory => true,
            _ => false,
        }
    }

    /// True for a symbolic link.
    pub fn is_symlink(&self) -> (b: bool)
        ensures
            b == (*self == FileType::Symlink),
    {
        match self {
            FileType::Symlink => true,
            _ => false,
        }
    }
}

/// What the kernel tells of a file. Times are milliseconds since the epoch.
#[derive(Debug, Clone, Copy, PartialEq, Eq, Structural)]
pub struct FileStat {
    /// Code of the file's kind.
    pub file_type: u8,
    /// Permission bits.
    pub mode: u16,
    pub _pad: u8,
    /// Size in bytes.
    pub size: u64,
    /// Number of hard links.
    pub nlink: u32,
    /// Owner.
    pub uid: u32,
    /// Group.
    pub gid: u32,
    pub _pad2: u32,
    /// Last access.
    pub atime: u64,
    /// Last change of the contents.
    pub mtime: u64,
    /// Creation.
    pub ctime: u64,
}

impl FileStat {
    /// Bytes of the record as the kernel lays it out.
    pub const SIZE: usize = 56;

    /// The record with every field 0.
    pub fn zeroed() -> (st: FileStat)
        ensures
            st == (FileStat {
                file_type: 0,
                mode: 0,
                _pad: 0,
                size: 0,
                nlink: 0,
                uid: 0,
                gid: 0,
                _pad2: 0,
                atime: 0,
                mtime: 0,
                ctime: 0,
            }),
    {
        FileStat {
            file_type: 0,
            mode: 0,
            _pad: 0,
            size: 0,
            nlink: 0,
            uid: 0,
            gid: 0,
            _pad2: 0,
            atime: 0,
            mtime: 0,
            ctime: 0,
        }
    }

    /// Kind of the file.
    pub fn file_type(&self) -> (t: FileType)
        ensures
            t == file_type_of(self.file_type),
    {
        FileType::from_u8(self.file_type)
    }

    /// True for a regular file.
    pub fn is_file(&self) -> (b: bool)
        ensures
            b == (self.file_type == 1),
    {
        self.file_type().is_file()
    }

    /// True for a directory.
    pub fn is_dir(&self) -> (b: bool)
        ensures
            b == (self.file_type == 2),
    {
        self.file_type().is_dir()
    }
}

impl Default for FileStat {
    fn default() -> (st: FileStat)
        ensures
            st == (FileStat {
                file_type: 0,
                mode: 0,
                _pad: 0,
                size: 0,
                nlink: 0,
                uid: 0,
                gid: 0,
                _pad2: 0,
                atime: 0,
                mtime: 0,
                ctime: 0,
            }),
    {
        FileStat::zeroed()
    }
}

/// What the kernel tells of a file, with each time as seconds since the
/// epoch and the nanoseconds of the second begun.
#[derive(Debug, Clone, Copy, PartialEq, Eq, Structural, Default)]
pub struct Stat {
    /// Kind and permission bits.
    pub mode: u32,
    /// Size in bytes.
    pub size: u64,
    /// Creation.
    pub ctime_sec: u64,
    pub ctime_nsec: u32,
    /// Last change of the contents.
    pub mtime_sec: u64,
    pub mtime_nsec: u32,
    /// Last access.
    pub atime_sec: u64,
    pub atime_nsec: u32,
    /// Number of hard links.
    pub nlink: u32,
    /// Device that holds the file.
    pub dev: u32,
    /// Number of the inode.
    pub ino: u64,
}

/// One entry of a directory.
#[derive(Debug, Clone)]
pub struct DirEntry {
    name: [u8; 256],
    name_len: u8,
    file_type: FileType,
    ino: u64,
}

/// An entry as plain values.
pub struct DirEntryView {
    /// The bytes of the name.
    pub name: Seq<u8>,
    pub file_type: FileType,
    /// Number of the inode; may be 0.
    pub ino: u64,
}

impl View for DirEntry {
    type V = DirEntryView;

    closed spec fn view(&self) -> DirEntryView {
        DirEntryView {
            name: self.name@.subrange(0, self.name_len as int),
            file_type: self.file_type,
            ino: self.ino,
        }
    }
}

/// Bytes of a record before its name: inode (8), record length (2), kind
/// (1), name length (1).
pub const DIRENT_HEADER: usize = 12;

/// The length that a record claims for itself.
pub open spec fn record_len(buf: Seq<u8>) -> int {
    le_u16(buf, 8)
}

/// True when `buf` starts with a whole record: it holds a header, the
/// record is no shorter than its header and no longer than the buffer, and
/// the name lies in the buffer.
pub open spec fn holds_record(buf: Seq<u8>) -> bool {
    &&& buf.len() >= 12
    &&& 12 <= record_len(buf) <= buf.len()
    &&& 12 + buf[11] <= buf.len()
}

/// The entry that the record at the start of `buf` describes.
pub open spec fn record_entry(buf: Seq<u8>) -> DirEntryView {
    DirEntryView {
        name: buf.subrange(12, 12 + buf[11]),
        file_type: file_type_of(buf[10]),
        ino: le_u64(buf, 0) as u64,
    }
}

impl DirEntry {
    /// An entry without a name, of unknown kind.
    pub fn empty() -> (e: DirEntry)
        ensures
            e@ == (DirEntryView { name: Seq::<u8>::empty(), file_type: FileType::Unknown, ino: 0 }),
    {
        let e = DirEntry { name: [0u8; 256], name_len: 0, file_type: FileType::Unknown, ino: 0 };
        assert(e.name@.subrange(0, 0) =~= Seq::<u8>::empty());
        e
    }

    /// The bytes of the name.
    pub fn name_bytes(&self) -> (n: &[u8])
        ensures
            n@ == self@.name,
    {
        vstd::slice::slice_subrange(self.name.as_slice(), 0, self.name_len as usize)
    }

    /// The name as text; empty when it is not valid UTF-8.
    pub fn name(&self) -> (n: &str)
        ensures
            valid_utf8(self@.name) ==> n.spec_bytes() == self@.name,
            !valid_utf8(self@.name) ==> n.spec_bytes() == Seq::<u8>::empty(),
    {
        match utf8_str(self.name_bytes()) {
            Some(n) => n,
            None => {
                proof {
                    reveal_strlit("");
                    assert("".spec_bytes() =~= Seq::<u8>::empty()) by {
                        assert(""@ =~= Seq::<char>::empty());
                        reveal_with_fuel(vstd::utf8::encode_utf8, 1);
                    }
                }
                ""
            },
        }
    }

    /// Kind of the entry.
    pub fn file_type(&self) -> (t: FileType)
        ensures
            t == self@.file_type,
    {
        self.file_type
    }

    /// True for a regular file.
    pub fn is_file(&self) -> (b: bool)
        ensures
            b == (self@.file_type == FileType::Regular),
    {
        self.file_type.is_file()
    }

    /// True for a directory.
    pub fn is_dir(&self) -> (b: bool)
        ensures
            b == (self@.file_type == FileType::Directory),
    {
        self.file_type.is_dir()
    }

    /// Number of the inode.
    pub fn ino(&self) -> (ino: u64)
        ensures
            ino == self@.ino,
    {
        self.ino
    }

    /// Reads the record at the start of `buf`, as the kernel writes them
    /// one after another: inode in bytes 0 to 7, record length in 8 and 9,
    /// kind in 10, name length in 11, then the name. Gives the entry and
    /// the record's length, which leads to the next record; nothing when
    /// `buf` does not start with a whole record.
    pub fn parse_from_buffer(buf: &[u8]) -> (r: Option<(DirEntry, usize)>)
        ensures
            r is Some <==> holds_record(buf@),
            r is Some ==> r->Some_0.0@ == record_entry(buf@) && r->Some_0.1 == record_len(buf@),
    {
        if buf.len() < 12 {
            return None;
        }
        let ino: u64 = read_u64(buf, 0);
        let rec_len: usize = read_u16(buf, 8) as usize;
        let file_type: FileType = FileType::from_u8(buf[10]);
        let short_len: u8 = buf[11];
        let name_len: usize = short_len as usize;
        if rec_len < 12 || buf.len() < rec_len || 12 + name_len > buf.len() {
            return None;
        }
        let mut name: [u8; 256] = [0u8; 256];
        let mut i: usize = 0;
        while i < name_len
            invariant
                i <= name_len,
                name_len <= 255,
                12 + name_len <= buf.len(),
                forall|k: int| 0 <= k < i ==> name@[k] == buf@[12 + k],
            decreases name_len - i,
        {
            name[i] = buf[12 + i];
            i = i + 1;
        }
        let entry = DirEntry { name, name_len: short_len, file_type, ino };
        assert(entry@.name =~= buf@.subrange(12, 12 + buf@[11]));
        Some((entry, rec_len))
    }
}

/// What the kernel tells of a filesystem.
#[derive(Debug, Clone, Copy, PartialEq, Eq, Structural)]
pub struct FsStat {
    /// Kind of the filesystem.
    pub fs_type: u32,
    /// Size of a block.
    pub block_size: u32,
    /// Number of blocks.
    pub total_blocks: u64,
    /// Number of free blocks.
    pub free_blocks: u64,
    /// Number of inodes.
    pub total_inodes: u64,
    /// Number of free inodes.
    pub free_inodes: u64,
    /// Longest name.
    pub max_name_len: u32,
    pub _pad: u32,
}

} // verus!
