//! Open directories and their entries.
//!
//! The kernel writes the entries of a directory into a buffer as records,
//! one after another. `Dir::read_all` takes such a buffer apart; `ReadDir`
//! hands out one entry at a time and asks for the next buffer when it has
//! used one up.

use vstd::prelude::*;
use vstd::string::StringSliceAdditionalSpecFns;

use crate::fs::types::{holds_record, record_entry, record_len, DirEntry, DirEntryView};
use crate::io::Handle;
use crate::syscall::error::{check_error, error_of, reply_of, SysError, SysResult};
use crate::text::fixed_field;

verus! {

/// Longest path that a `Dir` remembers.
pub const DIR_PATH_MAX: usize = 255;

/// Bytes that a `ReadDir` asks for at a time.
pub const READ_DIR_BUFFER: usize = 1024;

/// An open directory.
#[derive(Debug)]
pub struct Dir {
    handle: Handle,
    path: [u8; 256],
    path_len: u8,
}

/// A directory as plain values.
pub struct DirView {
    pub handle: Handle,
    /// The path it was opened by, cut to `DIR_PATH_MAX` bytes.
    pub path: Seq<u8>,
}

impl View for Dir {
    type V = DirView;

    closed spec fn view(&self) -> DirView {
        DirView { handle: self.handle, path: self.path@.subrange(0, self.path_len as int) }
    }
}

/// The first `n` bytes of `s`, or all of it when it is shorter.
pub open spec fn cut(s: Seq<u8>, n: int) -> Seq<u8> {
    if s.len() <= n {
        s
    } else {
        s.subrange(0, n)
    }
}

/// The entries in `buf` from `offset` on, of which the kernel said that
/// `bytes` bytes are filled: records are read one after another while they
/// start before `bytes` and are whole.
pub open spec fn records_from(buf: Seq<u8>, offset: int, bytes: int) -> Seq<DirEntryView>
    decreases buf.len() - offset,
{
    if 0 <= offset < bytes && offset <= buf.len() && holds_record(
        buf.subrange(offset, buf.len() as int),
    ) {
        seq![record_entry(buf.subrange(offset, buf.len() as int))] + records_from(
            buf,
            offset + record_len(buf.subrange(offset, buf.len() as int)),
            bytes,
        )
    } else {
        Seq::<DirEntryView>::empty()
    }
}

/// The views of a list of entries.
pub open spec fn entry_views(entries: Seq<DirEntry>) -> Seq<DirEntryView> {
    entries.map_values(|e: DirEntry| e@)
}

impl Dir {
    /// The directory that an open call for `path` gave; the handle is the
    /// low 32 bits of the reply.
    pub fn open(path: &str, reply: isize) -> (r: SysResult<Dir>)
        ensures
            reply < 0 ==> r is Err && r->Err_0 == error_of(reply),
            reply >= 0 ==> r is Ok && r->Ok_0@ == (DirView {
                handle: Handle((reply as usize) as u32),
                path: cut(path.spec_bytes(), 255),
            }),
    {
        let v: usize = match check_error(reply) {
            Ok(v) => v,
            Err(e) => {
                return Err(e);
            },
        };
        let bytes: &[u8] = path.as_bytes();
        let path_len: u8 = if bytes.len() < 255 {
            bytes.len() as u8
        } else {
            255
        };
        let dir = Dir {
            handle: Handle::from_raw(#[verifier::truncate] (v as u32)),
            path: fixed_field::<256>(bytes),
            path_len,
        };
        assert(dir@.path =~= cut(path.spec_bytes(), 255));
        Ok(dir)
    }

    /// The handle of the directory.
    pub fn handle(&self) -> (h: &Handle)
        ensures
            *h == self@.handle,
    {
        &self.handle
    }

    /// The raw value of the handle.
    pub fn raw_handle(&self) -> (raw: u32)
        ensures
            raw == self@.handle.0,
    {
        self.handle.raw()
    }

    /// The path that the directory was opened by, cut to `DIR_PATH_MAX`
    /// bytes.
    pub fn path_bytes(&self) -> (p: &[u8])
        ensures
            p@ == self@.path,
    {
        vstd::slice::slice_subrange(self.path.as_slice(), 0, self.path_len as usize)
    }

    /// The number of bytes that the kernel wrote into the buffer, 0 when no
    /// entry is left.
    pub fn read_raw(&self, reply: isize) -> (r: SysResult<usize>)
        ensures
            r == reply_of(reply),
    {
        check_error(reply)
    }

    /// An iterator over the entries.
    pub fn entries(self) -> (rd: ReadDir)
        ensures
            rd@ == (ReadDirView { dir: self@, pending: Seq::<u8>::empty(), finished: false }),
    {
        ReadDir::new(self)
    }

    /// One step of reading all entries. `reply` answers a read into `buf`.
    /// The entries found in `buf` are added to `entries`. Gives `true`
    /// when another read is to follow, `false` when the kernel has no more
    /// entries.
    pub fn read_all(&self, reply: isize, buf: &[u8], entries: &mut Vec<DirEntry>) -> (r:
        SysResult<bool>)
        ensures
            reply < 0 ==> r == Err::<bool, SysError>(error_of(reply)) && *final(entries) == *old(
                entries,
            ),
            reply >= 0 ==> r == Ok::<bool, SysError>(reply != 0) && entry_views(final(entries)@)
                == entry_views(old(entries)@) + records_from(buf@, 0, reply as int),
    {
        let bytes: usize = match check_error(reply) {
            Ok(bytes) => bytes,
            Err(e) => {
                return Err(e);
            },
        };
        let mut offset: usize = 0;
        assert(entry_views(entries@) + records_from(buf@, 0, bytes as int) =~= entry_views(
            old(entries)@,
        ) + records_from(buf@, 0, bytes as int));
        while offset < bytes && offset <= buf.len()
            invariant
                reply >= 0,
                bytes as int == reply as int,
                entry_views(entries@) + records_from(buf@, offset as int, bytes as int)
                    == entry_views(old(entries)@) + records_from(buf@, 0, bytes as int),
            decreases buf.len() - offset,
        {
            let rest: &[u8] = vstd::slice::slice_subrange(buf, offset, buf.len());
            match DirEntry::parse_from_buffer(rest) {
                Some((entry, rec_len)) => {
                    let ghost before = entries@;
                    entries.push(entry);
                    assert(entry_views(entries@) =~= entry_views(before).push(entry@));
                    assert(entry_views(before).push(entry@) + records_from(
                        buf@,
                        offset + rec_len,
                        bytes as int,
                    ) =~= entry_views(before) + records_from(buf@, offset as int, bytes as int));
                    offset = offset + rec_len;
                },
                None => {
                    assert(records_from(buf@, offset as int, bytes as int) =~= Seq::<
                        DirEntryView,
                    >::empty());
                    assert(entry_views(entries@) =~= entry_views(old(entries)@) + records_from(
                        buf@,
                        0,
                        bytes as int,
                    ));
                    return Ok(bytes != 0);
                },
            }
        }
        assert(records_from(buf@, offset as int, bytes as int) =~= Seq::<DirEntryView>::empty());
        assert(entry_views(entries@) =~= entry_views(old(entries)@) + records_from(
            buf@,
            0,
            bytes as int,
        ));
        Ok(bytes != 0)
    }
}

/// An iterator over the entries of a directory.
#[derive(Debug)]
pub struct ReadDir {
    dir: Dir,
    buffer: [u8; 1024],
    buffer_len: usize,
    buffer_offset: usize,
    finished: bool,
}

/// An iterator as plain values.
pub struct ReadDirView {
    pub dir: DirView,
    /// The bytes of the current buffer that were not read yet.
    pub pending: Seq<u8>,
    /// True when the kernel has no more entries, or failed.
    pub finished: bool,
}

impl View for ReadDir {
    type V = ReadDirView;

    closed spec fn view(&self) -> ReadDirView {
        ReadDirView {
            dir: self.dir@,
            pending: self.buffer@.subrange(self.buffer_offset as int, self.buffer_len as int),
            finished: self.finished,
        }
    }
}

impl ReadDir {
    #[verifier::type_invariant]
    closed spec fn inv(self) -> bool {
        self.buffer_offset <= self.buffer_len <= 1024
    }

    fn new(dir: Dir) -> (rd: ReadDir)
        ensures
            rd@ == (ReadDirView { dir: dir@, pending: Seq::<u8>::empty(), finished: false }),
    {
        let rd = ReadDir {
            dir,
            buffer: [0u8; 1024],
            buffer_len: 0,
            buffer_offset: 0,
            finished: false,
        };
        assert(rd@.pending =~= Seq::<u8>::empty());
        rd
    }

    /// The directory that is read.
    pub fn dir(&self) -> (d: &Dir)
        ensures
            d@ == self@.dir,
    {
        &self.dir
    }

    /// True when no further buffer is to be asked for.
    pub fn is_finished(&self) -> (b: bool)
        ensures
            b == self@.finished,
    {
        self.finished
    }

    /// The next entry of the current buffer; nothing when the buffer is
    /// used up or what is left of it is no whole record. It is then time
    /// for `refill_buffer`, unless the iterator is finished.
    pub fn next_entry(&mut self) -> (r: Option<DirEntry>)
        ensures
            final(self)@.dir == old(self)@.dir,
            final(self)@.finished == old(self)@.finished,
            holds_record(old(self)@.pending) ==> r is Some && r->Some_0@ == record_entry(
                old(self)@.pending,
            ) && final(self)@.pending == old(self)@.pending.subrange(
                record_len(old(self)@.pending),
                old(self)@.pending.len() as int,
            ),
            !holds_record(old(self)@.pending) ==> r is None && final(self)@.pending == old(
                self,
            )@.pending,
    {
        proof {
            use_type_invariant(&*self);
        }
        if self.buffer_offset >= self.buffer_len {
            return None;
        }
        let remaining: &[u8] = vstd::slice::slice_subrange(
            self.buffer.as_slice(),
            self.buffer_offset,
            self.buffer_len,
        );
        match DirEntry::parse_from_buffer(remaining) {
            Some((entry, rec_len)) => {
                self.buffer_offset = self.buffer_offset + rec_len;
                assert(self@.pending =~= old(self)@.pending.subrange(
                    rec_len as int,
                    old(self)@.pending.len() as int,
                ));
                Some(entry)
            },
            None => None,
        }
    }

    /// Takes the kernel's reply to a read of at most `READ_DIR_BUFFER`
    /// bytes into `chunk`. Gives `true` when entries came, which then are
    /// the pending bytes; `false`, and finishes the iterator, when the
    /// kernel has no more, failed, or claims more bytes than were asked
    /// for or handed over. A finished iterator stays as it is.
    pub fn refill_buffer(&mut self, reply: isize, chunk: &[u8]) -> (more: bool)
        ensures
            final(self)@.dir == old(self)@.dir,
            more == refills(old(self)@.finished, reply, chunk@),
            more ==> !final(self)@.finished && final(self)@.pending == chunk@.subrange(
                0,
                reply as int,
            ),
            !more ==> final(self)@.finished && final(self)@.pending == old(self)@.pending,
    {
        proof {
            use_type_invariant(&*self);
        }
        if self.finished {
            return false;
        }
        let bytes: usize = match check_error(reply) {
            Ok(bytes) => bytes,
            Err(_) => 0,
        };
        if bytes == 0 || bytes > 1024 || bytes > chunk.len() {
            self.finished = true;
            return false;
        }
        let mut i: usize = 0;
        while i < bytes
            invariant
                i <= bytes <= 1024,
                bytes <= chunk.len(),
                self.dir == old(self).dir,
                self.finished == old(self).finished,
                self.buffer_len == old(self).buffer_len,
                self.buffer_offset == old(self).buffer_offset,
                self.buffer_offset <= self.buffer_len <= 1024,
                forall|k: int| 0 <= k < i ==> self.buffer@[k] == chunk@[k],
            decreases bytes - i,
        {
            self.buffer[i] = chunk[i];
            i = i + 1;
        }
        self.buffer_offset = 0;
        self.buffer_len = bytes;
        assert(self@.pending =~= chunk@.subrange(0, reply as int));
        true
    }
}

/// True when a refill brings entries: the iterator was not finished, and
/// the kernel wrote at least one byte and no more than were asked for and
/// handed over.
pub open spec fn refills(finished: bool, reply: isize, chunk: Seq<u8>) -> bool {
    !finished && 0 < reply <= 1024 && reply <= chunk.len()
}

/// The entries of the directory that an open call for `path` gave.
pub fn list_dir(path: &str, reply: isize) -> (r: SysResult<ReadDir>)
    ensures
        reply < 0 ==> r is Err && r->Err_0 == error_of(reply),
        reply >= 0 ==> r is Ok && r->Ok_0@ == (ReadDirView {
            dir: DirView {
                handle: Handle((reply as usize) as u32),
                path: cut(path.spec_bytes(), 255),
            },
            pending: Seq::<u8>::empty(),
            finished: false,
        }),
{
    match Dir::open(path, reply) {
        Ok(dir) => Ok(dir.entries()),
        Err(e) => Err(e),
    }
}

} // verus!
