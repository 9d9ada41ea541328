//! Shared memory regions.
//!
//! A region is named by a 64-bit identifier that means the same in every
//! process. Each process that opens it gets a mapping of its own: a base
//! address and a length, good for as long as the owning value lives.

use vstd::prelude::*;

use crate::syscall::error::{check_error, reply_of, SysResult};

verus! {

/// Identifier of a shared region.
#[derive(Debug, Clone, Copy, PartialEq, Eq, Structural)]
pub struct ShmId(pub u64);

/// A shared region mapped into this process.
#[derive(Debug, PartialEq, Eq)]
pub struct SharedMemory {
    id: ShmId,
    addr: usize,
    size: usize,
}

/// What a region is, as plain values.
pub struct SharedMemoryView {
    pub id: ShmId,
    pub addr: usize,
    pub size: usize,
}

impl View for SharedMemory {
    type V = SharedMemoryView;

    closed spec fn view(&self) -> SharedMemoryView {
        SharedMemoryView { id: self.id, addr: self.addr, size: self.size }
    }
}

/// What creating a region of `size` bytes gives, from the kernel's reply to
/// the allocation (the new identifier) and to the attachment (the base
/// address). The second reply counts only when the first is not an error.
pub open spec fn created(size: usize, id_reply: isize, attach_reply: isize) -> SysResult<
    SharedMemoryView,
> {
    match reply_of(id_reply) {
        Err(e) => Err(e),
        Ok(id) => match reply_of(attach_reply) {
            Err(e) => Err(e),
            Ok(addr) => Ok(SharedMemoryView { id: ShmId(id as u64), addr, size }),
        },
    }
}

/// What opening the region `id` gives, from the kernel's reply to the size
/// query and to the attachment. The second reply counts only when the
/// first is not an error.
pub open spec fn opened(id: ShmId, size_reply: isize, attach_reply: isize) -> SysResult<
    SharedMemoryView,
> {
    match reply_of(size_reply) {
        Err(e) => Err(e),
        Ok(size) => match reply_of(attach_reply) {
            Err(e) => Err(e),
            Ok(addr) => Ok(SharedMemoryView { id, addr, size }),
        },
    }
}

/// What attaching the region `id` of `size` bytes gives, from the kernel's
/// reply to the attachment: the mapping at the address replied, or the
/// error.
pub open spec fn attached(id: ShmId, size: usize, attach_reply: isize) -> SysResult<
    SharedMemoryView,
> {
    match reply_of(attach_reply) {
        Err(e) => Err(e),
        Ok(addr) => Ok(SharedMemoryView { id, addr, size }),
    }
}

impl SharedMemory {
    /// The region `id`, known to hold `size` bytes, as the kernel attached
    /// it.
    pub fn attach(id: ShmId, size: usize, attach_reply: isize) -> (r: SysResult<SharedMemory>)
        ensures
            r is Ok <==> attached(id, size, attach_reply) is Ok,
            r is Ok ==> r->Ok_0@ == attached(id, size, attach_reply)->Ok_0,
            r is Err ==> r->Err_0 == attached(id, size, attach_reply)->Err_0,
    {
        match check_error(attach_reply) {
            Ok(addr) => Ok(SharedMemory { id, addr, size }),
            Err(e) => Err(e),
        }
    }

    /// The region that the kernel allocated and attached. `id_reply` answers
    /// the allocation of `size` bytes, `attach_reply` the attachment; where
    /// the allocation failed no attachment is made and `attach_reply` is
    /// not read.
    pub fn create(size: usize, id_reply: isize, attach_reply: isize) -> (r: SysResult<
        SharedMemory,
    >)
        ensures
            r is Ok <==> created(size, id_reply, attach_reply) is Ok,
            r is Ok ==> r->Ok_0@ == created(size, id_reply, attach_reply)->Ok_0,
            r is Err ==> r->Err_0 == created(size, id_reply, attach_reply)->Err_0,
    {
        let id: usize = match check_error(id_reply) {
            Ok(id) => id,
            Err(e) => {
                return Err(e);
            },
        };
        match check_error(attach_reply) {
            Ok(addr) => Ok(SharedMemory { id: ShmId(id as u64), addr, size }),
            Err(e) => Err(e),
        }
    }

    /// The region `id` as the kernel attached it. `size_reply` answers the
    /// query for the region's size, which the opener need not know;
    /// `attach_reply` answers the attachment. Where the query failed no
    /// attachment is made and `attach_reply` is not read.
    pub fn open(id: ShmId, size_reply: isize, attach_reply: isize) -> (r: SysResult<
        SharedMemory,
    >)
        ensures
            r is Ok <==> opened(id, size_reply, attach_reply) is Ok,
            r is Ok ==> r->Ok_0@ == opened(id, size_reply, attach_reply)->Ok_0,
            r is Err ==> r->Err_0 == opened(id, size_reply, attach_reply)->Err_0,
    {
        let size: usize = match check_error(size_reply) {
            Ok(size) => size,
            Err(e) => {
                return Err(e);
            },
        };
        match check_error(attach_reply) {
            Ok(addr) => Ok(SharedMemory { id, addr, size }),
            Err(e) => Err(e),
        }
    }

    /// Identifier of the region.
    pub fn id(&self) -> (id: ShmId)
        ensures
            id == self@.id,
    {
        self.id
    }

    /// Base address of the mapping in this process.
    pub fn addr(&self) -> (addr: usize)
        ensures
            addr == self@.addr,
    {
        self.addr
    }

    /// Length of the mapping in bytes.
    pub fn size(&self) -> (size: usize)
        ensures
            size == self@.size,
    {
        self.size
    }
}

} // verus!
