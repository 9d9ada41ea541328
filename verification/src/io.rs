//! Handles to kernel resources and the rights attached to them.

use vstd::prelude::*;

verus! {

/// The raw value that no live handle has.
pub const INVALID_RAW: u32 = 0xFFFF_FFFF;

/// Right to read.
pub const RIGHT_READ: u64 = 0x1;

/// Right to write.
pub const RIGHT_WRITE: u64 = 0x2;

/// Right to execute.
pub const RIGHT_EXEC: u64 = 0x4;

/// Right to duplicate the handle.
pub const RIGHT_DUP: u64 = 0x100;

/// Right to close the handle.
pub const RIGHT_CLOSE: u64 = 0x400;

/// Right to move the cursor.
pub const RIGHT_SEEK: u64 = 0x1_0000_0000;

/// Right to query metadata.
pub const RIGHT_STAT: u64 = 0x2_0000_0000;

/// A handle to a kernel resource. The value means something only within the
/// process that owns it.
#[derive(Debug, Clone, Copy, PartialEq, Eq, Structural)]
pub struct Handle(pub u32);

impl Handle {
    /// The handle that stands for no resource.
    pub fn invalid() -> (h: Handle)
        ensures
            h.0 == INVALID_RAW,
    {
        Handle(INVALID_RAW)
    }

    /// Wraps a raw handle value.
    pub fn from_raw(raw: u32) -> (h: Handle)
        ensures
            h.0 == raw,
    {
        Handle(raw)
    }

    /// The raw handle value.
    pub fn raw(&self) -> (raw: u32)
        ensures
            raw == self.0,
    {
        self.0
    }

    /// True for every handle but `INVALID`.
    pub fn is_valid(&self) -> (b: bool)
        ensures
            b == (self.0 != INVALID_RAW),
    {
        self.0 != INVALID_RAW
    }
}

/// The set of rights of a handle, one bit each.
#[derive(Debug, Clone, Copy, PartialEq, Eq, Structural)]
pub struct HandleRights(pub u64);

impl HandleRights {
    /// The set with exactly the given bits.
    pub fn new(bits: u64) -> (r: HandleRights)
        ensures
            r.0 == bits,
    {
        HandleRights(bits)
    }

    /// The rights of either set.
    pub fn union(self, other: HandleRights) -> (r: HandleRights)
        ensures
            r.0 == self.0 | other.0,
    {
        HandleRights(self.0 | other.0)
    }

    /// True when every right of `other` is in `self`.
    pub fn contains(self, other: HandleRights) -> (b: bool)
        ensures
            b == ((self.0 & other.0) == other.0),
    {
        (self.0 & other.0) == other.0
    }

    /// The raw bits.
    pub fn bits(self) -> (bits: u64)
        ensures
            bits == self.0,
    {
        self.0
    }
}

/// A union contains both of its parts, and a set contains itself.
pub proof fn lemma_union_contains(a: HandleRights, b: HandleRights)
    ensures
        ((a.0 | b.0) & a.0) == a.0,
        ((a.0 | b.0) & b.0) == b.0,
        (a.0 & a.0) == a.0,
{
    let x = a.0;
    let y = b.0;
    assert(((x | y) & x) == x) by (bit_vector);
    assert(((x | y) & y) == y) by (bit_vector);
    assert((x & x) == x) by (bit_vector);
}

} // verus!
