//! Memory: allocation and mapping of pages, and alignment.

use vstd::prelude::*;

use crate::syscall::error::{check_done, check_error, done_of, reply_of, SysResult};

verus! {

/// Allocation flag: the pages are zeroed.
pub const ALLOC_ZEROED: u32 = 0x1;

/// Allocation flag: a guard page follows.
pub const ALLOC_GUARD: u32 = 0x2;

/// Mapping flag: readable.
pub const MAP_READ: u32 = 0x01;

/// Mapping flag: writable.
pub const MAP_WRITE: u32 = 0x02;

/// Mapping flag: executable.
pub const MAP_EXEC: u32 = 0x04;

/// Mapping flag: shared with other processes.
pub const MAP_SHARED: u32 = 0x08;

/// Mapping flag: private to this process.
pub const MAP_PRIVATE: u32 = 0x10;

/// Mapping flag: at the address given, or not at all.
pub const MAP_FIXED: u32 = 0x20;

/// The flags of an allocation for plain data: readable and writable.
pub const ALLOC_RW: u32 = 0x3;

/// The base address of the pages that the kernel allocated.
pub fn alloc_pages(reply: isize) -> (r: SysResult<usize>)
    ensures
        r == reply_of(reply),
{
    check_error(reply)
}

/// The base address of the pages that the kernel allocated for plain data,
/// with the flags `ALLOC_RW`.
pub fn alloc_rw(reply: isize) -> (r: SysResult<usize>)
    ensures
        r == reply_of(reply),
{
    alloc_pages(reply)
}

/// What giving pages back came to.
pub fn free(reply: isize) -> (r: SysResult<()>)
    ensures
        r == done_of(reply),
{
    check_done(reply)
}

/// The address at which the kernel mapped an object.
pub fn map(reply: isize) -> (r: SysResult<usize>)
    ensures
        r == reply_of(reply),
{
    check_error(reply)
}

/// What removing a mapping came to.
pub fn unmap(reply: isize) -> (r: SysResult<()>)
    ensures
        r == done_of(reply),
{
    check_done(reply)
}

/// `addr` rounded up with the mask of `align`.
pub open spec fn aligned_up(addr: usize, align: usize) -> usize {
    ((addr + align - 1) as usize) & !((align - 1) as usize)
}

/// True for the powers of two: the numbers with exactly one bit.
pub open spec fn power_of_two(align: usize) -> bool {
    align > 0 && align & ((align - 1) as usize) == 0
}

/// `addr` rounded up to the next multiple of `align`, which is a power of
/// two: the least multiple of `align` that is not below `addr`. For any
/// other `align` the result is what the mask of `align` leaves of
/// `addr + align - 1`.
pub fn align_up(addr: usize, align: usize) -> (r: usize)
    requires
        align > 0,
        addr + align - 1 <= usize::MAX,
    ensures
        r == aligned_up(addr, align),
        power_of_two(align) ==> r % align == 0 && addr <= r < addr + align,
{
    let mask: usize = align - 1;
    let top: usize = addr + mask;
    let r: usize = top & !mask;
    proof {
        if power_of_two(align) {
            lemma_align_up(addr, align, mask, top, r);
        }
    }
    r
}

/// The bits of a number below a power of two are its remainder by the
/// power.
pub proof fn lemma_mask_is_remainder(x: usize, align: usize)
    requires
        power_of_two(align),
    ensures
        x & ((align - 1) as usize) == x % align,
    decreases align,
{
    let mask = (align - 1) as usize;
    if align == 1 {
        assert(x & 0usize == 0) by (bit_vector);
    } else {
        let half = align >> 1usize;
        let half_mask = (half - 1) as usize;
        let rest = x >> 1usize;
        assert(half > 0 && half & half_mask == 0 && align == 2 * half && rest == x / 2 && x & 1usize
            == x % 2 && x & mask == 2 * (rest & half_mask) + (x & 1usize)) by (bit_vector)
            requires
                align > 1,
                align & mask == 0,
                mask == (align - 1) as usize,
                half == align >> 1usize,
                half_mask == (half - 1) as usize,
                rest == x >> 1usize,
        ;
        lemma_mask_is_remainder(rest, half);
        vstd::arithmetic::div_mod::lemma_breakdown(x as int, 2, half as int);
    }
}

/// For a power of two, rounding up with the mask gives a multiple of the
/// power that is not below the address and less than the power above it.
proof fn lemma_align_up(addr: usize, align: usize, mask: usize, top: usize, r: usize)
    requires
        power_of_two(align),
        mask == align - 1,
        top == addr + mask,
        r == top & !mask,
    ensures
        r % align == 0,
        addr <= r < addr + align,
{
    assert(r & mask == 0 && r <= top && top - r <= mask) by (bit_vector)
        requires
            r == top & !mask,
    ;
    lemma_mask_is_remainder(r, align);
}

} // verus!
