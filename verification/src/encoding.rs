//! Little-endian integers in byte strings.
//!
//! Every fixed-layout record of this crate is built from the functions
//! here. The value of a field is stated arithmetically, byte by byte, so
//! that reading back what was written is plain arithmetic.

use vstd::prelude::*;

verus! {

/// The 16-bit number whose little-endian bytes start at `at`.
pub open spec fn le_u16(s: Seq<u8>, at: int) -> int {
    s[at] as int + 256 * (s[at + 1] as int)
}

/// The 32-bit number whose little-endian bytes start at `at`.
pub open spec fn le_u32(s: Seq<u8>, at: int) -> int {
    s[at] as int + 256 * (s[at + 1] as int) + 65536 * (s[at + 2] as int) + 16777216 * (s[at
        + 3] as int)
}

/// The 64-bit number whose little-endian bytes start at `at`.
pub open spec fn le_u64(s: Seq<u8>, at: int) -> int {
    le_u32(s, at) + 4294967296 * le_u32(s, at + 4)
}

/// The four little-endian bytes of a 32-bit number.
pub open spec fn u32_le(x: u32) -> Seq<u8> {
    seq![
        (x % 256) as u8,
        ((x / 256) % 256) as u8,
        ((x / 65536) % 256) as u8,
        ((x / 16777216) % 256) as u8,
    ]
}

/// The eight little-endian bytes of a 64-bit number.
pub open spec fn u64_le(x: u64) -> Seq<u8> {
    u32_le((x % 4294967296) as u32) + u32_le((x / 4294967296) as u32)
}

/// A signed 32-bit number as the unsigned number with the same bits.
pub open spec fn i32_bits(x: i32) -> u32 {
    if x >= 0 {
        x as u32
    } else {
        (x + 4294967296) as u32
    }
}

/// The signed 32-bit number with the bits of an unsigned one.
pub open spec fn bits_i32(x: u32) -> i32 {
    if x < 2147483648 {
        x as i32
    } else {
        (x - 4294967296) as i32
    }
}

/// Reads a 16-bit little-endian number.
pub fn read_u16(bytes: &[u8], at: usize) -> (v: u16)
    requires
        at + 2 <= bytes.len(),
    ensures
        v == le_u16(bytes@, at as int),
{
    let b0: u16 = bytes[at] as u16;
    let b1: u16 = bytes[at + 1] as u16;
    b0 + 256 * b1
}

/// Reads a 32-bit little-endian number.
pub fn read_u32(bytes: &[u8], at: usize) -> (v: u32)
    requires
        at + 4 <= bytes.len(),
    ensures
        v == le_u32(bytes@, at as int),
{
    let b0: u32 = bytes[at] as u32;
    let b1: u32 = bytes[at + 1] as u32;
    let b2: u32 = bytes[at + 2] as u32;
    let b3: u32 = bytes[at + 3] as u32;
    b0 + 256 * b1 + 65536 * b2 + 16777216 * b3
}

/// Reads a 64-bit little-endian number.
pub fn read_u64(bytes: &[u8], at: usize) -> (v: u64)
    requires
        at + 8 <= bytes.len(),
    ensures
        v == le_u64(bytes@, at as int),
{
    let low: u64 = read_u32(bytes, at) as u64;
    let high: u64 = read_u32(bytes, at + 4) as u64;
    low + 4294967296 * high
}

/// Appends the four little-endian bytes of `v`.
pub fn push_u32(out: &mut Vec<u8>, v: u32)
    ensures
        final(out)@ == old(out)@ + u32_le(v),
{
    out.push((v % 256) as u8);
    out.push(((v / 256) % 256) as u8);
    out.push(((v / 65536) % 256) as u8);
    out.push(((v / 16777216) % 256) as u8);
    assert(out@ =~= old(out)@ + u32_le(v));
}

/// Appends the eight little-endian bytes of `v`.
pub fn push_u64(out: &mut Vec<u8>, v: u64)
    ensures
        final(out)@ == old(out)@ + u64_le(v),
{
    push_u32(out, (v % 4294967296) as u32);
    push_u32(out, (v / 4294967296) as u32);
    assert(out@ =~= old(out)@ + u64_le(v));
}

/// Appends a copy of `src`.
pub fn push_bytes(out: &mut Vec<u8>, src: &[u8])
    ensures
        final(out)@ == old(out)@ + src@,
{
    let mut i: usize = 0;
    while i < src.len()
        invariant
            i <= src.len(),
            out@ == old(out)@ + src@.subrange(0, i as int),
        decreases src.len() - i,
    {
        out.push(src[i]);
        i = i + 1;
        assert(out@ =~= old(out)@ + src@.subrange(0, i as int));
    }
    assert(src@.subrange(0, src@.len() as int) =~= src@);
}

/// Copies the `N` bytes that start at `at` into an array.
pub fn read_array<const N: usize>(bytes: &[u8], at: usize) -> (a: [u8; N])
    requires
        at + N <= bytes.len(),
    ensures
        a@ == bytes@.subrange(at as int, at + N),
{
    let mut a: [u8; N] = [0u8; N];
    let mut i: usize = 0;
    while i < N
        invariant
            i <= N,
            at + N <= bytes.len(),
            forall|k: int| 0 <= k < i ==> a@[k] == bytes@[at + k],
        decreases N - i,
    {
        a[i] = bytes[at + i];
        i = i + 1;
    }
    assert(a@ =~= bytes@.subrange(at as int, at + N));
    a
}

/// The unsigned number with the bits of `x`.
pub fn i32_to_bits(x: i32) -> (v: u32)
    ensures
        v == i32_bits(x),
{
    if x >= 0 {
        x as u32
    } else {
        (x as i64 + 4294967296) as u32
    }
}

/// The signed number with the bits of `x`.
pub fn i32_from_bits(x: u32) -> (v: i32)
    ensures
        v == bits_i32(x),
{
    if x < 2147483648 {
        x as i32
    } else {
        (x as i64 - 4294967296) as i32
    }
}

/// Four bytes written by `u32_le` read back as the number written, wherever
/// they stand in a longer string.
pub proof fn lemma_u32_round_trip(before: Seq<u8>, x: u32, after: Seq<u8>)
    ensures
        u32_le(x).len() == 4,
        le_u32(before + u32_le(x) + after, before.len() as int) == x,
{
    let s = before + u32_le(x) + after;
    let at = before.len() as int;
    assert(s[at] == u32_le(x)[0]);
    assert(s[at + 1] == u32_le(x)[1]);
    assert(s[at + 2] == u32_le(x)[2]);
    assert(s[at + 3] == u32_le(x)[3]);
}

/// Eight bytes written by `u64_le` read back as the number written,
/// wherever they stand in a longer string.
pub proof fn lemma_u64_round_trip(before: Seq<u8>, x: u64, after: Seq<u8>)
    ensures
        u64_le(x).len() == 8,
        le_u64(before + u64_le(x) + after, before.len() as int) == x,
{
    let low = (x % 4294967296) as u32;
    let high = (x / 4294967296) as u32;
    let s = before + u64_le(x) + after;
    lemma_u32_round_trip(before, low, u32_le(high) + after);
    lemma_u32_round_trip(before + u32_le(low), high, after);
    assert(s =~= before + u32_le(low) + (u32_le(high) + after));
    assert(s =~= (before + u32_le(low)) + u32_le(high) + after);
}

/// Signed and unsigned readings of the same bits are inverse to each other.
pub proof fn lemma_i32_bits_round_trip(x: i32, y: u32)
    ensures
        bits_i32(i32_bits(x)) == x,
        i32_bits(bits_i32(y)) == y,
{
}

} // verus!
