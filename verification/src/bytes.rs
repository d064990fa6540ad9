//! Little-endian decoding of device record bytes.
//!
//! The NuttX drivers hand records to user space as raw structure bytes.
//! These helpers read the fixed-width fields out of such a record; the spec
//! functions say exactly which value each field holds.

use vstd::prelude::*;

verus! {

/// The 16-bit value stored little-endian at offset `i` of `b`.
pub open spec fn le16(b: Seq<u8>, i: int) -> u16
    recommends
        0 <= i,
        i + 2 <= b.len(),
{
    (b[i] + b[i + 1] * 0x100) as u16
}

/// The 32-bit value stored little-endian at offset `i` of `b`.
pub open spec fn le32(b: Seq<u8>, i: int) -> u32
    recommends
        0 <= i,
        i + 4 <= b.len(),
{
    (b[i] + b[i + 1] * 0x100 + b[i + 2] * 0x1_0000 + b[i + 3] * 0x100_0000) as u32
}

/// The 64-bit value stored little-endian at offset `i` of `b`.
pub open spec fn le64(b: Seq<u8>, i: int) -> u64
    recommends
        0 <= i,
        i + 8 <= b.len(),
{
    (le32(b, i) + le32(b, i + 4) * 0x1_0000_0000) as u64
}

/// Reads the little-endian 16-bit field at offset `i` of `buf`.
pub fn read_u16_le(buf: &Vec<u8>, i: usize) -> (r: u16)
    requires
        i + 2 <= buf.len(),
    ensures
        r == le16(buf@, i as int),
{
    let lo: u16 = buf[i] as u16;
    let hi: u16 = buf[i + 1] as u16;
    lo + hi * 0x100
}

/// Reads the little-endian 32-bit field at offset `i` of `buf`.
pub fn read_u32_le(buf: &Vec<u8>, i: usize) -> (r: u32)
    requires
        i + 4 <= buf.len(),
    ensures
        r == le32(buf@, i as int),
{
    let b0: u32 = buf[i] as u32;
    let b1: u32 = buf[i + 1] as u32;
    let b2: u32 = buf[i + 2] as u32;
    let b3: u32 = buf[i + 3] as u32;
    b0 + b1 * 0x100 + b2 * 0x1_0000 + b3 * 0x100_0000
}

/// Reads the little-endian 64-bit field at offset `i` of `buf`.
pub fn read_u64_le(buf: &Vec<u8>, i: usize) -> (r: u64)
    requires
        i + 8 <= buf.len(),
    ensures
        r == le64(buf@, i as int),
{
    let lo: u32 = read_u32_le(buf, i);
    let hi: u32 = read_u32_le(buf, i + 4);
    lo as u64 + hi as u64 * 0x1_0000_0000
}

} // verus!
