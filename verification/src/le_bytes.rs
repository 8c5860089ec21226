//! Little-endian integer reads over byte buffers.

use vstd::prelude::*;

verus! {

/// Unsigned value of the two bytes at `off`, least significant first.
pub open spec fn le_u16(s: Seq<u8>, off: int) -> int {
    s[off] + s[off + 1] * 0x100
}

/// Unsigned value of the eight bytes at `off`, least significant first.
pub open spec fn le_u64(s: Seq<u8>, off: int) -> int {
    s[off] + s[off + 1] * 0x100 + s[off + 2] * 0x1_0000 + s[off + 3] * 0x100_0000
        + s[off + 4] * 0x1_0000_0000 + s[off + 5] * 0x100_0000_0000
        + s[off + 6] * 0x1_0000_0000_0000 + s[off + 7] * 0x100_0000_0000_0000
}

/// Two's-complement signed value of the eight bytes at `off`.
pub open spec fn le_i64(s: Seq<u8>, off: int) -> int {
    let u = le_u64(s, off);
    if u < 0x8000_0000_0000_0000 {
        u
    } else {
        u - 0x1_0000_0000_0000_0000
    }
}

/// Reads a little-endian `u16` from `data[offset..offset + 2]`.
pub fn read_u16_le(data: &[u8], offset: usize) -> (v: u16)
    requires
        offset + 2 <= data@.len(),
    ensures
        v == le_u16(data@, offset as int),
{
    let b0 = data[offset] as u16;
    let b1 = data[offset + 1] as u16;
    b0 + b1 * 0x100
}

/// Reads a little-endian `u64` from `data[offset..offset + 8]`.
///
/// Also used for the packet's IEEE-754 fields, which the library keeps as
/// their raw bit pattern.
pub fn read_u64_le(data: &[u8], offset: usize) -> (v: u64)
    requires
        offset + 8 <= data@.len(),
    ensures
        v == le_u64(data@, offset as int),
{
    let b0 = data[offset] as u64;
    let b1 = data[offset + 1] as u64;
    let b2 = data[offset + 2] as u64;
    let b3 = data[offset + 3] as u64;
    let b4 = data[offset + 4] as u64;
    let b5 = data[offset + 5] as u64;
    let b6 = data[offset + 6] as u64;
    let b7 = data[offset + 7] as u64;
    b0 + b1 * 0x100 + b2 * 0x1_0000 + b3 * 0x100_0000 + b4 * 0x1_0000_0000 + b5 * 0x100_0000_0000
        + b6 * 0x1_0000_0000_0000 + b7 * 0x100_0000_0000_0000
}

/// Reads a little-endian two's-complement `i64` from `data[offset..offset + 8]`.
pub fn read_i64_le(data: &[u8], offset: usize) -> (v: i64)
    requires
        offset + 8 <= data@.len(),
    ensures
        v == le_i64(data@, offset as int),
{
    let u = read_u64_le(data, offset);
    if u < 0x8000_0000_0000_0000 {
        u as i64
    } else {
        let below: u64 = u64::MAX - u;
        -(below as i64) - 1
    }
}

} // verus!
