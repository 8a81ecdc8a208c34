//! Fixed-width integers read out of byte buffers.
//!
//! Big-endian (network order) reads go through the `byteorder` crate, as the
//! rest of the daemon does; little-endian netlink header fields are assembled
//! from their bytes directly.
use vstd::prelude::*;
use byteorder::{ByteOrder, NetworkEndian};

verus! {

/// Big-endian value of the two bytes at `i`.
pub open spec fn be_u16_at(s: Seq<u8>, i: int) -> int {
    s[i] as int * 0x100 + s[i + 1] as int
}

/// Big-endian value of the four bytes at `i`.
pub open spec fn be_u32_at(s: Seq<u8>, i: int) -> int {
    be_u16_at(s, i) * 0x10000 + be_u16_at(s, i + 2)
}

/// Big-endian value of the eight bytes at `i`.
pub open spec fn be_u64_at(s: Seq<u8>, i: int) -> int {
    be_u32_at(s, i) * 0x1_0000_0000 + be_u32_at(s, i + 4)
}

/// Little-endian value of the two bytes at `i`.
pub open spec fn le_u16_at(s: Seq<u8>, i: int) -> int {
    s[i] as int + s[i + 1] as int * 0x100
}

/// Little-endian value of the four bytes at `i`.
pub open spec fn le_u32_at(s: Seq<u8>, i: int) -> int {
    le_u16_at(s, i) + le_u16_at(s, i + 2) * 0x10000
}

/// `byteorder`'s `NetworkEndian::read_u16`: the big-endian value of the
/// first two bytes of `buf`. The crate panics on a shorter buffer, hence the
/// precondition.
#[verifier::external_body]
pub(crate) fn read_be_u16(buf: &[u8]) -> (r: u16)
    requires
        buf@.len() >= 2,
    ensures
        r == be_u16_at(buf@, 0),
{
    NetworkEndian::read_u16(buf)
}

/// `byteorder`'s `NetworkEndian::read_u32`: the big-endian value of the
/// first four bytes of `buf`; the crate panics on a shorter buffer.
#[verifier::external_body]
pub(crate) fn read_be_u32(buf: &[u8]) -> (r: u32)
    requires
        buf@.len() >= 4,
    ensures
        r == be_u32_at(buf@, 0),
{
    NetworkEndian::read_u32(buf)
}

/// `byteorder`'s `NetworkEndian::read_u64`: the big-endian value of the
/// first eight bytes of `buf`; the crate panics on a shorter buffer.
#[verifier::external_body]
pub(crate) fn read_be_u64(buf: &[u8]) -> (r: u64)
    requires
        buf@.len() >= 8,
    ensures
        r == be_u64_at(buf@, 0),
{
    NetworkEndian::read_u64(buf)
}

/// Little-endian `u16` at offset `i` (as `u16::from_le_bytes` would give).
pub fn read_le_u16(s: &[u8], i: usize) -> (r: u16)
    requires
        i + 2 <= s@.len(),
    ensures
        r == le_u16_at(s@, i as int),
{
    let b0 = s[i] as u16;
    let b1 = s[i + 1] as u16;
    b0 + b1 * 0x100
}

/// Little-endian `u32` at offset `i` (as `u32::from_le_bytes` would give).
pub fn read_le_u32(s: &[u8], i: usize) -> (r: u32)
    requires
        i + 4 <= s@.len(),
    ensures
        r == le_u32_at(s@, i as int),
{
    let len = s.len();
    assert(i + 2 < len);
    let lo = read_le_u16(s, i) as u32;
    let hi = read_le_u16(s, i + 2) as u32;
    lo + hi * 0x10000
}

} // verus!
