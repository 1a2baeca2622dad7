//! Little-endian integer reads on byte buffers, shared by every frame format.
use vstd::prelude::*;

verus! {

/// Whether bit `i` of `x` is set.
pub open spec fn bit_u16(x: u16, i: u16) -> bool {
    (x >> i) & 1u16 == 1u16
}

/// Whether bit `i` of `x` is set.
pub open spec fn bit_u8(x: u8, i: u8) -> bool {
    (x >> i) & 1u8 == 1u8
}

/// The unsigned 16-bit integer stored little-endian at `s[i]`, `s[i + 1]`.
pub open spec fn le_u16(s: Seq<u8>, i: int) -> u16 {
    (s[i] as int + 256 * s[i + 1] as int) as u16
}

/// The signed 16-bit integer stored little-endian (two's complement) at `s[i]`, `s[i + 1]`.
pub open spec fn le_i16(s: Seq<u8>, i: int) -> i16 {
    le_u16(s, i) as i16
}

/// The unsigned 24-bit integer stored little-endian at `s[i] .. s[i + 3]`.
pub open spec fn le_u24(s: Seq<u8>, i: int) -> u32 {
    (s[i] as int + 256 * s[i + 1] as int + 65536 * s[i + 2] as int) as u32
}

/// The unsigned 32-bit integer stored little-endian at `s[i] .. s[i + 4]`.
pub open spec fn le_u32(s: Seq<u8>, i: int) -> u32 {
    (s[i] as int + 256 * s[i + 1] as int + 65536 * s[i + 2] as int + 16777216 * s[i
        + 3] as int) as u32
}

/// Reads a little-endian `u16` at offset `i`.
pub fn read_u16_le(b: &[u8], i: usize) -> (r: u16)
    requires
        i + 2 <= b@.len(),
    ensures
        r == le_u16(b@, i as int),
{
    b[i] as u16 + (b[i + 1] as u16) * 256
}

/// Reads a little-endian `i16` at offset `i`.
pub fn read_i16_le(b: &[u8], i: usize) -> (r: i16)
    requires
        i + 2 <= b@.len(),
    ensures
        r == le_i16(b@, i as int),
{
    read_u16_le(b, i) as i16
}

/// Reads a little-endian `u32` at offset `i`.
pub fn read_u32_le(b: &[u8], i: usize) -> (r: u32)
    requires
        i + 4 <= b@.len(),
    ensures
        r == le_u32(b@, i as int),
{
    b[i] as u32 + (b[i + 1] as u32) * 256 + (b[i + 2] as u32) * 65536 + (b[i + 3] as u32)
        * 16777216
}

/// The [`U24`] made of the three bytes at offset `i`.
pub open spec fn u24_at(s: Seq<u8>, i: int) -> U24 {
    U24([s[i], s[i + 1], s[i + 2]])
}

/// Unsigned integer consisting of 3 bytes, least significant first.
#[derive(Copy, Clone, Debug, PartialEq, Eq)]
pub struct U24(pub [u8; 3]);

impl U24 {
    /// The number that the three bytes stand for.
    pub open spec fn value(self) -> u32 {
        le_u24(self.0@, 0)
    }

    /// Reads three bytes at offset `i`.
    pub fn read(b: &[u8], i: usize) -> (r: U24)
        requires
            i + 3 <= b@.len(),
        ensures
            r == u24_at(b@, i as int),
            r.value() == le_u24(b@, i as int),
    {
        U24([b[i], b[i + 1], b[i + 2]])
    }

    /// Get the number as [`u32`].
    pub fn as_u32(&self) -> (r: u32)
        ensures
            r == self.value(),
    {
        self.0[0] as u32 + (self.0[1] as u32) * 256 + (self.0[2] as u32) * 65536
    }
}

} // verus!
