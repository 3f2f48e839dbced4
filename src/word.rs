//! A 32-bit instruction word of the program image, addressed by byte in
//! big-endian order: byte 0 is the most significant one.
use vstd::prelude::*;

verus! {

/// Byte `idx` (0 = most significant) of `x`.
pub open spec fn byte_of(x: u32, idx: u8) -> u8 {
    ((x >> (24 - 8 * idx) as u32) & 0xff) as u8
}

/// `x` with byte `idx` (0 = most significant) replaced by `v`.
pub open spec fn with_byte_of(x: u32, idx: u8, v: u8) -> u32 {
    let sh = (24 - 8 * idx) as u32;
    (x & !((0xffu32) << sh)) | ((v as u32) << sh)
}

/// A 32-bit word whose bytes are numbered from the most significant one.
#[derive(Copy, Clone)]
pub struct U32Be(pub u32);

impl U32Be {
    /// Wraps a value that is already in native order.
    pub fn from_ne(src: u32) -> (r: Self)
        ensures
            r.0 == src,
    {
        U32Be(src)
    }

    /// Wraps a value with its four bytes reversed: a word read from
    /// big-endian data into a little-endian integer.
    pub fn from_be(src: u32) -> (r: Self)
        ensures
            r.0 == swap32(src),
    {
        U32Be(swap_bytes32(src))
    }

    pub fn whole(self) -> (r: u32)
        ensures
            r == self.0,
    {
        self.0
    }

    /// The low half (the "high" word in the format's own terms).
    pub fn hi(self) -> (r: u16)
        ensures
            r == self.0 as u16,
    {
        self.0 as u16
    }

    /// The low half, signed.
    pub fn hi_signed(self) -> (r: i16)
        ensures
            r == self.0 as i16,
    {
        self.0 as i16
    }

    /// Byte `idx`, counted from the most significant one.
    pub fn byte(self, idx: u8) -> (r: u8)
        requires
            idx < 4,
        ensures
            r == byte_of(self.0, idx),
    {
        let sh: u32 = (24 - 8 * idx) as u32;
        ((self.0 >> sh) & 0xff) as u8
    }

    /// Replaces byte `idx`, counted from the most significant one.
    pub fn set_byte(&mut self, idx: u8, v: u8)
        requires
            idx < 4,
        ensures
            final(self).0 == with_byte_of(old(self).0, idx, v),
    {
        let sh: u32 = (24 - 8 * idx) as u32;
        self.0 = (self.0 & !((0xffu32) << sh)) | ((v as u32) << sh);
    }
}

/// `x` with its four bytes in reverse order.
pub open spec fn swap32(x: u32) -> u32 {
    ((x & 0xff) << 24) | (((x >> 8) & 0xff) << 16) | (((x >> 16) & 0xff) << 8) | (x >> 24)
}

fn swap_bytes32(x: u32) -> (r: u32)
    ensures
        r == swap32(x),
{
    ((x & 0xff) << 24) | (((x >> 8) & 0xff) << 16) | (((x >> 16) & 0xff) << 8) | (x >> 24)
}

/// The value of the four bytes `a b c d` read as a big-endian number.
pub open spec fn be32(a: u8, b: u8, c: u8, d: u8) -> u32 {
    (a as int * 0x100_0000 + b as int * 0x1_0000 + c as int * 0x100 + d as int) as u32
}

/// The value of the two bytes `a b` read as a big-endian number.
pub open spec fn be16(a: u8, b: u8) -> u16 {
    (a as int * 0x100 + b as int) as u16
}

/// Reads the big-endian 32-bit number at `bytes[at..at + 4]`.
pub fn read_be32(bytes: &[u8], at: usize) -> (r: u32)
    requires
        at + 4 <= bytes@.len(),
    ensures
        r == be32(bytes@[at as int], bytes@[at + 1], bytes@[at + 2], bytes@[at + 3]),
{
    let a = bytes[at];
    let b = bytes[at + 1];
    let c = bytes[at + 2];
    let d = bytes[at + 3];
    let r = ((a as u32) << 24) | ((b as u32) << 16) | ((c as u32) << 8) | (d as u32);
    assert(r == (a as u32) * 0x100_0000 + (b as u32) * 0x1_0000 + (c as u32) * 0x100 + (d as u32))
        by (bit_vector)
        requires
            r == ((a as u32) << 24) | ((b as u32) << 16) | ((c as u32) << 8) | (d as u32),
    ;
    r
}

/// Reads the big-endian 16-bit number at `bytes[at..at + 2]`.
pub fn read_be16(bytes: &[u8], at: usize) -> (r: u16)
    requires
        at + 2 <= bytes@.len(),
    ensures
        r == be16(bytes@[at as int], bytes@[at + 1]),
{
    let a = bytes[at];
    let b = bytes[at + 1];
    let r = ((a as u16) << 8) | (b as u16);
    assert(r == (a as u16) * 0x100 + (b as u16)) by (bit_vector)
        requires
            r == ((a as u16) << 8) | (b as u16),
    ;
    r
}

} // verus!
