//! Little-endian readers and writers for the multi-byte fields of the wire
//! format: 16-bit unsigned and two's-complement signed values, and the byte
//! splits the encoders use.

use vstd::prelude::*;

verus! {

/// The unsigned 16-bit value stored little-endian as the byte pair
/// `(lo, hi)`.
pub open spec fn le16_spec(lo: u8, hi: u8) -> u16 {
    (lo + hi * 256) as u16
}

/// The signed 16-bit value whose two's-complement image is `u`.
pub open spec fn i16_from_u16_spec(u: u16) -> i16 {
    if u < 0x8000 {
        u as i16
    } else {
        (u - 0x10000) as i16
    }
}

/// The two's-complement 16-bit image of `v`.
pub open spec fn u16_from_i16_spec(v: i16) -> u16 {
    if v >= 0 {
        v as u16
    } else {
        (v + 0x10000) as u16
    }
}

/// The signed 8-bit value whose two's-complement image is `u`.
pub open spec fn i8_from_u8_spec(u: u8) -> i8 {
    if u < 0x80 {
        u as i8
    } else {
        (u - 0x100) as i8
    }
}

/// The two's-complement 8-bit image of `v`.
pub open spec fn u8_from_i8_spec(v: i8) -> u8 {
    if v >= 0 {
        v as u8
    } else {
        (v + 0x100) as u8
    }
}

/// Read the unsigned 16-bit little-endian field at `off`.
pub fn read_u16_le(data: &[u8], off: usize) -> (r: u16)
    requires
        off + 2 <= data@.len(),
    ensures
        r == le16_spec(data@[off as int], data@[off + 1]),
{
    let lo = data[off] as u16;
    let hi = data[off + 1] as u16;
    lo + hi * 256
}

/// Read the signed 16-bit little-endian field at `off`.
pub fn read_i16_le(data: &[u8], off: usize) -> (r: i16)
    requires
        off + 2 <= data@.len(),
    ensures
        r == i16_from_u16_spec(le16_spec(data@[off as int], data@[off + 1])),
{
    let u = read_u16_le(data, off);
    if u < 0x8000 {
        u as i16
    } else {
        -((0xffffu16 - u) as i16) - 1
    }
}

/// The low byte of the little-endian image of `v`.
pub fn u16_lo(v: u16) -> (r: u8)
    ensures
        r == v % 256,
{
    (v % 256) as u8
}

/// The high byte of the little-endian image of `v`.
pub fn u16_hi(v: u16) -> (r: u8)
    ensures
        r == v / 256,
{
    (v / 256) as u8
}

/// The two's-complement 16-bit image of `v`, as the wire carries it.
pub fn u16_from_i16(v: i16) -> (r: u16)
    ensures
        r == u16_from_i16_spec(v),
{
    if v >= 0 {
        v as u16
    } else {
        0xffffu16 - ((-(v + 1)) as u16)
    }
}

/// The two's-complement 8-bit image of `v`, as the wire carries it.
pub fn u8_from_i8(v: i8) -> (r: u8)
    ensures
        r == u8_from_i8_spec(v),
{
    if v >= 0 {
        v as u8
    } else {
        0xffu8 - ((-(v + 1)) as u8)
    }
}

/// Read the signed 8-bit field at `off`.
pub fn read_i8(data: &[u8], off: usize) -> (r: i8)
    requires
        off < data@.len(),
    ensures
        r == i8_from_u8_spec(data@[off as int]),
{
    let u = data[off];
    if u < 0x80 {
        u as i8
    } else {
        -((0xffu8 - u) as i8) - 1
    }
}

/// Splitting a 16-bit value into its little-endian bytes and reading them
/// back yields the value again.
pub proof fn lemma_le16_round_trip(v: u16)
    ensures
        le16_spec((v % 256) as u8, (v / 256) as u8) == v,
{
}

/// The two's-complement images of 16-bit signed values round-trip.
pub proof fn lemma_i16_round_trip(v: i16)
    ensures
        i16_from_u16_spec(u16_from_i16_spec(v)) == v,
{
}

/// The two's-complement images of 8-bit signed values round-trip.
pub proof fn lemma_i8_round_trip(v: i8)
    ensures
        i8_from_u8_spec(u8_from_i8_spec(v)) == v,
{
}

} // verus!
