//! Little-endian numbers and copies of byte strings.

use vstd::prelude::*;

verus! {

/// The two bytes of `x`, least significant first.
pub open spec fn le16(x: u16) -> Seq<u8> {
    seq![(x % 256) as u8, (x / 256) as u8]
}

/// The four bytes of `x`, least significant first.
pub open spec fn le32(x: u32) -> Seq<u8> {
    seq![
        (x % 256) as u8,
        (x / 256 % 256) as u8,
        (x / 65536 % 256) as u8,
        (x / 16777216) as u8,
    ]
}

/// Appends the two bytes of `x` to `out`, least significant first.
pub fn append_le16(out: &mut Vec<u8>, x: u16)
    ensures
        final(out)@ == old(out)@ + le16(x),
{
    out.push((x % 256) as u8);
    out.push((x / 256) as u8);
    assert(out@ =~= old(out)@ + le16(x));
}

/// Appends the four bytes of `x` to `out`, least significant first.
pub fn append_le32(out: &mut Vec<u8>, x: u32)
    ensures
        final(out)@ == old(out)@ + le32(x),
{
    out.push((x % 256) as u8);
    out.push((x / 256 % 256) as u8);
    out.push((x / 65536 % 256) as u8);
    out.push((x / 16777216) as u8);
    assert(out@ =~= old(out)@ + le32(x));
}

/// A copy of `bytes`.
pub fn copy_of(bytes: &[u8]) -> (copy: Vec<u8>)
    ensures
        copy@ == bytes@,
{
    let mut copy: Vec<u8> = Vec::new();
    copy.extend_from_slice(bytes);
    assert(copy@ =~= bytes@);
    copy
}

/// A string of `len` zero bytes.
pub fn zeros(len: usize) -> (bytes: Vec<u8>)
    ensures
        bytes@ == Seq::new(len as nat, |i: int| 0u8),
{
    let bytes = vec![0u8; len];
    assert(bytes@ =~= Seq::new(len as nat, |i: int| 0u8));
    bytes
}

/// Each bit of a byte, by division.
pub proof fn bits_by_division(b: u8)
    by (bit_vector)
    ensures
        b & 0x01 != 0 <==> b % 2 == 1,
        b & 0x02 != 0 <==> b / 2 % 2 == 1,
        b & 0x04 != 0 <==> b / 4 % 2 == 1,
        b & 0x08 != 0 <==> b / 8 % 2 == 1,
        b & 0x10 != 0 <==> b / 16 % 2 == 1,
        b & 0x20 != 0 <==> b / 32 % 2 == 1,
        b & 0x40 != 0 <==> b / 64 % 2 == 1,
        b & 0x80 != 0 <==> b / 128 == 1,
{
}

/// The low-order bits of a byte, and its high-order half, by division.
pub proof fn masks_by_division(b: u8)
    by (bit_vector)
    ensures
        b & 0x03 == b % 4,
        b & 0x07 == b % 8,
        b & 0x0F == b % 16,
        b & 0x7F == b % 128,
        b & 0x0C == b / 4 % 4 * 4,
        b & 0xF0 == b / 16 * 16,
        b >> 4 == b / 16,
{
}

/// The bytes of a number add up to it, each worth 256 times the one before it.
pub proof fn bytes_add_up(x: u16, y: u32)
    ensures
        le16(x).len() == 2,
        x == le16(x)[0] + 256 * le16(x)[1],
        le32(y).len() == 4,
        y == le32(y)[0] + 256 * le32(y)[1] + 65536 * le32(y)[2] + 16777216 * le32(y)[3],
{
}

} // verus!
