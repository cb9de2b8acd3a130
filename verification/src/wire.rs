//! Fixed-endianness integer codecs and bit-field extraction, the leaf
//! primitives every protocol header is encoded with.
//!
//! The integer byte order is the network (big-endian) order, and bit indices
//! count from the least significant bit, as the underlying field-encoder
//! crates define them.

use vstd::prelude::*;

use bit_field::BitField;
use byteorder::{ByteOrder, NetworkEndian};

verus! {

/// The high byte of a 16-bit value.
pub open spec fn u16_hi(value: u16) -> u8 {
    (value >> 8) as u8
}

/// The low byte of a 16-bit value.
pub open spec fn u16_lo(value: u16) -> u8 {
    (value & 0xff) as u8
}

/// The big-endian (network order) byte encoding of a 16-bit value.
pub open spec fn u16_be_bytes(value: u16) -> Seq<u8> {
    seq![u16_hi(value), u16_lo(value)]
}

/// The big-endian (network order) byte encoding of a 32-bit value.
pub open spec fn u32_be_bytes(value: u32) -> Seq<u8> {
    seq![
        (value >> 24) as u8,
        ((value >> 16) & 0xff) as u8,
        ((value >> 8) & 0xff) as u8,
        (value & 0xff) as u8,
    ]
}

/// The 16-bit value whose big-endian encoding is `[b0, b1]`.
pub open spec fn u16_from_be(b0: u8, b1: u8) -> u16 {
    ((b0 as u16) << 8) | (b1 as u16)
}

/// The 16-bit value stored big-endian at `pos` in `data`.
pub open spec fn read_u16_at(data: Seq<u8>, pos: int) -> u16
    recommends
        0 <= pos,
        pos + 2 <= data.len(),
{
    u16_from_be(data[pos], data[pos + 1])
}

/// Decoding the two bytes of a 16-bit value restores it.
pub proof fn lemma_u16_be_round_trip(value: u16)
    ensures
        u16_from_be(u16_hi(value), u16_lo(value)) == value,
{
    assert(((((value >> 8) as u8) as u16) << 8) | (((value & 0xff) as u8) as u16) == value)
        by (bit_vector);
}

/// Relies on byteorder's `NetworkEndian::write_u16`: the value's bytes in
/// big-endian order, high byte first.
#[verifier::external_body]
pub(crate) fn be_u16_vec(value: u16) -> (r: Vec<u8>)
    ensures
        r@ == u16_be_bytes(value),
{
    let mut buf = vec![0u8, 0u8];
    NetworkEndian::write_u16(&mut buf, value);
    buf
}

/// Relies on byteorder's `NetworkEndian::write_u32`: the value's bytes in
/// big-endian order, high byte first.
#[verifier::external_body]
pub(crate) fn be_u32_vec(value: u32) -> (r: Vec<u8>)
    ensures
        r@ == u32_be_bytes(value),
{
    let mut buf = vec![0u8, 0u8, 0u8, 0u8];
    NetworkEndian::write_u32(&mut buf, value);
    buf
}

/// Relies on byteorder's `NetworkEndian::read_u16`: the first two bytes read
/// in big-endian order. It panics on fewer than two bytes, so that case is
/// excluded.
#[verifier::external_body]
pub(crate) fn be_read_u16(bytes: &[u8]) -> (r: u16)
    requires
        bytes@.len() >= 2,
    ensures
        r == u16_from_be(bytes@[0], bytes@[1]),
{
    NetworkEndian::read_u16(bytes)
}

/// Relies on bit_field's `u16::get_bit`: whether the bit at `bit` (counting
/// from the least significant) is set. It panics when `bit >= 16`, so that
/// case is excluded.
#[verifier::external_body]
pub(crate) fn u16_get_bit(value: u16, bit: usize) -> (r: bool)
    requires
        bit < 16,
    ensures
        r == ((value & (1u16 << (bit as u16))) != 0),
{
    value.get_bit(bit)
}

/// Relies on bit_field's `u16::get_bits`: the bits in `[start, end)` shifted
/// down to the least significant position, obtained by shifting the high and
/// then the low bits away. It panics on an index past 16 bits, so those cases
/// are excluded.
#[verifier::external_body]
pub(crate) fn u16_get_bits(value: u16, start: usize, end: usize) -> (r: u16)
    requires
        start < 16,
        end <= 16,
        start <= end,
    ensures
        r == (if start == end {
            0u16
        } else {
            ((value << ((16 - end) as u16)) >> ((16 - end) as u16)) >> (start as u16)
        }),
{
    value.get_bits(start..end)
}

/// Relies on `core::str::from_utf8`: `Ok` exactly when the bytes are valid
/// UTF-8, and then the returned text is those same bytes seen as a string.
#[verifier::external_body]
pub(crate) fn utf8_str(bytes: &[u8]) -> (r: Option<&str>)
    ensures
        match r {
            Some(s) => vstd::utf8::valid_utf8(bytes@) && vstd::utf8::encode_utf8(s@) == bytes@,
            None => !vstd::utf8::valid_utf8(bytes@),
        },
{
    match core::str::from_utf8(bytes) {
        Ok(s) => Some(s),
        Err(_) => None,
    }
}

} // verus!
