//! Little-endian 32-bit words, as the target stores them in memory.

use byteorder::ByteOrder;
use byteorder::LittleEndian;
use vstd::prelude::*;

verus! {

/// The 32-bit value whose little-endian encoding is the first four bytes of
/// `bytes`: the first byte is the least significant.
pub open spec fn le_u32(bytes: Seq<u8>) -> u32
    recommends
        bytes.len() >= 4,
{
    (bytes[0] as int + 0x100 * (bytes[1] as int) + 0x1_0000 * (bytes[2] as int) + 0x100_0000 * (
    bytes[3] as int)) as u32
}

/// The four bytes that encode `value`, least significant first.
pub open spec fn le_bytes(value: u32) -> Seq<u8> {
    seq![
        (value % 0x100) as u8,
        (value / 0x100 % 0x100) as u8,
        (value / 0x1_0000 % 0x100) as u8,
        (value / 0x100_0000) as u8,
    ]
}

/// The `index`-th little-endian word of `bytes`.
pub open spec fn word_at(bytes: Seq<u8>, index: int) -> u32
    recommends
        0 <= index,
        4 * index + 4 <= bytes.len(),
{
    le_u32(bytes.subrange(4 * index, 4 * index + 4))
}

/// Decoding undoes encoding.
pub proof fn lemma_le_round_trip(value: u32)
    ensures
        le_bytes(value).len() == 4,
        le_u32(le_bytes(value)) == value,
{
}

/// Calls `byteorder::LittleEndian::read_u32`, which decodes the first four
/// bytes of `buf` as a little-endian word and panics on a shorter buffer.
#[verifier::external_body]
pub(crate) fn read_u32(buf: &[u8]) -> (value: u32)
    requires
        buf@.len() >= 4,
    ensures
        value == le_u32(buf@),
{
    LittleEndian::read_u32(buf)
}

/// Calls `byteorder::LittleEndian::write_u32` on a fresh four-byte buffer,
/// which it fills with the little-endian encoding of `value`.
#[verifier::external_body]
pub(crate) fn write_u32(value: u32) -> (bytes: Vec<u8>)
    ensures
        bytes@ == le_bytes(value),
{
    let mut buf = vec![0u8; 4];
    LittleEndian::write_u32(&mut buf, value);
    buf
}

/// Reads the `index`-th little-endian word of `data`.
pub fn read_word(data: &[u8], index: usize) -> (value: u32)
    requires
        4 * index + 4 <= data@.len(),
    ensures
        value == word_at(data@, index as int),
{
    let len: usize = data.len();
    assert(4 * index + 4 <= len);
    let start: usize = 4 * index;
    read_u32(&data[start..start + 4])
}

/// Encodes `value` as four little-endian bytes.
pub fn word_bytes(value: u32) -> (bytes: Vec<u8>)
    ensures
        bytes@ == le_bytes(value),
{
    write_u32(value)
}

} // verus!
