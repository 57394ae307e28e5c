//! CRC-32 (IEEE 802.3, reflected) over byte sequences.

use vstd::prelude::*;

verus! {

/// The reflected form of the IEEE 802.3 generator polynomial.
pub const POLYNOMIAL: u32 = 0xEDB8_8320;

/// One step of the shift register: shift right by one bit and fold the
/// polynomial in when the bit shifted out was set.
pub open spec fn shift_bit(reg: u32) -> u32 {
    if reg & 1 == 1 {
        (reg >> 1) ^ POLYNOMIAL
    } else {
        reg >> 1
    }
}

/// `n` steps of the shift register.
pub open spec fn shift_bits(reg: u32, n: nat) -> u32
    decreases n,
{
    if n == 0 {
        reg
    } else {
        shift_bit(shift_bits(reg, (n - 1) as nat))
    }
}

/// The register after one more message byte has been fed in.
pub open spec fn feed_byte(reg: u32, byte: u8) -> u32 {
    shift_bits(reg ^ (byte as u32), 8)
}

/// The register after all of `data` has been fed in, starting from all ones.
pub open spec fn feed(data: Seq<u8>) -> u32
    decreases data.len(),
{
    if data.len() == 0 {
        0xFFFF_FFFFu32
    } else {
        feed_byte(feed(data.drop_last()), data.last())
    }
}

/// The CRC-32 checksum of `data`: the final register, inverted.
pub open spec fn checksum(data: Seq<u8>) -> u32 {
    feed(data) ^ 0xFFFF_FFFFu32
}

fn crc32_byte(reg: u32, byte: u8) -> (out: u32)
    ensures
        out == feed_byte(reg, byte),
{
    let mut cur: u32 = reg ^ (byte as u32);
    let mut k: u32 = 0;
    while k < 8
        invariant
            k <= 8,
            cur == shift_bits(reg ^ (byte as u32), k as nat),
        decreases 8 - k,
    {
        if cur & 1 == 1 {
            cur = (cur >> 1) ^ POLYNOMIAL;
        } else {
            cur = cur >> 1;
        }
        k = k + 1;
    }
    cur
}

/// Computes the CRC-32 checksum of `data`.
pub fn crc32(data: &[u8]) -> (sum: u32)
    ensures
        sum == checksum(data@),
{
    let mut reg: u32 = 0xFFFF_FFFF;
    let mut i: usize = 0;
    while i < data.len()
        invariant
            i <= data.len(),
            reg == feed(data@.take(i as int)),
        decreases data.len() - i,
    {
        assert(data@.take(i + 1).drop_last() == data@.take(i as int));
        reg = crc32_byte(reg, data[i]);
        i = i + 1;
    }
    assert(data@.take(i as int) == data@);
    reg ^ 0xFFFF_FFFF
}

proof fn lemma_shift_bit_injective(a: u32, b: u32)
    requires
        shift_bit(a) == shift_bit(b),
    ensures
        a == b,
{
    assert((if a & 1 == 1 {
        (a >> 1) ^ 0xEDB8_8320u32
    } else {
        a >> 1
    }) == (if b & 1 == 1 {
        (b >> 1) ^ 0xEDB8_8320u32
    } else {
        b >> 1
    }) ==> a == b) by (bit_vector);
}

proof fn lemma_shift_bits_injective(a: u32, b: u32, n: nat)
    requires
        shift_bits(a, n) == shift_bits(b, n),
    ensures
        a == b,
    decreases n,
{
    if n > 0 {
        lemma_shift_bit_injective(shift_bits(a, (n - 1) as nat), shift_bits(b, (n - 1) as nat));
        lemma_shift_bits_injective(a, b, (n - 1) as nat);
    }
}

/// Feeding a byte in loses nothing: registers that differ still differ
/// afterwards, and so do the registers that two different bytes leave.
pub proof fn lemma_feed_byte_injective(a: u32, x: u8, b: u32, y: u8)
    requires
        feed_byte(a, x) == feed_byte(b, y),
    ensures
        x == y ==> a == b,
        a == b ==> x == y,
{
    lemma_shift_bits_injective(a ^ (x as u32), b ^ (y as u32), 8);
    let xw = x as u32;
    let yw = y as u32;
    assert(a ^ xw == b ^ yw && xw == yw ==> a == b) by (bit_vector);
    assert(a ^ xw == b ^ yw && a == b ==> xw == yw) by (bit_vector);
}

/// The checksum tells a message from every message that differs from it in
/// one byte.
pub proof fn lemma_byte_change_detected(data: Seq<u8>, at: int, byte: u8)
    requires
        0 <= at < data.len(),
        byte != data[at],
    ensures
        checksum(data.update(at, byte)) != checksum(data),
    decreases data.len(),
{
    let changed = data.update(at, byte);
    if at == data.len() - 1 {
        assert(changed.drop_last() =~= data.drop_last());
    } else {
        assert(changed.drop_last() =~= data.drop_last().update(at, byte));
        assert(changed.last() == data.last());
        lemma_byte_change_detected(data.drop_last(), at, byte);
        let a = feed(changed.drop_last());
        let b = feed(data.drop_last());
        assert(a ^ 0xFFFF_FFFFu32 != b ^ 0xFFFF_FFFFu32 ==> a != b) by (bit_vector);
    }
    if feed(changed) == feed(data) {
        lemma_feed_byte_injective(
            feed(changed.drop_last()),
            changed.last(),
            feed(data.drop_last()),
            data.last(),
        );
    }
    let a = feed(changed);
    let b = feed(data);
    assert(a != b ==> a ^ 0xFFFF_FFFFu32 != b ^ 0xFFFF_FFFFu32) by (bit_vector);
}

} // verus!
