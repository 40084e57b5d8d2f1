//! The CRC-8 checksum that guards every two-byte word on the wire.

use vstd::prelude::*;

verus! {

/// The generator polynomial, x^8 + x^5 + x^4 + 1.
pub const CRC8_POLYNOMIAL: u8 = 0x31;

/// The value the checksum register starts from.
pub const CRC8_INIT: u8 = 0xff;

/// One shift of the checksum register: the top bit leaves, and if it was set
/// the polynomial is folded in.
pub open spec fn crc8_shift(crc: u8) -> u8 {
    if crc & 0x80 != 0 {
        (crc << 1) ^ CRC8_POLYNOMIAL
    } else {
        crc << 1
    }
}

/// The register after one more data byte: the byte is folded in, then the
/// register is shifted once per bit.
pub open spec fn crc8_update(crc: u8, byte: u8) -> u8 {
    crc8_shift(
        crc8_shift(
            crc8_shift(
                crc8_shift(crc8_shift(crc8_shift(crc8_shift(crc8_shift(crc ^ byte))))),
            ),
        ),
    )
}

/// The CRC-8 of a byte string: polynomial 0x31, initial value 0xFF, no
/// reflection, no final XOR.
pub open spec fn crc8(data: Seq<u8>) -> u8
    decreases data.len(),
{
    if data.len() == 0 {
        CRC8_INIT
    } else {
        crc8_update(crc8(data.drop_last()), data.last())
    }
}

/// The checksum of one two-byte word.
pub open spec fn word_crc(hi: u8, lo: u8) -> u8 {
    crc8_update(crc8_update(CRC8_INIT, hi), lo)
}

/// Calls `sensirion_i2c::crc8::calculate`.
///
/// Trusted: the result is the CRC-8 of `data` as [`crc8`] defines it, which is
/// the loop that function runs (start at 0xFF; per byte XOR it in, then eight
/// times shift left and XOR 0x31 when the top bit was set).
#[verifier::external_body]
pub(crate) fn crc8_calculate(data: &[u8]) -> (r: u8)
    ensures
        r == crc8(data@),
{
    sensirion_i2c::crc8::calculate(data)
}

/// [`crc8`] of a two-byte string is [`word_crc`] of its bytes.
pub proof fn lemma_crc8_of_word(data: Seq<u8>)
    requires
        data.len() == 2,
    ensures
        crc8(data) == word_crc(data[0], data[1]),
{
    let one = data.drop_last();
    assert(one.len() == 1);
    assert(one.last() == data[0]);
    assert(one.drop_last().len() == 0);
    assert(crc8(one.drop_last()) == 0xff);
    assert(crc8(one) == crc8_update(0xff, data[0]));
}

/// Computes the checksum of one two-byte word.
pub fn checksum(word: [u8; 2]) -> (r: u8)
    ensures
        r == crc8(word@),
        r == word_crc(word[0], word[1]),
{
    proof {
        lemma_crc8_of_word(word@);
    }
    crc8_calculate(word.as_slice())
}

/// Tells whether `expected` is the checksum of `word`.
pub fn verify(word: [u8; 2], expected: u8) -> (r: bool)
    ensures
        r == (word_crc(word[0], word[1]) == expected),
{
    checksum(word) == expected
}

/// The check value that the sensor's data sheet gives for this checksum: the
/// word `BE EF` has checksum `92`.
pub proof fn lemma_crc8_check_value()
    ensures
        word_crc(0xbe, 0xef) == 0x92,
        crc8(seq![0xbeu8, 0xefu8]) == 0x92,
{
    assert(0xffu8 ^ 0xbeu8 == 0x41u8) by (bit_vector);
    assert(0x41u8 & 0x80 == 0 && 0x41u8 << 1 == 0x82u8) by (bit_vector);
    assert(crc8_shift(0x41) == 0x82);
    assert(0x82u8 & 0x80 != 0 && (0x82u8 << 1) ^ 0x31 == 0x35u8) by (bit_vector);
    assert(crc8_shift(0x82) == 0x35);
    assert(0x35u8 & 0x80 == 0 && 0x35u8 << 1 == 0x6au8) by (bit_vector);
    assert(crc8_shift(0x35) == 0x6a);
    assert(0x6au8 & 0x80 == 0 && 0x6au8 << 1 == 0xd4u8) by (bit_vector);
    assert(crc8_shift(0x6a) == 0xd4);
    assert(0xd4u8 & 0x80 != 0 && (0xd4u8 << 1) ^ 0x31 == 0x99u8) by (bit_vector);
    assert(crc8_shift(0xd4) == 0x99);
    assert(0x99u8 & 0x80 != 0 && (0x99u8 << 1) ^ 0x31 == 0x03u8) by (bit_vector);
    assert(crc8_shift(0x99) == 0x03);
    assert(0x03u8 & 0x80 == 0 && 0x03u8 << 1 == 0x06u8) by (bit_vector);
    assert(crc8_shift(0x03) == 0x06);
    assert(0x06u8 & 0x80 == 0 && 0x06u8 << 1 == 0x0cu8) by (bit_vector);
    assert(crc8_shift(0x06) == 0x0c);
    assert(crc8_update(0xff, 0xbe) == 0x0c);
    assert(0x0cu8 ^ 0xefu8 == 0xe3u8) by (bit_vector);
    assert(0xe3u8 & 0x80 != 0 && (0xe3u8 << 1) ^ 0x31 == 0xf7u8) by (bit_vector);
    assert(crc8_shift(0xe3) == 0xf7);
    assert(0xf7u8 & 0x80 != 0 && (0xf7u8 << 1) ^ 0x31 == 0xdfu8) by (bit_vector);
    assert(crc8_shift(0xf7) == 0xdf);
    assert(0xdfu8 & 0x80 != 0 && (0xdfu8 << 1) ^ 0x31 == 0x8fu8) by (bit_vector);
    assert(crc8_shift(0xdf) == 0x8f);
    assert(0x8fu8 & 0x80 != 0 && (0x8fu8 << 1) ^ 0x31 == 0x2fu8) by (bit_vector);
    assert(crc8_shift(0x8f) == 0x2f);
    assert(0x2fu8 & 0x80 == 0 && 0x2fu8 << 1 == 0x5eu8) by (bit_vector);
    assert(crc8_shift(0x2f) == 0x5e);
    assert(0x5eu8 & 0x80 == 0 && 0x5eu8 << 1 == 0xbcu8) by (bit_vector);
    assert(crc8_shift(0x5e) == 0xbc);
    assert(0xbcu8 & 0x80 != 0 && (0xbcu8 << 1) ^ 0x31 == 0x49u8) by (bit_vector);
    assert(crc8_shift(0xbc) == 0x49);
    assert(0x49u8 & 0x80 == 0 && 0x49u8 << 1 == 0x92u8) by (bit_vector);
    assert(crc8_shift(0x49) == 0x92);
    assert(crc8_update(0x0c, 0xef) == 0x92);
    lemma_crc8_of_word(seq![0xbeu8, 0xefu8]);
}

} // verus!
