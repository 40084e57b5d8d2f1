//! What all response frames share: the errors of decoding, and the
//! three-byte group.
//!
//! A response is a run of groups: two data bytes, big-endian, and the
//! checksum of those two bytes. Nothing is decoded from a group whose
//! checksum does not match.

use crate::checksum::{checksum, word_crc};
use vstd::prelude::*;

verus! {

/// Why a frame with good checksums was still refused.
#[derive(Clone, Copy, Debug)]
pub enum MessageReason {
    /// The first byte of a data-ready frame was not `0x00`.
    DataReadyPrefix,
    /// The second byte of a data-ready frame was neither `0x00` nor `0x01`.
    DataReadyFlag,
    /// A string frame held a byte outside ASCII before its terminator.
    NonAscii,
}

/// A frame that passed its checksums and still made no sense.
#[derive(Clone, Copy, Debug)]
pub struct MessageError {
    pub reason: MessageReason,
}

/// Why a response could not be decoded.
#[derive(Clone, Copy, Debug, PartialEq, Eq)]
pub enum DecodeError {
    /// A checksum did not match its word.
    Crc,
    /// The frame was malformed.
    Msg(MessageError),
}

/// Two malformed-frame errors compare equal whatever their reasons: the
/// reason is there to be read, not to tell errors apart.
impl PartialEq for MessageError {
    fn eq(&self, other: &Self) -> (r: bool) {
        true
    }
}

impl vstd::std_specs::cmp::PartialEqSpecImpl for MessageError {
    open spec fn obeys_eq_spec() -> bool {
        true
    }

    open spec fn eq_spec(&self, other: &Self) -> bool {
        true
    }
}

impl Eq for MessageError {

}

impl MessageError {
    /// The sentence for each reason.
    pub open spec fn spec_message(self) -> Seq<char> {
        match self.reason {
            MessageReason::DataReadyPrefix => "data ready packet must start with 0x00"@,
            MessageReason::DataReadyFlag =>
                "data ready packet must have 0x00 or 0x01 as second byte"@,
            MessageReason::NonAscii => "non-ASCII character in string"@,
        }
    }

    /// A sentence that says what was wrong with the frame.
    pub fn message(&self) -> (r: &'static str)
        ensures
            r@ == self.spec_message(),
    {
        match self.reason {
            MessageReason::DataReadyPrefix => "data ready packet must start with 0x00",
            MessageReason::DataReadyFlag =>
                "data ready packet must have 0x00 or 0x01 as second byte",
            MessageReason::NonAscii => "non-ASCII character in string",
        }
    }
}

impl DecodeError {
    /// The error for a malformed frame.
    pub fn msg(reason: MessageReason) -> (r: Self)
        ensures
            r == DecodeError::Msg(MessageError { reason }),
    {
        DecodeError::Msg(MessageError { reason })
    }

    /// A sentence that says what went wrong.
    pub fn message(&self) -> (r: &'static str)
        ensures
            r@ == match *self {
                DecodeError::Crc => "CRC8 checksum mismatch"@,
                DecodeError::Msg(e) => e.spec_message(),
            },
    {
        match self {
            DecodeError::Crc => "CRC8 checksum mismatch",
            DecodeError::Msg(e) => e.message(),
        }
    }

    /// Whether this is a checksum mismatch.
    pub fn is_crc(&self) -> (r: bool)
        ensures
            r == (*self == DecodeError::Crc),
    {
        match self {
            DecodeError::Crc => true,
            DecodeError::Msg(_) => false,
        }
    }
}

/// The unsigned value of two big-endian bytes.
pub open spec fn be_u16(hi: u8, lo: u8) -> int {
    hi as int * 256 + lo as int
}

/// The two's-complement value of two big-endian bytes.
pub open spec fn be_i16(hi: u8, lo: u8) -> int {
    if hi >= 0x80 {
        be_u16(hi, lo) - 0x1_0000
    } else {
        be_u16(hi, lo)
    }
}

/// An unsigned reading: all bits set means that the sensor had none.
pub open spec fn reading_u16(hi: u8, lo: u8) -> Option<u16> {
    if be_u16(hi, lo) == 0xffff {
        None
    } else {
        Some(be_u16(hi, lo) as u16)
    }
}

/// A signed reading: the largest value means that the sensor had none.
pub open spec fn reading_i16(hi: u8, lo: u8) -> Option<i16> {
    if be_i16(hi, lo) == 0x7fff {
        None
    } else {
        Some(be_i16(hi, lo) as i16)
    }
}

/// Whether group `g` of a frame carries the checksum of its two data bytes.
pub open spec fn group_valid(s: Seq<u8>, g: int) -> bool {
    word_crc(s[3 * g], s[3 * g + 1]) == s[3 * g + 2]
}

/// Whether the first `n` groups of a frame all carry the right checksum.
pub open spec fn groups_valid(s: Seq<u8>, n: int) -> bool {
    forall|g: int| 0 <= g < n ==> #[trigger] group_valid(s, g)
}

/// What group `g` decodes to as an unsigned reading: a checksum error unless
/// its checksum matches.
pub open spec fn decoded_u16(s: Seq<u8>, g: int) -> Result<Option<u16>, DecodeError> {
    if group_valid(s, g) {
        Ok(reading_u16(s[3 * g], s[3 * g + 1]))
    } else {
        Err(DecodeError::Crc)
    }
}

/// What group `g` decodes to as a signed reading: a checksum error unless
/// its checksum matches.
pub open spec fn decoded_i16(s: Seq<u8>, g: int) -> Result<Option<i16>, DecodeError> {
    if group_valid(s, g) {
        Ok(reading_i16(s[3 * g], s[3 * g + 1]))
    } else {
        Err(DecodeError::Crc)
    }
}

/// The big-endian bytes of an unsigned word.
pub open spec fn bytes_of_u16(v: u16) -> (u8, u8) {
    ((v / 256) as u8, (v % 256) as u8)
}

/// The big-endian bytes of a signed word, in two's complement.
pub open spec fn bytes_of_i16(v: i16) -> (u8, u8) {
    if v < 0 {
        (((v + 0x1_0000) / 256) as u8, ((v + 0x1_0000) % 256) as u8)
    } else {
        ((v / 256) as u8, (v % 256) as u8)
    }
}

/// Checks the checksum of group `g` and hands back its two data bytes.
pub fn checked_word(buf: &[u8], g: usize) -> (r: Result<(u8, u8), DecodeError>)
    requires
        3 * g + 3 <= buf@.len(),
    ensures
        r == if group_valid(buf@, g as int) {
            Ok::<(u8, u8), DecodeError>((buf@[3 * g], buf@[3 * g + 1]))
        } else {
            Err::<(u8, u8), DecodeError>(DecodeError::Crc)
        },
{
    // The slice's length fits a `usize`, and so do the indices below.
    let _ = buf.len();
    let hi = buf[3 * g];
    let lo = buf[3 * g + 1];
    if checksum([hi, lo]) != buf[3 * g + 2] {
        return Err(DecodeError::Crc);
    }
    Ok((hi, lo))
}

/// The unsigned value of two big-endian bytes.
pub fn u16_from_be(hi: u8, lo: u8) -> (r: u16)
    ensures
        r == be_u16(hi, lo),
{
    (hi as u16) * 256 + (lo as u16)
}

/// The two's-complement value of two big-endian bytes.
pub fn i16_from_be(hi: u8, lo: u8) -> (r: i16)
    ensures
        r == be_i16(hi, lo),
{
    if hi >= 0x80 {
        let low: i16 = ((hi - 0x80) as i16) * 256 + (lo as i16);
        low - 0x4000 - 0x4000
    } else {
        (hi as i16) * 256 + (lo as i16)
    }
}

/// Decodes group `g` as an unsigned reading.
pub fn word_u16(buf: &[u8], g: usize) -> (r: Result<Option<u16>, DecodeError>)
    requires
        3 * g + 3 <= buf@.len(),
    ensures
        r == decoded_u16(buf@, g as int),
{
    match checked_word(buf, g) {
        Ok((hi, lo)) => {
            let v = u16_from_be(hi, lo);
            if v == u16::MAX {
                Ok(None)
            } else {
                Ok(Some(v))
            }
        },
        Err(e) => Err(e),
    }
}

/// Decodes group `g` as a signed reading.
pub fn word_i16(buf: &[u8], g: usize) -> (r: Result<Option<i16>, DecodeError>)
    requires
        3 * g + 3 <= buf@.len(),
    ensures
        r == decoded_i16(buf@, g as int),
{
    match checked_word(buf, g) {
        Ok((hi, lo)) => {
            let v = i16_from_be(hi, lo);
            if v == i16::MAX {
                Ok(None)
            } else {
                Ok(Some(v))
            }
        },
        Err(e) => Err(e),
    }
}

/// A group that carries the checksum of its two data bytes decodes to the
/// reading they hold. With any one bit of its checksum byte flipped it is
/// refused as a checksum mismatch.
pub proof fn lemma_group_checksum(hi: u8, lo: u8, bit: u8)
    requires
        bit < 8,
    ensures
        decoded_u16(seq![hi, lo, word_crc(hi, lo)], 0) == Ok::<Option<u16>, DecodeError>(
            reading_u16(hi, lo),
        ),
        decoded_i16(seq![hi, lo, word_crc(hi, lo)], 0) == Ok::<Option<i16>, DecodeError>(
            reading_i16(hi, lo),
        ),
        decoded_u16(seq![hi, lo, word_crc(hi, lo) ^ (1u8 << bit)], 0) == Err::<
            Option<u16>,
            DecodeError,
        >(DecodeError::Crc),
        decoded_i16(seq![hi, lo, word_crc(hi, lo) ^ (1u8 << bit)], 0) == Err::<
            Option<i16>,
            DecodeError,
        >(DecodeError::Crc),
{
    lemma_flipped_bit_differs(word_crc(hi, lo), bit);
}

/// A byte with one bit flipped is another byte.
pub proof fn lemma_flipped_bit_differs(c: u8, bit: u8)
    requires
        bit < 8,
    ensures
        c ^ (1u8 << bit) != c,
{
    assert(c ^ (1u8 << bit) != c) by (bit_vector)
        requires
            bit < 8,
    ;
}

/// In a frame whose first `n` groups all carry the right checksum, flipping
/// any one bit of the checksum byte of one of them leaves a frame in which
/// exactly that group is wrong.
pub proof fn lemma_frame_checksum_flip(s: Seq<u8>, n: int, g: int, bit: u8)
    requires
        0 <= g < n,
        3 * n <= s.len(),
        bit < 8,
        groups_valid(s, n),
    ensures
        !groups_valid(s.update(3 * g + 2, s[3 * g + 2] ^ (1u8 << bit)), n),
        forall|h: int|
            0 <= h < n && h != g ==> #[trigger] group_valid(
                s.update(3 * g + 2, s[3 * g + 2] ^ (1u8 << bit)),
                h,
            ),
{
    let t = s.update(3 * g + 2, s[3 * g + 2] ^ (1u8 << bit));
    assert(group_valid(s, g));
    lemma_flipped_bit_differs(s[3 * g + 2], bit);
    assert(!group_valid(t, g));
    assert forall|h: int| 0 <= h < n && h != g implies #[trigger] group_valid(t, h) by {
        assert(group_valid(s, h));
    }
}

/// Every unsigned word but `0xFFFF` decodes to itself, and `0xFFFF` to no
/// reading.
pub proof fn lemma_reading_u16(v: u16)
    ensures
        reading_u16(bytes_of_u16(v).0, bytes_of_u16(v).1) == if v == 0xffff {
            None::<u16>
        } else {
            Some(v)
        },
{
}

/// Every signed word but `0x7FFF` decodes to itself, and `0x7FFF` to no
/// reading.
pub proof fn lemma_reading_i16(v: i16)
    ensures
        reading_i16(bytes_of_i16(v).0, bytes_of_i16(v).1) == if v == 0x7fff {
            None::<i16>
        } else {
            Some(v)
        },
{
}

/// Two bytes hold no reading exactly when they are `FF FF` (unsigned) or
/// `7F FF` (signed); else they hold their big-endian value.
pub proof fn lemma_sentinels(hi: u8, lo: u8)
    ensures
        reading_u16(hi, lo) is None <==> hi == 0xff && lo == 0xff,
        reading_i16(hi, lo) is None <==> hi == 0x7f && lo == 0xff,
        reading_u16(hi, lo) is Some ==> reading_u16(hi, lo)->Some_0 == be_u16(hi, lo),
        reading_i16(hi, lo) is Some ==> reading_i16(hi, lo)->Some_0 == be_i16(hi, lo),
{
}

} // verus!
