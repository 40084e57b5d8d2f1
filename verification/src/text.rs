//! The string frames: product name and serial number.

use crate::msg::{
    checked_word, group_valid, lemma_flipped_bit_differs, DecodeError, MessageError,
    MessageReason,
};
use vstd::prelude::*;

verus! {

/// How many whole groups a string frame holds.
pub const STRING_GROUPS: usize = 15;

/// Whether a byte is an ASCII character other than NUL.
pub open spec fn is_visible(c: u8) -> bool {
    0 < c < 0x80
}

/// The characters that a byte string spells, one per byte.
pub open spec fn chars_of(bytes: Seq<u8>) -> Seq<char> {
    Seq::new(bytes.len(), |i: int| bytes[i] as char)
}

/// What a string frame decodes to, read from group `g` on with `acc`
/// collected so far.
///
/// Groups are read in order. In each, the checksum is checked first; then the
/// two data bytes are taken one after the other: a byte outside ASCII is an
/// error, a NUL ends the string, any other byte is added to it. Nothing after
/// the NUL is looked at, and the string also ends with the last whole group.
pub open spec fn scan_text(s: Seq<u8>, g: int, acc: Seq<u8>) -> Result<Seq<u8>, DecodeError>
    decreases STRING_GROUPS - g,
{
    let c0 = s[3 * g];
    let c1 = s[3 * g + 1];
    if g < 0 || g >= STRING_GROUPS {
        Ok(acc)
    } else if !group_valid(s, g) {
        Err(DecodeError::Crc)
    } else if c0 >= 0x80 {
        Err(DecodeError::Msg(MessageError { reason: MessageReason::NonAscii }))
    } else if c0 == 0 {
        Ok(acc)
    } else if c1 >= 0x80 {
        Err(DecodeError::Msg(MessageError { reason: MessageReason::NonAscii }))
    } else if c1 == 0 {
        Ok(acc.push(c0))
    } else {
        scan_text(s, g + 1, acc.push(c0).push(c1))
    }
}

/// What adding one byte to a string does: an error for a byte outside ASCII,
/// the string unchanged and `true` for a NUL, else the string with the byte
/// added and `false`.
pub open spec fn push_char_spec(text: Seq<u8>, c: u8) -> Result<(Seq<u8>, bool), DecodeError> {
    if c >= 0x80 {
        Err(DecodeError::Msg(MessageError { reason: MessageReason::NonAscii }))
    } else if c == 0 {
        Ok((text, true))
    } else {
        Ok((text.push(c), false))
    }
}

/// A string as the device sends it: at most 32 ASCII characters, none of
/// them NUL.
#[derive(Clone, Copy, Debug)]
pub struct RawString {
    bytes: [u8; 32],
    len: usize,
}

impl View for RawString {
    type V = Seq<u8>;

    closed spec fn view(&self) -> Seq<u8> {
        self.bytes@.subrange(0, self.len as int)
    }
}

impl RawString {
    /// The most characters a string can hold.
    pub const LEN: usize = 32;

    #[verifier::type_invariant]
    spec fn well_formed(self) -> bool {
        &&& self.len <= 32
        &&& forall|i: int| 0 <= i < self.len ==> is_visible(#[trigger] self.bytes@[i])
    }

    /// The empty string.
    pub fn empty() -> (r: Self)
        ensures
            r@ == Seq::<u8>::empty(),
    {
        let r = RawString { bytes: [0; 32], len: 0 };
        assert(r@ =~= Seq::<u8>::empty());
        r
    }

    /// The number of characters.
    pub fn len(&self) -> (r: usize)
        ensures
            r == self@.len(),
            r <= 32,
            forall|i: int| 0 <= i < self@.len() ==> is_visible(#[trigger] self@[i]),
    {
        proof {
            use_type_invariant(self);
        }
        self.len
    }

    /// The string as text.
    #[must_use]
    pub fn as_str(&self) -> (r: &str)
        ensures
            r@ == chars_of(self@),
    {
        proof {
            use_type_invariant(self);
        }
        let bytes = vstd::slice::slice_subrange(self.bytes.as_slice(), 0, self.len);
        assert(bytes@ =~= self@);
        match utf8_text(bytes) {
            Some(s) => s,
            None => "<invalid utf-8>",
        }
    }

    /// Adds one byte of a frame to the string, and tells whether it was the
    /// terminator.
    pub fn push_char(self, c: u8) -> (r: Result<(Self, bool), DecodeError>)
        requires
            self@.len() < 32,
        ensures
            match push_char_spec(self@, c) {
                Ok((text, done)) => r is Ok && r->Ok_0.0@ == text && r->Ok_0.1 == done,
                Err(e) => r == Err::<(Self, bool), DecodeError>(e),
            },
    {
        proof {
            use_type_invariant(&self);
        }
        if c >= 0x80 {
            return Err(DecodeError::msg(MessageReason::NonAscii));
        }
        if c == 0 {
            return Ok((self, true));
        }
        let mut bytes = self.bytes;
        bytes[self.len] = c;
        let next = RawString { bytes, len: self.len + 1 };
        assert(next@ =~= self@.push(c));
        Ok((next, false))
    }

    /// Decodes a string frame.
    ///
    /// The frame holds fifteen whole groups; its last two bytes belong to no
    /// group and are never read.
    pub fn decode(buf: &[u8; 47]) -> (r: Result<Self, DecodeError>)
        ensures
            match scan_text(buf@, 0, Seq::<u8>::empty()) {
                Ok(text) => r is Ok && r->Ok_0@ == text,
                Err(e) => r == Err::<Self, DecodeError>(e),
            },
    {
        let s = buf.as_slice();
        let mut this = RawString::empty();
        let mut g: usize = 0;
        while g < STRING_GROUPS
            invariant
                s@ == buf@,
                0 <= g <= STRING_GROUPS,
                this@.len() <= 2 * g,
                scan_text(buf@, 0, Seq::<u8>::empty()) == scan_text(buf@, g as int, this@),
            decreases STRING_GROUPS - g,
        {
            let (c0, c1) = match checked_word(s, g) {
                Ok(w) => w,
                Err(e) => {
                    return Err(e);
                },
            };
            this = match this.push_char(c0) {
                Ok((next, done)) => {
                    if done {
                        return Ok(next);
                    }
                    next
                },
                Err(e) => {
                    return Err(e);
                },
            };
            this = match this.push_char(c1) {
                Ok((next, done)) => {
                    if done {
                        return Ok(next);
                    }
                    next
                },
                Err(e) => {
                    return Err(e);
                },
            };
            g += 1;
        }
        Ok(this)
    }
}

/// Calls `core::str::from_utf8`, and keeps the string where it gives one.
///
/// Trusted: bytes that are all below 0x80 are valid UTF-8, and the string they
/// give has exactly those bytes as its characters.
#[verifier::external_body]
fn utf8_text(bytes: &[u8]) -> (r: Option<&str>)
    ensures
        (forall|i: int| 0 <= i < bytes@.len() ==> bytes@[i] < 0x80) ==> r is Some && r->Some_0@
            == chars_of(bytes@),
{
    core::str::from_utf8(bytes).ok()
}

/// Data byte `j` of a frame: the checksum bytes are skipped.
pub open spec fn data_byte(s: Seq<u8>, j: int) -> u8 {
    s[3 * (j / 2) + j % 2]
}

/// The first `k` data bytes of a frame.
pub open spec fn data_prefix(s: Seq<u8>, k: int) -> Seq<u8> {
    Seq::new(k as nat, |j: int| data_byte(s, j))
}

/// What a frame decodes to when its first `k` data bytes are visible ASCII
/// characters and the checksums of all groups up to the one that holds data
/// byte `k` match: if byte `k` is NUL, the string of those `k` characters; if
/// it is not ASCII, a malformed-message error.
pub proof fn lemma_text_ends_at(s: Seq<u8>, k: int)
    requires
        0 <= k < 2 * STRING_GROUPS,
        forall|j: int| 0 <= j < k ==> is_visible(#[trigger] data_byte(s, j)),
        forall|g: int| 0 <= g <= k / 2 ==> #[trigger] group_valid(s, g),
        !is_visible(data_byte(s, k)),
    ensures
        scan_text(s, 0, Seq::<u8>::empty()) == if data_byte(s, k) == 0 {
            Ok::<Seq<u8>, DecodeError>(data_prefix(s, k))
        } else {
            Err::<Seq<u8>, DecodeError>(
                DecodeError::Msg(MessageError { reason: MessageReason::NonAscii }),
            )
        },
{
    let g = k / 2;
    lemma_scan_skips(s, 0, g);
    assert(group_valid(s, g));
    if k == 2 * g + 1 {
        assert(is_visible(data_byte(s, 2 * g)));
        assert(data_prefix(s, 2 * g).push(s[3 * g]) =~= data_prefix(s, k));
    }
}

/// What a frame decodes to when the checksum of group `g` is wrong, the
/// checksums of the groups before it match, and all data bytes before it are
/// visible ASCII characters: a checksum error.
pub proof fn lemma_text_checksum(s: Seq<u8>, g: int)
    requires
        0 <= g < STRING_GROUPS,
        forall|j: int| 0 <= j < 2 * g ==> is_visible(#[trigger] data_byte(s, j)),
        forall|h: int| 0 <= h < g ==> #[trigger] group_valid(s, h),
        !group_valid(s, g),
    ensures
        scan_text(s, 0, Seq::<u8>::empty()) == Err::<Seq<u8>, DecodeError>(DecodeError::Crc),
{
    lemma_scan_skips(s, 0, g);
}

/// A frame whose thirty data bytes are all visible ASCII characters and whose
/// fifteen checksums all match decodes to those thirty characters.
pub proof fn lemma_text_unterminated(s: Seq<u8>)
    requires
        forall|j: int| 0 <= j < 2 * STRING_GROUPS ==> is_visible(#[trigger] data_byte(s, j)),
        forall|g: int| 0 <= g < STRING_GROUPS ==> #[trigger] group_valid(s, g),
    ensures
        scan_text(s, 0, Seq::<u8>::empty()) == Ok::<Seq<u8>, DecodeError>(data_prefix(s, 30)),
{
    lemma_scan_skips(s, 0, 15);
}

/// In a string frame that ends at data byte `k`, flipping any one bit of the
/// checksum byte of a group up to the one that holds byte `k` gives a frame
/// that is refused as a checksum mismatch.
pub proof fn lemma_text_checksum_flip(s: Seq<u8>, k: int, g: int, bit: u8)
    requires
        s.len() == 47,
        0 <= k < 2 * STRING_GROUPS,
        forall|j: int| 0 <= j < k ==> is_visible(#[trigger] data_byte(s, j)),
        forall|h: int| 0 <= h <= k / 2 ==> #[trigger] group_valid(s, h),
        0 <= g <= k / 2,
        bit < 8,
    ensures
        scan_text(s.update(3 * g + 2, s[3 * g + 2] ^ (1u8 << bit)), 0, Seq::<u8>::empty()) == Err::<
            Seq<u8>,
            DecodeError,
        >(DecodeError::Crc),
{
    let t = s.update(3 * g + 2, s[3 * g + 2] ^ (1u8 << bit));
    lemma_flipped_bit_differs(s[3 * g + 2], bit);
    assert(group_valid(s, g));
    assert(!group_valid(t, g));
    assert forall|j: int| 0 <= j < 2 * g implies is_visible(#[trigger] data_byte(t, j)) by {
        assert(is_visible(data_byte(s, j)));
    }
    assert forall|h: int| 0 <= h < g implies #[trigger] group_valid(t, h) by {
        assert(group_valid(s, h));
    }
    lemma_text_checksum(t, g);
}

/// Groups that match their checksums and hold two visible characters are
/// read through: the scan goes on behind them with their characters added.
proof fn lemma_scan_skips(s: Seq<u8>, h: int, g: int)
    requires
        0 <= h <= g <= STRING_GROUPS,
        forall|j: int| 0 <= j < 2 * g ==> is_visible(#[trigger] data_byte(s, j)),
        forall|i: int| 0 <= i < g ==> #[trigger] group_valid(s, i),
    ensures
        scan_text(s, h, data_prefix(s, 2 * h)) == scan_text(s, g, data_prefix(s, 2 * g)),
        h == 0 ==> scan_text(s, 0, Seq::<u8>::empty()) == scan_text(s, g, data_prefix(s, 2 * g)),
    decreases g - h,
{
    if h < g {
        assert(group_valid(s, h));
        assert(is_visible(data_byte(s, 2 * h)));
        assert(is_visible(data_byte(s, 2 * h + 1)));
        assert(data_prefix(s, 2 * h).push(s[3 * h]).push(s[3 * h + 1]) =~= data_prefix(
            s,
            2 * (h + 1),
        ));
        lemma_scan_skips(s, h + 1, g);
    }
    if h == 0 {
        assert(data_prefix(s, 0) =~= Seq::<u8>::empty());
    }
}

} // verus!
