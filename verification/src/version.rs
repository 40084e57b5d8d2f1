//! The version frame.

use crate::checksum::{crc8, crc8_calculate};
use crate::msg::{lemma_flipped_bit_differs, DecodeError};
use vstd::prelude::*;

verus! {

/// A two-part version number.
#[derive(Clone, Copy, Debug, PartialEq, Eq, PartialOrd, Ord, Structural)]
pub struct Version {
    pub major: u8,
    pub minor: u8,
}

/// What the sensor says of its own versions.
#[derive(Clone, Copy, Debug, PartialEq, Eq, PartialOrd, Ord, Structural)]
pub struct VersionInfo {
    /// The firmware version.
    pub firmware: Version,
    /// Whether the firmware is a debug build.
    pub firmware_debug: bool,
    /// The hardware version.
    pub hardware: Version,
    /// The protocol version.
    pub protocol: Version,
}

impl VersionInfo {
    /// Whether the one checksum of a version frame matches: the last byte is
    /// the CRC-8 of the eleven bytes before it.
    pub open spec fn frame_valid(s: Seq<u8>) -> bool {
        crc8(s.subrange(0, 11)) == s[11]
    }

    /// The versions that the bytes of a frame hold.
    pub open spec fn fields(s: Seq<u8>) -> VersionInfo {
        VersionInfo {
            firmware: Version { major: s[0], minor: s[1] },
            firmware_debug: s[4] != 0,
            hardware: Version { major: s[5], minor: s[7] },
            protocol: Version { major: s[8], minor: s[10] },
        }
    }

    /// What a version frame decodes to: its fields if the checksum matches,
    /// and a checksum error otherwise.
    pub open spec fn from_wire(s: Seq<u8>) -> Result<VersionInfo, DecodeError> {
        if Self::frame_valid(s) {
            Ok(Self::fields(s))
        } else {
            Err(DecodeError::Crc)
        }
    }

    /// Decodes a version frame.
    pub fn decode(buf: &[u8; 12]) -> (r: Result<Self, DecodeError>)
        ensures
            r == Self::from_wire(buf@),
    {
        let payload = vstd::slice::slice_subrange(buf.as_slice(), 0, 11);
        if crc8_calculate(payload) != buf[11] {
            return Err(DecodeError::Crc);
        }
        Ok(
            VersionInfo {
                firmware: Version { major: buf[0], minor: buf[1] },
                firmware_debug: buf[4] != 0,
                hardware: Version { major: buf[5], minor: buf[7] },
                protocol: Version { major: buf[8], minor: buf[10] },
            },
        )
    }

    /// Whether the firmware is new enough to report the full set of
    /// particulate values: version 0.7 or later.
    pub fn supports_full_pm_values(&self) -> (r: bool)
        ensures
            r == (self.firmware.major > 0 || self.firmware.minor >= 7),
    {
        self.firmware.major > 0 || self.firmware.minor >= 7
    }
}

/// A version frame whose checksum matches decodes to its fields. With any one
/// bit of the checksum byte flipped it is refused as a checksum mismatch.
pub proof fn lemma_version_checksum(s: Seq<u8>, bit: u8)
    requires
        s.len() == 12,
        VersionInfo::frame_valid(s),
        bit < 8,
    ensures
        VersionInfo::from_wire(s) == Ok::<VersionInfo, DecodeError>(VersionInfo::fields(s)),
        VersionInfo::from_wire(s.update(11, s[11] ^ (1u8 << bit))) == Err::<
            VersionInfo,
            DecodeError,
        >(DecodeError::Crc),
{
    let t = s.update(11, s[11] ^ (1u8 << bit));
    lemma_flipped_bit_differs(s[11], bit);
    assert(t.subrange(0, 11) =~= s.subrange(0, 11));
}

} // verus!
