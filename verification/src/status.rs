//! The sensor's status register.

use vstd::prelude::*;

verus! {

/// The status register: a set of flags, one bit each.
#[derive(Clone, Copy, Debug, PartialEq, Eq, Structural)]
pub struct SensorStatus {
    pub bits: u32,
}

impl SensorStatus {
    /// The fan is switched on, but stands still.
    pub const FAN_ERROR: u32 = 0x10;

    /// The laser has failed.
    pub const LASER_ERROR: u32 = 0x20;

    /// The humidity and temperature sensor does not answer.
    pub const RHT_ERROR: u32 = 0x40;

    /// The gas sensor has failed.
    pub const GAS_SENSOR_ERROR: u32 = 0x80;

    /// The fan is running its cleaning procedure.
    pub const FAN_CLEANING: u32 = 0x8_0000;

    /// The fan is too slow or too fast.
    pub const FAN_SPEED_WARNING: u32 = 0x20_0000;

    /// All four error bits.
    pub const ERROR: u32 = 0xf0;

    /// Every bit that has a meaning.
    pub const ALL: u32 = 0x28_00f0;

    /// The status with exactly the given bits set, if each of them has a
    /// meaning.
    pub fn from_bits(bits: u32) -> (r: Option<Self>)
        ensures
            r == if bits & !0x28_00f0u32 == 0 {
                Some(SensorStatus { bits })
            } else {
                None
            },
    {
        if bits & !Self::ALL == 0 {
            Some(SensorStatus { bits })
        } else {
            None
        }
    }

    /// The status with the given bits set, those without a meaning dropped.
    pub fn from_bits_truncate(bits: u32) -> (r: Self)
        ensures
            r.bits == bits & 0x28_00f0,
    {
        SensorStatus { bits: bits & Self::ALL }
    }

    /// The bits that are set.
    pub fn bits(&self) -> (r: u32)
        ensures
            r == self.bits,
    {
        self.bits
    }

    /// Whether every bit of `flags` is set.
    pub fn contains(&self, flags: u32) -> (r: bool)
        ensures
            r == (self.bits & flags == flags),
    {
        self.bits & flags == flags
    }

    /// Whether any bit of `flags` is set.
    pub fn intersects(&self, flags: u32) -> (r: bool)
        ensures
            r == (self.bits & flags != 0),
    {
        self.bits & flags != 0
    }

    /// Whether any of the four error bits is set.
    pub fn has_error(&self) -> (r: bool)
        ensures
            r == (self.bits & 0xf0 != 0),
    {
        self.bits & Self::ERROR != 0
    }
}

/// The error mask is the four error flags together, and the mask of all bits
/// is those with the two fan flags.
pub proof fn lemma_status_masks()
    ensures
        SensorStatus::ERROR == SensorStatus::FAN_ERROR | SensorStatus::LASER_ERROR
            | SensorStatus::RHT_ERROR | SensorStatus::GAS_SENSOR_ERROR,
        SensorStatus::ALL == SensorStatus::ERROR | SensorStatus::FAN_CLEANING
            | SensorStatus::FAN_SPEED_WARNING,
        SensorStatus::FAN_ERROR == 1u32 << 4,
        SensorStatus::LASER_ERROR == 1u32 << 5,
        SensorStatus::RHT_ERROR == 1u32 << 6,
        SensorStatus::GAS_SENSOR_ERROR == 1u32 << 7,
        SensorStatus::FAN_CLEANING == 1u32 << 19,
        SensorStatus::FAN_SPEED_WARNING == 1u32 << 21,
{
    assert(0xf0u32 == 0x10u32 | 0x20u32 | 0x40u32 | 0x80u32) by (bit_vector);
    assert(0x28_00f0u32 == 0xf0u32 | 0x8_0000u32 | 0x20_0000u32) by (bit_vector);
    assert(0x10u32 == 1u32 << 4) by (bit_vector);
    assert(0x20u32 == 1u32 << 5) by (bit_vector);
    assert(0x40u32 == 1u32 << 6) by (bit_vector);
    assert(0x80u32 == 1u32 << 7) by (bit_vector);
    assert(0x8_0000u32 == 1u32 << 19) by (bit_vector);
    assert(0x20_0000u32 == 1u32 << 21) by (bit_vector);
}

} // verus!
