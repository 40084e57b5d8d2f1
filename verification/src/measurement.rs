//! The numeric frames: the data-ready flag, the measurement set, the raw
//! signals, and the warm-start parameter.

use crate::checksum::{checksum, word_crc};
use crate::msg::{
    be_u16, checked_word, group_valid, groups_valid, lemma_flipped_bit_differs,
    lemma_frame_checksum_flip, reading_i16, reading_u16, u16_from_be, word_i16, word_u16,
    DecodeError, MessageError, MessageReason,
};
use vstd::prelude::*;

verus! {

/// A reading in physical units, kept exact: it stands for `raw / divisor`.
#[derive(Clone, Copy, Debug, PartialEq, Eq, Structural)]
pub struct FixedPoint {
    /// The integer the sensor sent.
    pub raw: i32,
    /// What one unit is divided into.
    pub divisor: u16,
}

/// Particulate-matter concentrations come in tenths of a µg/m³.
pub const PM_DIVISOR: u16 = 10;

/// Relative humidity comes in hundredths of a percent.
pub const HUMIDITY_DIVISOR: u16 = 100;

/// Temperature comes in two-hundredths of a degree Celsius.
pub const TEMPERATURE_DIVISOR: u16 = 200;

/// The VOC and NOx indices come in tenths.
pub const INDEX_DIVISOR: u16 = 10;

/// An unsigned reading over its divisor; an absent reading stays absent.
pub open spec fn scaled_u16(field: Option<u16>, divisor: u16) -> Option<FixedPoint> {
    match field {
        Some(v) => Some(FixedPoint { raw: v as i32, divisor }),
        None => None,
    }
}

/// A signed reading over its divisor; an absent reading stays absent.
pub open spec fn scaled_i16(field: Option<i16>, divisor: u16) -> Option<FixedPoint> {
    match field {
        Some(v) => Some(FixedPoint { raw: v as i32, divisor }),
        None => None,
    }
}

/// Puts an unsigned reading over its divisor.
pub fn scale_u16(field: Option<u16>, divisor: u16) -> (r: Option<FixedPoint>)
    ensures
        r == scaled_u16(field, divisor),
{
    match field {
        Some(v) => Some(FixedPoint { raw: v as i32, divisor }),
        None => None,
    }
}

/// Puts a signed reading over its divisor.
pub fn scale_i16(field: Option<i16>, divisor: u16) -> (r: Option<FixedPoint>)
    ensures
        r == scaled_i16(field, divisor),
{
    match field {
        Some(v) => Some(FixedPoint { raw: v as i32, divisor }),
        None => None,
    }
}

/// The answer to "is a new measurement ready to be read?".
#[derive(Clone, Copy, Debug, PartialEq, Eq, Structural)]
pub struct DataReady(pub bool);

impl DataReady {
    /// What a data-ready frame decodes to.
    ///
    /// The checksum is looked at first, then the first byte, then the second.
    pub open spec fn from_wire(s: Seq<u8>) -> Result<DataReady, DecodeError> {
        if !group_valid(s, 0) {
            Err(DecodeError::Crc)
        } else if s[0] != 0 {
            Err(DecodeError::Msg(MessageError { reason: MessageReason::DataReadyPrefix }))
        } else if s[1] == 0 {
            Ok(DataReady(false))
        } else if s[1] == 1 {
            Ok(DataReady(true))
        } else {
            Err(DecodeError::Msg(MessageError { reason: MessageReason::DataReadyFlag }))
        }
    }

    /// Decodes a data-ready frame.
    pub fn decode(data: &[u8; 3]) -> (r: Result<Self, DecodeError>)
        ensures
            r == Self::from_wire(data@),
    {
        if checksum([data[0], data[1]]) != data[2] {
            return Err(DecodeError::Crc);
        }
        if data[0] != 0 {
            return Err(DecodeError::msg(MessageReason::DataReadyPrefix));
        }
        match data[1] {
            0 => Ok(DataReady(false)),
            1 => Ok(DataReady(true)),
            _ => Err(DecodeError::msg(MessageReason::DataReadyFlag)),
        }
    }
}

/// One measurement set.
///
/// On the wire it is eight groups, in the order of the fields: four unsigned
/// particulate concentrations, then signed humidity, temperature, VOC index
/// and NOx index.
#[derive(Clone, Copy, Debug, PartialEq, Eq, Structural)]
pub struct Measurements {
    pub pm1_0: Option<u16>,
    pub pm2_5: Option<u16>,
    pub pm4_0: Option<u16>,
    pub pm10_0: Option<u16>,
    pub rh: Option<i16>,
    pub temp: Option<i16>,
    pub voc: Option<i16>,
    pub nox: Option<i16>,
}

impl Measurements {
    /// The readings that the data bytes of a frame hold.
    pub open spec fn readings(s: Seq<u8>) -> Measurements {
        Measurements {
            pm1_0: reading_u16(s[0], s[1]),
            pm2_5: reading_u16(s[3], s[4]),
            pm4_0: reading_u16(s[6], s[7]),
            pm10_0: reading_u16(s[9], s[10]),
            rh: reading_i16(s[12], s[13]),
            temp: reading_i16(s[15], s[16]),
            voc: reading_i16(s[18], s[19]),
            nox: reading_i16(s[21], s[22]),
        }
    }

    /// What a measurement frame decodes to: its readings if all eight
    /// checksums match, and a checksum error otherwise.
    pub open spec fn from_wire(s: Seq<u8>) -> Result<Measurements, DecodeError> {
        if groups_valid(s, 8) {
            Ok(Self::readings(s))
        } else {
            Err(DecodeError::Crc)
        }
    }

    /// Decodes a measurement frame.
    pub fn decode(buf: &[u8; 24]) -> (r: Result<Self, DecodeError>)
        ensures
            r == Self::from_wire(buf@),
    {
        let s = buf.as_slice();
        let pm1_0 = match word_u16(s, 0) { Ok(v) => v, Err(e) => { return Err(e); } };
        let pm2_5 = match word_u16(s, 1) { Ok(v) => v, Err(e) => { return Err(e); } };
        let pm4_0 = match word_u16(s, 2) { Ok(v) => v, Err(e) => { return Err(e); } };
        let pm10_0 = match word_u16(s, 3) { Ok(v) => v, Err(e) => { return Err(e); } };
        let rh = match word_i16(s, 4) { Ok(v) => v, Err(e) => { return Err(e); } };
        let temp = match word_i16(s, 5) { Ok(v) => v, Err(e) => { return Err(e); } };
        let voc = match word_i16(s, 6) { Ok(v) => v, Err(e) => { return Err(e); } };
        let nox = match word_i16(s, 7) { Ok(v) => v, Err(e) => { return Err(e); } };
        Ok(Measurements { pm1_0, pm2_5, pm4_0, pm10_0, rh, temp, voc, nox })
    }

    /// The ambient temperature in degrees Celsius, if there was a reading.
    #[must_use]
    pub fn temp_c(&self) -> (r: Option<FixedPoint>)
        ensures
            r == scaled_i16(self.temp, 200),
    {
        scale_i16(self.temp, TEMPERATURE_DIVISOR)
    }

    /// The ambient relative humidity in percent, if there was a reading.
    #[must_use]
    pub fn relative_humidity(&self) -> (r: Option<FixedPoint>)
        ensures
            r == scaled_i16(self.rh, 100),
    {
        scale_i16(self.rh, HUMIDITY_DIVISOR)
    }

    /// The VOC index, if there was a reading.
    #[must_use]
    pub fn voc_index(&self) -> (r: Option<FixedPoint>)
        ensures
            r == scaled_i16(self.voc, 10),
    {
        scale_i16(self.voc, INDEX_DIVISOR)
    }

    /// The NOx index, if there was a reading.
    #[must_use]
    pub fn nox_index(&self) -> (r: Option<FixedPoint>)
        ensures
            r == scaled_i16(self.nox, 10),
    {
        scale_i16(self.nox, INDEX_DIVISOR)
    }

    /// The PM1.0 concentration in µg/m³, if there was a reading.
    ///
    /// There is none when the measurement was started without particulates,
    /// or when the particulate sensor has failed.
    #[must_use]
    pub fn pm1_0(&self) -> (r: Option<FixedPoint>)
        ensures
            r == scaled_u16(self.pm1_0, 10),
    {
        scale_u16(self.pm1_0, PM_DIVISOR)
    }

    /// The PM2.5 concentration in µg/m³, if there was a reading.
    #[must_use]
    pub fn pm2_5(&self) -> (r: Option<FixedPoint>)
        ensures
            r == scaled_u16(self.pm2_5, 10),
    {
        scale_u16(self.pm2_5, PM_DIVISOR)
    }

    /// The PM4.0 concentration in µg/m³, if there was a reading.
    #[must_use]
    pub fn pm4_0(&self) -> (r: Option<FixedPoint>)
        ensures
            r == scaled_u16(self.pm4_0, 10),
    {
        scale_u16(self.pm4_0, PM_DIVISOR)
    }

    /// The PM10 concentration in µg/m³, if there was a reading.
    #[must_use]
    pub fn pm10_0(&self) -> (r: Option<FixedPoint>)
        ensures
            r == scaled_u16(self.pm10_0, 10),
    {
        scale_u16(self.pm10_0, PM_DIVISOR)
    }
}

/// The raw signals behind a measurement.
///
/// On the wire it is four groups, in the order of the fields: signed humidity
/// and temperature, then the unsigned VOC and NOx signals.
#[derive(Clone, Copy, Debug, PartialEq, Eq, Structural)]
pub struct RawSignals {
    pub humidity: Option<i16>,
    pub temp: Option<i16>,
    pub voc: Option<u16>,
    pub nox: Option<u16>,
}

impl RawSignals {
    /// The signals that the data bytes of a frame hold.
    pub open spec fn readings(s: Seq<u8>) -> RawSignals {
        RawSignals {
            humidity: reading_i16(s[0], s[1]),
            temp: reading_i16(s[3], s[4]),
            voc: reading_u16(s[6], s[7]),
            nox: reading_u16(s[9], s[10]),
        }
    }

    /// What a raw-signals frame decodes to: its signals if all four checksums
    /// match, and a checksum error otherwise.
    pub open spec fn from_wire(s: Seq<u8>) -> Result<RawSignals, DecodeError> {
        if groups_valid(s, 4) {
            Ok(Self::readings(s))
        } else {
            Err(DecodeError::Crc)
        }
    }

    /// Decodes a raw-signals frame.
    pub fn decode(buf: &[u8; 12]) -> (r: Result<Self, DecodeError>)
        ensures
            r == Self::from_wire(buf@),
    {
        let s = buf.as_slice();
        let humidity = match word_i16(s, 0) { Ok(v) => v, Err(e) => { return Err(e); } };
        let temp = match word_i16(s, 1) { Ok(v) => v, Err(e) => { return Err(e); } };
        let voc = match word_u16(s, 2) { Ok(v) => v, Err(e) => { return Err(e); } };
        let nox = match word_u16(s, 3) { Ok(v) => v, Err(e) => { return Err(e); } };
        Ok(RawSignals { humidity, temp, voc, nox })
    }

    /// The raw temperature in degrees Celsius, if there was a reading.
    #[must_use]
    pub fn raw_temp_c(&self) -> (r: Option<FixedPoint>)
        ensures
            r == scaled_i16(self.temp, 200),
    {
        scale_i16(self.temp, TEMPERATURE_DIVISOR)
    }

    /// The raw relative humidity in percent, if there was a reading.
    #[must_use]
    pub fn raw_relative_humidity(&self) -> (r: Option<FixedPoint>)
        ensures
            r == scaled_i16(self.humidity, 100),
    {
        scale_i16(self.humidity, HUMIDITY_DIVISOR)
    }

    /// The raw VOC signal, if there was one. It has no unit.
    #[must_use]
    pub fn raw_voc_signal(&self) -> (r: Option<u16>)
        ensures
            r == self.voc,
    {
        self.voc
    }

    /// The raw NOx signal, if there was one. It has no unit, and is absent
    /// for the first seconds after power-up.
    #[must_use]
    pub fn nox_index(&self) -> (r: Option<u16>)
        ensures
            r == self.nox,
    {
        self.nox
    }
}

/// The frame that carries a warm-start parameter: the value, big-endian, and
/// the checksum of its two bytes.
pub open spec fn warm_start_frame(param: u16) -> Seq<u8> {
    let hi = (param / 256) as u8;
    let lo = (param % 256) as u8;
    seq![hi, lo, word_crc(hi, lo)]
}

/// What a warm-start frame decodes to. Every value is a parameter: none
/// stands for "absent".
pub open spec fn warm_start_from_wire(s: Seq<u8>) -> Result<u16, DecodeError> {
    if group_valid(s, 0) {
        Ok(be_u16(s[0], s[1]) as u16)
    } else {
        Err(DecodeError::Crc)
    }
}

/// Encodes a warm-start parameter.
pub fn encode_warm_start_parameter(param: u16) -> (r: [u8; 3])
    ensures
        r@ == warm_start_frame(param),
{
    let hi = (param / 256) as u8;
    let lo = (param % 256) as u8;
    let r = [hi, lo, checksum([hi, lo])];
    assert(r@ =~= warm_start_frame(param));
    r
}

/// Decodes a warm-start parameter.
pub fn decode_warm_start_parameter(buf: &[u8; 3]) -> (r: Result<u16, DecodeError>)
    ensures
        r == warm_start_from_wire(buf@),
{
    match checked_word(buf.as_slice(), 0) {
        Ok((hi, lo)) => Ok(u16_from_be(hi, lo)),
        Err(e) => Err(e),
    }
}

/// A warm-start parameter that is encoded and decoded again is the same
/// parameter.
pub proof fn lemma_warm_start_round_trip(param: u16)
    ensures
        warm_start_from_wire(warm_start_frame(param)) == Ok::<u16, DecodeError>(param),
{
}

/// A measurement frame with all checksums right decodes to its readings, and
/// with any one bit of any checksum byte flipped it is refused as a checksum
/// mismatch.
pub proof fn lemma_measurement_checksums(s: Seq<u8>, g: int, bit: u8)
    requires
        s.len() == 24,
        groups_valid(s, 8),
        0 <= g < 8,
        bit < 8,
    ensures
        Measurements::from_wire(s) == Ok::<Measurements, DecodeError>(Measurements::readings(s)),
        Measurements::from_wire(s.update(3 * g + 2, s[3 * g + 2] ^ (1u8 << bit))) == Err::<
            Measurements,
            DecodeError,
        >(DecodeError::Crc),
{
    lemma_frame_checksum_flip(s, 8, g, bit);
}

/// A raw-signals frame with all checksums right decodes to its signals, and
/// with any one bit of any checksum byte flipped it is refused as a checksum
/// mismatch.
pub proof fn lemma_raw_signals_checksums(s: Seq<u8>, g: int, bit: u8)
    requires
        s.len() == 12,
        groups_valid(s, 4),
        0 <= g < 4,
        bit < 8,
    ensures
        RawSignals::from_wire(s) == Ok::<RawSignals, DecodeError>(RawSignals::readings(s)),
        RawSignals::from_wire(s.update(3 * g + 2, s[3 * g + 2] ^ (1u8 << bit))) == Err::<
            RawSignals,
            DecodeError,
        >(DecodeError::Crc),
{
    lemma_frame_checksum_flip(s, 4, g, bit);
}

/// The frames of one group: a warm-start frame that carries the checksum of
/// its value decodes to that value, and a data-ready frame `00 00` or `00 01`
/// with its checksum to the flag. With any one bit of the checksum byte
/// flipped each is refused as a checksum mismatch, whatever its data bytes.
pub proof fn lemma_single_group_checksum(hi: u8, lo: u8, bit: u8)
    requires
        bit < 8,
    ensures
        warm_start_from_wire(seq![hi, lo, word_crc(hi, lo)]) == Ok::<u16, DecodeError>(
            be_u16(hi, lo) as u16,
        ),
        warm_start_from_wire(seq![hi, lo, word_crc(hi, lo) ^ (1u8 << bit)]) == Err::<
            u16,
            DecodeError,
        >(DecodeError::Crc),
        hi == 0 && lo <= 1 ==> DataReady::from_wire(seq![hi, lo, word_crc(hi, lo)]) == Ok::<
            DataReady,
            DecodeError,
        >(DataReady(lo == 1)),
        DataReady::from_wire(seq![hi, lo, word_crc(hi, lo) ^ (1u8 << bit)]) == Err::<
            DataReady,
            DecodeError,
        >(DecodeError::Crc),
{
    lemma_flipped_bit_differs(word_crc(hi, lo), bit);
}

} // verus!
