//! Protocol layer for the SEN5x family of particulate-matter and gas sensors.
//!
//! The crate holds everything about the wire protocol that can be decided
//! without touching the bus: the checksum, the command catalogue, the decoders
//! for every response frame, and the driver's operating-mode state machine.
//! What each function returns is stated in its contract, and Verus proves
//! the contracts.
//!
//! The bus itself stays outside. For each operation the driver hands out a
//! [`driver::Request`], and takes back a [`driver::Outcome`] once the request
//! has been carried out.

pub mod checksum;
pub mod cmd;
pub mod driver;
pub mod kind;
pub mod measurement;
pub mod msg;
pub mod status;
pub mod text;
pub mod version;

pub use crate::driver::AsyncSen5x;
pub use crate::kind::SensorKind;
pub use crate::measurement::{Measurements, RawSignals};
pub use crate::msg::{DecodeError, MessageError, MessageReason};
pub use crate::status::SensorStatus;
pub use crate::text::RawString;
pub use crate::version::{Version, VersionInfo};
use vstd::prelude::*;

verus! {

/// The address at which the sensor answers unless configured otherwise.
pub const I2C_ADDR: u8 = 0x69;

/// What can go wrong in an operation. `E` is the bus's own error.
#[derive(Debug)]
pub enum Error<E> {
    /// The bus failed while the command was written.
    I2cWrite(E),
    /// The bus failed while the response was read.
    I2cRead(E),
    /// The response could not be decoded.
    Decode(DecodeError),
    /// The operation is only possible in the given mode, and the sensor is
    /// in the other.
    WrongMode(Mode),
}

/// What the sensor is doing.
#[derive(Clone, Copy, Debug, PartialEq, Eq, Structural)]
pub enum Mode {
    /// Not sampling.
    Idle,
    /// Sampling.
    Measuring,
}

/// Whether a measurement includes the particulate readings.
#[derive(Clone, Copy, Debug, PartialEq, Eq, Structural)]
pub enum ParticulateMode {
    Enabled,
    Disabled,
}

impl Mode {
    /// What the guard answers: nothing to object to when the sensor is in
    /// the expected mode, and else the mode that was expected.
    pub open spec fn guard<E>(self, expected: Mode) -> Result<(), Error<E>> {
        if self == expected {
            Ok(())
        } else {
            Err(Error::WrongMode(expected))
        }
    }

    /// The mode guard: refuses unless the sensor is in the expected mode.
    pub fn check<E>(self, expected: Self) -> (r: Result<(), Error<E>>)
        ensures
            r == self.guard::<E>(expected),
    {
        if self == expected {
            Ok(())
        } else {
            Err(Error::WrongMode(expected))
        }
    }
}

} // verus!
