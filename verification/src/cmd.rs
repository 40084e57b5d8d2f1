//! The command catalogue: for every command its opcode, the time the sensor
//! needs after it, and the shape of what is written and read.

use vstd::prelude::*;

verus! {

/// The kind of frame a command is answered with.
#[derive(Clone, Copy, Debug, PartialEq, Eq, Structural)]
pub enum ResponseKind {
    /// The data-ready flag.
    DataReady,
    /// A measurement set.
    Measurements,
    /// The raw signals.
    RawSignals,
    /// A string.
    Text,
    /// The warm-start parameter.
    WarmStartParameter,
    /// The version information.
    Version,
}

/// A command of the sensor.
#[derive(Clone, Copy, Debug, PartialEq, Eq, Structural)]
pub enum Command {
    ReadDataReady,
    ReadMeasurement,
    ReadRawSignals,
    ReadProductName,
    ReadSerialNumber,
    ReadVersion,
    /// Reads the warm-start parameter, or writes it when sent with an
    /// argument.
    WarmStartParameter,
    StartMeasurement,
    StartMeasurementNoParticulates,
    StopMeasurement,
    StartFanCleaning,
    Reset,
}

impl ResponseKind {
    /// The length of such a frame in bytes.
    pub open spec fn spec_len(self) -> usize {
        match self {
            ResponseKind::DataReady => 3,
            ResponseKind::Measurements => 24,
            ResponseKind::RawSignals => 12,
            ResponseKind::Text => 47,
            ResponseKind::WarmStartParameter => 3,
            ResponseKind::Version => 12,
        }
    }

    /// The length of such a frame in bytes.
    pub fn len(self) -> (r: usize)
        ensures
            r == self.spec_len(),
    {
        match self {
            ResponseKind::DataReady => 3,
            ResponseKind::Measurements => 24,
            ResponseKind::RawSignals => 12,
            ResponseKind::Text => 47,
            ResponseKind::WarmStartParameter => 3,
            ResponseKind::Version => 12,
        }
    }
}

impl Command {
    /// The command's opcode.
    pub open spec fn spec_opcode(self) -> u16 {
        match self {
            Command::ReadDataReady => 0x0202,
            Command::ReadMeasurement => 0x03c4,
            Command::ReadRawSignals => 0x03d2,
            Command::ReadProductName => 0xd014,
            Command::ReadSerialNumber => 0xd033,
            Command::ReadVersion => 0xd100,
            Command::WarmStartParameter => 0x60c6,
            Command::StartMeasurement => 0x0021,
            Command::StartMeasurementNoParticulates => 0x0037,
            Command::StopMeasurement => 0x0104,
            Command::StartFanCleaning => 0x5607,
            Command::Reset => 0xd304,
        }
    }

    /// How long the sensor needs after the command, in milliseconds.
    pub open spec fn spec_execution_ms(self) -> u32 {
        match self {
            Command::StartMeasurement => 50,
            Command::StartMeasurementNoParticulates => 50,
            Command::StopMeasurement => 200,
            Command::Reset => 100,
            _ => 20,
        }
    }

    /// The kind of frame the command is answered with, if it is answered.
    pub open spec fn spec_response(self) -> Option<ResponseKind> {
        match self {
            Command::ReadDataReady => Some(ResponseKind::DataReady),
            Command::ReadMeasurement => Some(ResponseKind::Measurements),
            Command::ReadRawSignals => Some(ResponseKind::RawSignals),
            Command::ReadProductName => Some(ResponseKind::Text),
            Command::ReadSerialNumber => Some(ResponseKind::Text),
            Command::ReadVersion => Some(ResponseKind::Version),
            Command::WarmStartParameter => Some(ResponseKind::WarmStartParameter),
            _ => None,
        }
    }

    /// The length of the frame that sends the command with an argument, for
    /// the one command that takes one: opcode, argument and checksum.
    pub open spec fn spec_request_len(self) -> Option<usize> {
        match self {
            Command::WarmStartParameter => Some(5),
            _ => None,
        }
    }

    /// The two bytes that send the command: its opcode, big-endian.
    pub open spec fn spec_bytes(self) -> Seq<u8> {
        seq![(self.spec_opcode() / 256) as u8, (self.spec_opcode() % 256) as u8]
    }

    /// The command's opcode.
    pub fn opcode(self) -> (r: u16)
        ensures
            r == self.spec_opcode(),
    {
        match self {
            Command::ReadDataReady => 0x0202,
            Command::ReadMeasurement => 0x03c4,
            Command::ReadRawSignals => 0x03d2,
            Command::ReadProductName => 0xd014,
            Command::ReadSerialNumber => 0xd033,
            Command::ReadVersion => 0xd100,
            Command::WarmStartParameter => 0x60c6,
            Command::StartMeasurement => 0x0021,
            Command::StartMeasurementNoParticulates => 0x0037,
            Command::StopMeasurement => 0x0104,
            Command::StartFanCleaning => 0x5607,
            Command::Reset => 0xd304,
        }
    }

    /// The two bytes that send the command.
    pub fn bytes(self) -> (r: [u8; 2])
        ensures
            r@ == self.spec_bytes(),
    {
        let op = self.opcode();
        let r = [(op / 256) as u8, (op % 256) as u8];
        assert(r@ =~= self.spec_bytes());
        r
    }

    /// How long the sensor needs after the command, in milliseconds.
    pub fn execution_ms(self) -> (r: u32)
        ensures
            r == self.spec_execution_ms(),
    {
        match self {
            Command::StartMeasurement => 50,
            Command::StartMeasurementNoParticulates => 50,
            Command::StopMeasurement => 200,
            Command::Reset => 100,
            _ => 20,
        }
    }

    /// The kind of frame the command is answered with, if it is answered.
    pub fn response(self) -> (r: Option<ResponseKind>)
        ensures
            r == self.spec_response(),
    {
        match self {
            Command::ReadDataReady => Some(ResponseKind::DataReady),
            Command::ReadMeasurement => Some(ResponseKind::Measurements),
            Command::ReadRawSignals => Some(ResponseKind::RawSignals),
            Command::ReadProductName => Some(ResponseKind::Text),
            Command::ReadSerialNumber => Some(ResponseKind::Text),
            Command::ReadVersion => Some(ResponseKind::Version),
            Command::WarmStartParameter => Some(ResponseKind::WarmStartParameter),
            _ => None,
        }
    }

    /// The length of the answer in bytes; zero where there is none.
    pub fn response_len(self) -> (r: usize)
        ensures
            r == match self.spec_response() {
                Some(kind) => kind.spec_len(),
                None => 0,
            },
    {
        match self.response() {
            Some(kind) => kind.len(),
            None => 0,
        }
    }

    /// The length of the frame that sends the command with an argument.
    pub fn request_len(self) -> (r: Option<usize>)
        ensures
            r == self.spec_request_len(),
    {
        match self {
            Command::WarmStartParameter => Some(5),
            _ => None,
        }
    }
}

} // verus!
