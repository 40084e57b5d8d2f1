//! The driver's decisions: which frame an operation sends, whether the
//! operating mode allows it, what its response decodes to, and which mode the
//! sensor is in afterwards.
//!
//! The driver never touches the bus. It hands out a [`Request`] that says
//! what to write, how long to wait and how much to read; whoever owns the bus
//! carries that out and reports the [`Outcome`].

use crate::cmd::{Command, ResponseKind};
use crate::measurement::{
    decode_warm_start_parameter, encode_warm_start_parameter, warm_start_frame,
    warm_start_from_wire, DataReady, Measurements, RawSignals,
};
use crate::msg::DecodeError;
use crate::text::{scan_text, RawString};
use crate::version::VersionInfo;
use crate::{Error, Mode, ParticulateMode, I2C_ADDR};
use vstd::prelude::*;

verus! {

/// How long to wait between two looks at the data-ready flag, in
/// milliseconds, unless told otherwise.
pub const POLL_INTERVAL_MS: u32 = 20;

/// One exchange with the sensor.
#[derive(Clone, Copy, Debug, PartialEq, Eq, Structural)]
pub enum Operation {
    /// Asks whether a new measurement is ready.
    DataReady,
    /// Asks the same while waiting for a measurement. Only while measuring.
    WaitForData,
    /// Starts measuring, with or without particulates.
    StartMeasurement(ParticulateMode),
    /// Stops measuring.
    StopMeasurement,
    /// Reads the warm-start parameter.
    ReadWarmStartParameter,
    /// Sets the warm-start parameter. Only while idle.
    SetWarmStartParameter(u16),
    /// Resets the sensor.
    Reset,
    /// Reads the measurement set. Only while measuring.
    ReadMeasurements,
    /// Reads the raw signals. Only while measuring.
    ReadRawSignals,
    /// Starts the fan's cleaning procedure. Only while measuring.
    StartFanCleaning,
    /// Reads the product name.
    ReadProductName,
    /// Reads the serial number.
    ReadSerialNumber,
    /// Reads the version information.
    ReadVersion,
}

/// What to do on the bus for one operation: write `frame` to `addr`, wait
/// `settle_ms` milliseconds, then read `response_len` bytes from `addr` if
/// that is not zero.
#[derive(Debug)]
pub struct Request {
    pub addr: u8,
    pub frame: Vec<u8>,
    pub settle_ms: u32,
    pub response_len: usize,
}

/// How the bus work of one operation ended.
#[derive(Debug)]
pub enum Outcome<E> {
    /// The write failed; nothing was read.
    WriteFailed(E),
    /// The write went through and the read failed.
    ReadFailed(E),
    /// Everything went through; these are the bytes read, none if the
    /// operation reads nothing.
    Completed(Vec<u8>),
}

/// What an operation gave.
#[derive(Clone, Copy, Debug)]
pub enum Response {
    /// The command was sent; it has no answer.
    Done,
    DataReady(bool),
    Measurements(Measurements),
    RawSignals(RawSignals),
    Text(RawString),
    WarmStartParameter(u16),
    Version(VersionInfo),
}

/// What a driver holds: the bus, and what it knows of its sensor.
pub struct DriverState<I> {
    pub bus: I,
    pub mode: Mode,
    pub particulates: ParticulateMode,
    pub addr: u8,
}

impl Operation {
    /// The command that the operation sends.
    pub open spec fn spec_command(self) -> Command {
        match self {
            Operation::DataReady => Command::ReadDataReady,
            Operation::WaitForData => Command::ReadDataReady,
            Operation::StartMeasurement(ParticulateMode::Enabled) => Command::StartMeasurement,
            Operation::StartMeasurement(ParticulateMode::Disabled) =>
                Command::StartMeasurementNoParticulates,
            Operation::StopMeasurement => Command::StopMeasurement,
            Operation::ReadWarmStartParameter => Command::WarmStartParameter,
            Operation::SetWarmStartParameter(_) => Command::WarmStartParameter,
            Operation::Reset => Command::Reset,
            Operation::ReadMeasurements => Command::ReadMeasurement,
            Operation::ReadRawSignals => Command::ReadRawSignals,
            Operation::StartFanCleaning => Command::StartFanCleaning,
            Operation::ReadProductName => Command::ReadProductName,
            Operation::ReadSerialNumber => Command::ReadSerialNumber,
            Operation::ReadVersion => Command::ReadVersion,
        }
    }

    /// The mode the sensor must be in for the operation, if it matters.
    pub open spec fn spec_required_mode(self) -> Option<Mode> {
        match self {
            Operation::WaitForData => Some(Mode::Measuring),
            Operation::ReadMeasurements => Some(Mode::Measuring),
            Operation::ReadRawSignals => Some(Mode::Measuring),
            Operation::StartFanCleaning => Some(Mode::Measuring),
            Operation::SetWarmStartParameter(_) => Some(Mode::Idle),
            _ => None,
        }
    }

    /// The frame that the operation writes: the opcode, and behind it the
    /// argument with its checksum where there is one.
    pub open spec fn spec_frame(self) -> Seq<u8> {
        match self {
            Operation::SetWarmStartParameter(param) => self.spec_command().spec_bytes()
                + warm_start_frame(param),
            _ => self.spec_command().spec_bytes(),
        }
    }

    /// The length of the frame that the operation writes: two bytes for a
    /// bare command, and what the catalogue says for one with an argument.
    pub open spec fn spec_frame_len(self) -> usize {
        match self {
            Operation::SetWarmStartParameter(_) => self.spec_command().spec_request_len()->Some_0,
            _ => 2,
        }
    }

    /// The kind of frame the operation reads back, if it reads.
    pub open spec fn spec_response(self) -> Option<ResponseKind> {
        match self {
            Operation::SetWarmStartParameter(_) => None,
            _ => self.spec_command().spec_response(),
        }
    }

    /// How many bytes the operation reads back.
    pub open spec fn spec_response_len(self) -> usize {
        match self.spec_response() {
            Some(kind) => kind.spec_len(),
            None => 0,
        }
    }

    /// What the driver knows after the operation has succeeded.
    pub open spec fn state_after<I>(self, before: DriverState<I>) -> DriverState<I> {
        match self {
            Operation::StartMeasurement(particulates) => DriverState {
                mode: Mode::Measuring,
                particulates,
                ..before
            },
            Operation::StopMeasurement => DriverState { mode: Mode::Idle, ..before },
            Operation::Reset => DriverState { mode: Mode::Idle, ..before },
            _ => before,
        }
    }

    /// Whether the mode guard lets the operation through in `mode`.
    pub open spec fn allowed_in(self, mode: Mode) -> bool {
        match self.spec_required_mode() {
            Some(required) => mode == required,
            None => true,
        }
    }

    /// The command that the operation sends.
    pub fn command(self) -> (r: Command)
        ensures
            r == self.spec_command(),
    {
        match self {
            Operation::DataReady => Command::ReadDataReady,
            Operation::WaitForData => Command::ReadDataReady,
            Operation::StartMeasurement(ParticulateMode::Enabled) => Command::StartMeasurement,
            Operation::StartMeasurement(ParticulateMode::Disabled) =>
                Command::StartMeasurementNoParticulates,
            Operation::StopMeasurement => Command::StopMeasurement,
            Operation::ReadWarmStartParameter => Command::WarmStartParameter,
            Operation::SetWarmStartParameter(_) => Command::WarmStartParameter,
            Operation::Reset => Command::Reset,
            Operation::ReadMeasurements => Command::ReadMeasurement,
            Operation::ReadRawSignals => Command::ReadRawSignals,
            Operation::StartFanCleaning => Command::StartFanCleaning,
            Operation::ReadProductName => Command::ReadProductName,
            Operation::ReadSerialNumber => Command::ReadSerialNumber,
            Operation::ReadVersion => Command::ReadVersion,
        }
    }

    /// The mode the sensor must be in for the operation, if it matters.
    pub fn required_mode(self) -> (r: Option<Mode>)
        ensures
            r == self.spec_required_mode(),
    {
        match self {
            Operation::WaitForData => Some(Mode::Measuring),
            Operation::ReadMeasurements => Some(Mode::Measuring),
            Operation::ReadRawSignals => Some(Mode::Measuring),
            Operation::StartFanCleaning => Some(Mode::Measuring),
            Operation::SetWarmStartParameter(_) => Some(Mode::Idle),
            _ => None,
        }
    }

    /// The kind of frame the operation reads back, if it reads.
    pub fn response(self) -> (r: Option<ResponseKind>)
        ensures
            r == self.spec_response(),
    {
        match self {
            Operation::SetWarmStartParameter(_) => None,
            _ => self.command().response(),
        }
    }
}

/// Whether `r` is what a frame `s` of the given kind decodes to; a command
/// without an answer gives [`Response::Done`].
pub open spec fn decodes_to(
    kind: Option<ResponseKind>,
    s: Seq<u8>,
    r: Result<Response, DecodeError>,
) -> bool {
    match kind {
        None => r == Ok::<Response, DecodeError>(Response::Done),
        Some(ResponseKind::DataReady) => r == match DataReady::from_wire(s) {
            Ok(ready) => Ok::<Response, DecodeError>(Response::DataReady(ready.0)),
            Err(e) => Err(e),
        },
        Some(ResponseKind::Measurements) => r == match Measurements::from_wire(s) {
            Ok(m) => Ok::<Response, DecodeError>(Response::Measurements(m)),
            Err(e) => Err(e),
        },
        Some(ResponseKind::RawSignals) => r == match RawSignals::from_wire(s) {
            Ok(m) => Ok::<Response, DecodeError>(Response::RawSignals(m)),
            Err(e) => Err(e),
        },
        Some(ResponseKind::Text) => match scan_text(s, 0, Seq::<u8>::empty()) {
            Ok(text) => r is Ok && r->Ok_0 is Text && r->Ok_0->Text_0@ == text,
            Err(e) => r == Err::<Response, DecodeError>(e),
        },
        Some(ResponseKind::WarmStartParameter) => r == match warm_start_from_wire(s) {
            Ok(param) => Ok::<Response, DecodeError>(Response::WarmStartParameter(param)),
            Err(e) => Err(e),
        },
        Some(ResponseKind::Version) => r == match VersionInfo::from_wire(s) {
            Ok(v) => Ok::<Response, DecodeError>(Response::Version(v)),
            Err(e) => Err(e),
        },
    }
}

/// The bytes that were read, where the bus work went through.
pub open spec fn read_bytes<E>(outcome: Outcome<E>) -> Seq<u8> {
    match outcome {
        Outcome::Completed(bytes) => bytes@,
        _ => Seq::empty(),
    }
}

/// What an operation gives, from the mode before it, the outcome on the bus
/// and what the bytes read decode to.
///
/// The mode guard comes first; then a failure on the bus, as it is; then the
/// decoding.
pub open spec fn exchange_result<T, E>(
    op: Operation,
    mode: Mode,
    outcome: Outcome<E>,
    decoded: Result<T, DecodeError>,
) -> Result<T, Error<E>> {
    if !op.allowed_in(mode) {
        Err(Error::WrongMode(op.spec_required_mode()->Some_0))
    } else {
        match outcome {
            Outcome::WriteFailed(e) => Err(Error::I2cWrite(e)),
            Outcome::ReadFailed(e) => Err(Error::I2cRead(e)),
            Outcome::Completed(_) => match decoded {
                Ok(value) => Ok(value),
                Err(e) => Err(Error::Decode(e)),
            },
        }
    }
}

/// The flag that a data-ready frame holds.
pub open spec fn ready_flag(s: Seq<u8>) -> Result<bool, DecodeError> {
    match DataReady::from_wire(s) {
        Ok(ready) => Ok(ready.0),
        Err(e) => Err(e),
    }
}

/// What a data-ready frame means to one who waits: `None` when the flag is
/// set, else the time to wait before the next look.
pub open spec fn wait_step(s: Seq<u8>, interval_ms: u32) -> Result<Option<u32>, DecodeError> {
    match DataReady::from_wire(s) {
        Ok(ready) => Ok(
            if ready.0 {
                None
            } else {
                Some(interval_ms)
            },
        ),
        Err(e) => Err(e),
    }
}

/// Copies a slice of the right length into an array.
pub fn to_array<const N: usize>(bytes: &[u8]) -> (r: [u8; N])
    requires
        bytes@.len() == N,
    ensures
        r@ == bytes@,
{
    let mut r = [0u8; N];
    let mut i: usize = 0;
    while i < N
        invariant
            0 <= i <= N,
            bytes@.len() == N,
            forall|j: int| 0 <= j < i ==> r@[j] == bytes@[j],
        decreases N - i,
    {
        r[i] = bytes[i];
        i += 1;
    }
    assert(r@ =~= bytes@);
    r
}

/// Decodes the frame that answers a command.
pub fn decode_response(kind: Option<ResponseKind>, bytes: &[u8]) -> (r: Result<
    Response,
    DecodeError,
>)
    requires
        kind is Some ==> bytes@.len() == kind->Some_0.spec_len(),
    ensures
        decodes_to(kind, bytes@, r),
{
    match kind {
        None => Ok(Response::Done),
        Some(ResponseKind::DataReady) => match DataReady::decode(&to_array::<3>(bytes)) {
            Ok(ready) => Ok(Response::DataReady(ready.0)),
            Err(e) => Err(e),
        },
        Some(ResponseKind::Measurements) => match Measurements::decode(&to_array::<24>(bytes)) {
            Ok(m) => Ok(Response::Measurements(m)),
            Err(e) => Err(e),
        },
        Some(ResponseKind::RawSignals) => match RawSignals::decode(&to_array::<12>(bytes)) {
            Ok(m) => Ok(Response::RawSignals(m)),
            Err(e) => Err(e),
        },
        Some(ResponseKind::Text) => match RawString::decode(&to_array::<47>(bytes)) {
            Ok(text) => Ok(Response::Text(text)),
            Err(e) => Err(e),
        },
        Some(ResponseKind::WarmStartParameter) => match decode_warm_start_parameter(
            &to_array::<3>(bytes),
        ) {
            Ok(param) => Ok(Response::WarmStartParameter(param)),
            Err(e) => Err(e),
        },
        Some(ResponseKind::Version) => match VersionInfo::decode(&to_array::<12>(bytes)) {
            Ok(v) => Ok(Response::Version(v)),
            Err(e) => Err(e),
        },
    }
}

/// What to do after a look at the data-ready flag while waiting for data:
/// nothing more if it was set, else wait `interval_ms` and look again.
pub fn poll_again_after(ready: bool, interval_ms: u32) -> (r: Option<u32>)
    ensures
        r == if ready {
            None::<u32>
        } else {
            Some(interval_ms)
        },
{
    if ready {
        None
    } else {
        Some(interval_ms)
    }
}

/// A driver for one sensor on the bus `i2c`.
pub struct AsyncSen5x<I> {
    i2c: I,
    mode: Mode,
    particulates: ParticulateMode,
    addr: u8,
}

impl<I> View for AsyncSen5x<I> {
    type V = DriverState<I>;

    closed spec fn view(&self) -> DriverState<I> {
        DriverState {
            bus: self.i2c,
            mode: self.mode,
            particulates: self.particulates,
            addr: self.addr,
        }
    }
}

impl<I> AsyncSen5x<I> {
    /// A driver for a sensor that is idle, at the default address.
    pub fn new(i2c: I) -> (r: Self)
        ensures
            r@ == (DriverState {
                bus: i2c,
                mode: Mode::Idle,
                particulates: ParticulateMode::Enabled,
                addr: 0x69,
            }),
    {
        Self { i2c, mode: Mode::Idle, particulates: ParticulateMode::Enabled, addr: I2C_ADDR }
    }

    /// The same driver for a sensor at another address, as behind a
    /// multiplexer.
    #[inline]
    #[must_use]
    pub fn with_i2c_address(self, addr: u8) -> (r: Self)
        ensures
            r@ == (DriverState { addr, ..self@ }),
    {
        let mut this = self;
        this.addr = addr;
        this
    }

    /// The mode the sensor is in.
    pub fn mode(&self) -> (r: Mode)
        ensures
            r == self@.mode,
    {
        self.mode
    }

    /// Whether the last measurement was started with particulates.
    pub fn particulates(&self) -> (r: ParticulateMode)
        ensures
            r == self@.particulates,
    {
        self.particulates
    }

    /// The sensor's address.
    pub fn address(&self) -> (r: u8)
        ensures
            r == self@.addr,
    {
        self.addr
    }

    /// The bus, to carry out a request on. What the driver knows of its
    /// sensor stays as it is.
    pub fn bus(&mut self) -> (r: &mut I)
        ensures
            *r == old(self)@.bus,
            final(self)@ == (DriverState { bus: *final(r), ..old(self)@ }),
    {
        &mut self.i2c
    }

    /// The bus work of a command that has no answer: write its opcode, then
    /// give the sensor its time.
    pub fn write_command(&self, command: Command) -> (r: Request)
        ensures
            r.addr == self@.addr,
            r.frame@ == command.spec_bytes(),
            r.settle_ms == command.spec_execution_ms(),
            r.response_len == 0,
    {
        let opcode = command.bytes();
        let mut frame: Vec<u8> = Vec::new();
        frame.push(opcode[0]);
        frame.push(opcode[1]);
        assert(frame@ =~= command.spec_bytes());
        Request { addr: self.addr, frame, settle_ms: command.execution_ms(), response_len: 0 }
    }

    /// The bus work of a command that is answered: as for one that is not,
    /// and then read the answer, whose length the catalogue gives.
    pub fn read_command(&self, command: Command) -> (r: Request)
        ensures
            r.addr == self@.addr,
            r.frame@ == command.spec_bytes(),
            r.settle_ms == command.spec_execution_ms(),
            r.response_len == match command.spec_response() {
                Some(kind) => kind.spec_len(),
                None => 0,
            },
    {
        let written = self.write_command(command);
        Request {
            addr: written.addr,
            frame: written.frame,
            settle_ms: written.settle_ms,
            response_len: command.response_len(),
        }
    }

    /// The bus work of a command that is sent with an argument: write the
    /// opcode with the argument and its checksum behind it, in one frame of
    /// the length the catalogue gives, then give the sensor its time.
    pub fn write_data_command(&self, command: Command, data: u16) -> (r: Request)
        requires
            command.spec_request_len() is Some,
        ensures
            r.addr == self@.addr,
            r.frame@ == command.spec_bytes() + warm_start_frame(data),
            r.frame@.len() == command.spec_request_len()->Some_0,
            r.settle_ms == command.spec_execution_ms(),
            r.response_len == 0,
    {
        let opcode = command.bytes();
        let arg = encode_warm_start_parameter(data);
        let mut frame: Vec<u8> = Vec::new();
        frame.push(opcode[0]);
        frame.push(opcode[1]);
        frame.push(arg[0]);
        frame.push(arg[1]);
        frame.push(arg[2]);
        assert(frame@ =~= command.spec_bytes() + warm_start_frame(data));
        Request { addr: self.addr, frame, settle_ms: command.execution_ms(), response_len: 0 }
    }

    /// Consults the mode guard for an operation, and says what it takes on
    /// the bus.
    ///
    /// An operation that the mode does not allow is refused with the mode it
    /// needs. Nothing has then been written.
    pub fn begin<E>(&self, op: Operation) -> (r: Result<Request, Error<E>>)
        ensures
            !op.allowed_in(self@.mode) ==> r == Err::<Request, Error<E>>(
                Error::WrongMode(op.spec_required_mode()->Some_0),
            ),
            op.allowed_in(self@.mode) ==> {
                &&& r is Ok
                &&& r->Ok_0.addr == self@.addr
                &&& r->Ok_0.frame@ == op.spec_frame()
                &&& r->Ok_0.frame@.len() == op.spec_frame_len()
                &&& r->Ok_0.settle_ms == op.spec_command().spec_execution_ms()
                &&& r->Ok_0.response_len == op.spec_response_len()
            },
    {
        match op.required_mode() {
            Some(required) => {
                match self.mode.check::<E>(required) {
                    Ok(()) => {},
                    Err(e) => {
                        return Err(e);
                    },
                }
            },
            None => {},
        }
        let command = op.command();
        let request = match op {
            Operation::SetWarmStartParameter(param) => self.write_data_command(command, param),
            _ => match op.response() {
                Some(_) => self.read_command(command),
                None => self.write_command(command),
            },
        };
        Ok(request)
    }

    /// Takes in how the bus work of an operation ended: decodes what was
    /// read, and moves to the mode the operation leads to if all went well.
    ///
    /// A failure on the bus or in decoding is handed on as it is, and leaves
    /// the driver as it was. So does an operation that the mode does not
    /// allow, whatever outcome is reported for it.
    pub fn finish<E>(&mut self, op: Operation, outcome: Outcome<E>) -> (r: Result<
        Response,
        Error<E>,
    >)
        requires
            outcome is Completed ==> outcome->Completed_0@.len() == op.spec_response_len(),
        ensures
            final(self)@ == if r is Ok {
                op.state_after(old(self)@)
            } else {
                old(self)@
            },
            !op.allowed_in(old(self)@.mode) ==> r == Err::<Response, Error<E>>(
                Error::WrongMode(op.spec_required_mode()->Some_0),
            ),
            op.allowed_in(old(self)@.mode) ==> match outcome {
                Outcome::WriteFailed(e) => r == Err::<Response, Error<E>>(Error::I2cWrite(e)),
                Outcome::ReadFailed(e) => r == Err::<Response, Error<E>>(Error::I2cRead(e)),
                Outcome::Completed(bytes) => match r {
                    Ok(response) => decodes_to(
                        op.spec_response(),
                        bytes@,
                        Ok::<Response, DecodeError>(response),
                    ),
                    Err(Error::Decode(e)) => decodes_to(
                        op.spec_response(),
                        bytes@,
                        Err::<Response, DecodeError>(e),
                    ),
                    Err(_) => false,
                },
            },
    {
        match op.required_mode() {
            Some(required) => {
                match self.mode.check::<E>(required) {
                    Ok(()) => {},
                    Err(e) => {
                        return Err(e);
                    },
                }
            },
            None => {},
        }
        let bytes = match outcome {
            Outcome::WriteFailed(e) => {
                return Err(Error::I2cWrite(e));
            },
            Outcome::ReadFailed(e) => {
                return Err(Error::I2cRead(e));
            },
            Outcome::Completed(bytes) => bytes,
        };
        let response = match decode_response(op.response(), bytes.as_slice()) {
            Ok(response) => response,
            Err(e) => {
                return Err(Error::Decode(e));
            },
        };
        match op {
            Operation::StartMeasurement(particulates) => {
                self.mode = Mode::Measuring;
                self.particulates = particulates;
            },
            Operation::StopMeasurement => {
                self.mode = Mode::Idle;
            },
            Operation::Reset => {
                self.mode = Mode::Idle;
            },
            _ => {},
        }
        Ok(response)
    }

    /// Takes in the outcome of [`Operation::DataReady`]: whether a new
    /// measurement is ready.
    pub fn data_ready<E>(&mut self, outcome: Outcome<E>) -> (r: Result<bool, Error<E>>)
        requires
            outcome is Completed ==> outcome->Completed_0@.len() == 3,
        ensures
            final(self)@ == old(self)@,
            r == exchange_result(
                Operation::DataReady,
                old(self)@.mode,
                outcome,
                ready_flag(read_bytes(outcome)),
            ),
    {
        match self.finish(Operation::DataReady, outcome) {
            Ok(Response::DataReady(ready)) => Ok(ready),
            Ok(_) => vstd::pervasive::unreached(),
            Err(e) => Err(e),
        }
    }

    /// Takes in the outcome of [`Operation::StartMeasurement`]: once the
    /// command has been written, the sensor is measuring.
    pub fn start_measurement<E>(
        &mut self,
        particulates: ParticulateMode,
        outcome: Outcome<E>,
    ) -> (r: Result<(), Error<E>>)
        requires
            outcome is Completed ==> outcome->Completed_0@.len() == 0,
        ensures
            final(self)@ == if r is Ok {
                DriverState { mode: Mode::Measuring, particulates, ..old(self)@ }
            } else {
                old(self)@
            },
            r == exchange_result(
                Operation::StartMeasurement(particulates),
                old(self)@.mode,
                outcome,
                Ok::<(), DecodeError>(()),
            ),
    {
        match self.finish(Operation::StartMeasurement(particulates), outcome) {
            Ok(_) => Ok(()),
            Err(e) => Err(e),
        }
    }

    /// Takes in the outcome of [`Operation::StopMeasurement`]: once the
    /// command has been written, the sensor is idle.
    pub fn stop_measurement<E>(&mut self, outcome: Outcome<E>) -> (r: Result<(), Error<E>>)
        requires
            outcome is Completed ==> outcome->Completed_0@.len() == 0,
        ensures
            final(self)@ == if r is Ok {
                DriverState { mode: Mode::Idle, ..old(self)@ }
            } else {
                old(self)@
            },
            r == exchange_result(
                Operation::StopMeasurement,
                old(self)@.mode,
                outcome,
                Ok::<(), DecodeError>(()),
            ),
    {
        match self.finish(Operation::StopMeasurement, outcome) {
            Ok(_) => Ok(()),
            Err(e) => Err(e),
        }
    }

    /// Takes in the outcome of [`Operation::ReadWarmStartParameter`]: the
    /// parameter.
    pub fn read_warm_start_parameter<E>(&mut self, outcome: Outcome<E>) -> (r: Result<
        u16,
        Error<E>,
    >)
        requires
            outcome is Completed ==> outcome->Completed_0@.len() == 3,
        ensures
            final(self)@ == old(self)@,
            r == exchange_result(
                Operation::ReadWarmStartParameter,
                old(self)@.mode,
                outcome,
                warm_start_from_wire(read_bytes(outcome)),
            ),
    {
        match self.finish(Operation::ReadWarmStartParameter, outcome) {
            Ok(Response::WarmStartParameter(param)) => Ok(param),
            Ok(_) => vstd::pervasive::unreached(),
            Err(e) => Err(e),
        }
    }

    /// Takes in the outcome of [`Operation::SetWarmStartParameter`]. The
    /// parameter can only be set while the sensor is idle.
    pub fn set_warm_start_parameter<E>(&mut self, param: u16, outcome: Outcome<E>) -> (r: Result<
        (),
        Error<E>,
    >)
        requires
            outcome is Completed ==> outcome->Completed_0@.len() == 0,
        ensures
            final(self)@ == old(self)@,
            r == exchange_result(
                Operation::SetWarmStartParameter(param),
                old(self)@.mode,
                outcome,
                Ok::<(), DecodeError>(()),
            ),
    {
        match self.finish(Operation::SetWarmStartParameter(param), outcome) {
            Ok(_) => Ok(()),
            Err(e) => Err(e),
        }
    }

    /// Takes in the outcome of [`Operation::Reset`]: once the command has
    /// been written, the sensor is idle.
    pub fn reset<E>(&mut self, outcome: Outcome<E>) -> (r: Result<(), Error<E>>)
        requires
            outcome is Completed ==> outcome->Completed_0@.len() == 0,
        ensures
            final(self)@ == if r is Ok {
                DriverState { mode: Mode::Idle, ..old(self)@ }
            } else {
                old(self)@
            },
            r == exchange_result(
                Operation::Reset,
                old(self)@.mode,
                outcome,
                Ok::<(), DecodeError>(()),
            ),
    {
        match self.finish(Operation::Reset, outcome) {
            Ok(_) => Ok(()),
            Err(e) => Err(e),
        }
    }

    /// Takes in the outcome of one [`Operation::WaitForData`] while waiting
    /// for a measurement, looking every [`POLL_INTERVAL_MS`] milliseconds.
    ///
    /// See [`Self::wait_for_data_with_interval`].
    pub fn wait_for_data<E>(&mut self, outcome: Outcome<E>) -> (r: Result<Option<u32>, Error<E>>)
        requires
            outcome is Completed ==> outcome->Completed_0@.len() == 3,
        ensures
            final(self)@ == old(self)@,
            r == exchange_result(
                Operation::WaitForData,
                old(self)@.mode,
                outcome,
                wait_step(read_bytes(outcome), 20),
            ),
    {
        self.wait_for_data_with_interval(outcome, POLL_INTERVAL_MS)
    }

    /// Takes in the outcome of one [`Operation::WaitForData`] while waiting
    /// for a measurement: `None` if the flag was set and the wait is over,
    /// else the milliseconds to wait before looking again.
    ///
    /// The measurement itself is not read here, and the flag says no more
    /// than that one was ready when the sensor was asked.
    pub fn wait_for_data_with_interval<E>(
        &mut self,
        outcome: Outcome<E>,
        interval_ms: u32,
    ) -> (r: Result<Option<u32>, Error<E>>)
        requires
            outcome is Completed ==> outcome->Completed_0@.len() == 3,
        ensures
            final(self)@ == old(self)@,
            r == exchange_result(
                Operation::WaitForData,
                old(self)@.mode,
                outcome,
                wait_step(read_bytes(outcome), interval_ms),
            ),
    {
        match self.finish(Operation::WaitForData, outcome) {
            Ok(Response::DataReady(ready)) => Ok(poll_again_after(ready, interval_ms)),
            Ok(_) => vstd::pervasive::unreached(),
            Err(e) => Err(e),
        }
    }

    /// Takes in the outcome of [`Operation::ReadMeasurements`]: the
    /// measurement set. Only while measuring.
    ///
    /// This does not wait for new data, and may give the same measurement
    /// twice.
    pub fn read_measurements<E>(&mut self, outcome: Outcome<E>) -> (r: Result<
        Measurements,
        Error<E>,
    >)
        requires
            outcome is Completed ==> outcome->Completed_0@.len() == 24,
        ensures
            final(self)@ == old(self)@,
            r == exchange_result(
                Operation::ReadMeasurements,
                old(self)@.mode,
                outcome,
                Measurements::from_wire(read_bytes(outcome)),
            ),
    {
        match self.finish(Operation::ReadMeasurements, outcome) {
            Ok(Response::Measurements(m)) => Ok(m),
            Ok(_) => vstd::pervasive::unreached(),
            Err(e) => Err(e),
        }
    }

    /// Takes in the outcome of the [`Operation::ReadMeasurements`] that
    /// follows a wait for data: the measurement set.
    pub fn measure<E>(&mut self, outcome: Outcome<E>) -> (r: Result<Measurements, Error<E>>)
        requires
            outcome is Completed ==> outcome->Completed_0@.len() == 24,
        ensures
            final(self)@ == old(self)@,
            r == exchange_result(
                Operation::ReadMeasurements,
                old(self)@.mode,
                outcome,
                Measurements::from_wire(read_bytes(outcome)),
            ),
    {
        self.read_measurements(outcome)
    }

    /// Takes in the outcome of [`Operation::ReadRawSignals`]: the raw
    /// signals. Only while measuring.
    pub fn read_raw_signals<E>(&mut self, outcome: Outcome<E>) -> (r: Result<
        RawSignals,
        Error<E>,
    >)
        requires
            outcome is Completed ==> outcome->Completed_0@.len() == 12,
        ensures
            final(self)@ == old(self)@,
            r == exchange_result(
                Operation::ReadRawSignals,
                old(self)@.mode,
                outcome,
                RawSignals::from_wire(read_bytes(outcome)),
            ),
    {
        match self.finish(Operation::ReadRawSignals, outcome) {
            Ok(Response::RawSignals(m)) => Ok(m),
            Ok(_) => vstd::pervasive::unreached(),
            Err(e) => Err(e),
        }
    }

    /// Takes in the outcome of [`Operation::StartFanCleaning`]. Only while
    /// measuring.
    pub fn start_fan_cleaning<E>(&mut self, outcome: Outcome<E>) -> (r: Result<(), Error<E>>)
        requires
            outcome is Completed ==> outcome->Completed_0@.len() == 0,
        ensures
            final(self)@ == old(self)@,
            r == exchange_result(
                Operation::StartFanCleaning,
                old(self)@.mode,
                outcome,
                Ok::<(), DecodeError>(()),
            ),
    {
        match self.finish(Operation::StartFanCleaning, outcome) {
            Ok(_) => Ok(()),
            Err(e) => Err(e),
        }
    }

    /// Takes in the outcome of [`Operation::ReadProductName`]: the name.
    pub fn read_product_name<E>(&mut self, outcome: Outcome<E>) -> (r: Result<
        RawString,
        Error<E>,
    >)
        requires
            outcome is Completed ==> outcome->Completed_0@.len() == 47,
        ensures
            final(self)@ == old(self)@,
            match exchange_result(
                Operation::ReadProductName,
                old(self)@.mode,
                outcome,
                scan_text(read_bytes(outcome), 0, Seq::<u8>::empty()),
            ) {
                Ok(text) => r is Ok && r->Ok_0@ == text,
                Err(e) => r == Err::<RawString, Error<E>>(e),
            },
    {
        match self.finish(Operation::ReadProductName, outcome) {
            Ok(Response::Text(text)) => Ok(text),
            Ok(_) => vstd::pervasive::unreached(),
            Err(e) => Err(e),
        }
    }
    /// Takes in the outcome of [`Operation::ReadSerialNumber`]: the serial
    /// number.
    pub fn read_serial_number<E>(&mut self, outcome: Outcome<E>) -> (r: Result<
        RawString,
        Error<E>,
    >)
        requires
            outcome is Completed ==> outcome->Completed_0@.len() == 47,
        ensures
            final(self)@ == old(self)@,
            match exchange_result(
                Operation::ReadSerialNumber,
                old(self)@.mode,
                outcome,
                scan_text(read_bytes(outcome), 0, Seq::<u8>::empty()),
            ) {
                Ok(text) => r is Ok && r->Ok_0@ == text,
                Err(e) => r == Err::<RawString, Error<E>>(e),
            },
    {
        match self.finish(Operation::ReadSerialNumber, outcome) {
            Ok(Response::Text(text)) => Ok(text),
            Ok(_) => vstd::pervasive::unreached(),
            Err(e) => Err(e),
        }
    }

    /// Takes in the outcome of [`Operation::ReadVersion`]: the version
    /// information.
    pub fn read_version<E>(&mut self, outcome: Outcome<E>) -> (r: Result<VersionInfo, Error<E>>)
        requires
            outcome is Completed ==> outcome->Completed_0@.len() == 12,
        ensures
            final(self)@ == old(self)@,
            r == exchange_result(
                Operation::ReadVersion,
                old(self)@.mode,
                outcome,
                VersionInfo::from_wire(read_bytes(outcome)),
            ),
    {
        match self.finish(Operation::ReadVersion, outcome) {
            Ok(Response::Version(v)) => Ok(v),
            Ok(_) => vstd::pervasive::unreached(),
            Err(e) => Err(e),
        }
    }
}

/// The mode guard over a driver's life: an operation that needs the sensor
/// to measure is refused while it is idle; it is let through once a
/// measurement has been started; and it is refused again once the
/// measurement has been stopped, or the sensor reset.
pub proof fn lemma_mode_guard<I>(
    before: DriverState<I>,
    op: Operation,
    particulates: ParticulateMode,
)
    requires
        before.mode == Mode::Idle,
        op.spec_required_mode() == Some(Mode::Measuring),
    ensures
        !op.allowed_in(before.mode),
        op.allowed_in(Operation::StartMeasurement(particulates).state_after(before).mode),
        !op.allowed_in(
            Operation::StopMeasurement.state_after(
                Operation::StartMeasurement(particulates).state_after(before),
            ).mode,
        ),
        !op.allowed_in(
            Operation::Reset.state_after(
                Operation::StartMeasurement(particulates).state_after(before),
            ).mode,
        ),
{
}

/// Only three operations change what the driver knows: starting a
/// measurement, stopping it, and a reset. None of them changes the address
/// or touches the bus.
pub proof fn lemma_mode_transitions<I>(before: DriverState<I>, op: Operation)
    ensures
        op.state_after(before).addr == before.addr,
        op.state_after(before).bus == before.bus,
        op.state_after(before).mode == Mode::Measuring <==> op is StartMeasurement || (
        before.mode == Mode::Measuring && !(op is StopMeasurement) && !(op is Reset)),
        op.state_after(before).particulates != before.particulates ==> op is StartMeasurement,
{
}

/// An operation that the mode guard refuses gives the same error whatever
/// happened on the bus: the outcome is not looked at.
pub proof fn lemma_refusal_ignores_outcome<T, E>(
    op: Operation,
    mode: Mode,
    first: Outcome<E>,
    second: Outcome<E>,
    decoded_first: Result<T, DecodeError>,
    decoded_second: Result<T, DecodeError>,
)
    requires
        !op.allowed_in(mode),
    ensures
        exchange_result(op, mode, first, decoded_first) == exchange_result(
            op,
            mode,
            second,
            decoded_second,
        ),
        exchange_result(op, mode, first, decoded_first) == Err::<T, Error<E>>(
            Error::WrongMode(op.spec_required_mode()->Some_0),
        ),
{
}

/// What is written to set a warm-start parameter, read back behind the
/// opcode as a response, is that parameter.
pub proof fn lemma_warm_start_frame_round_trip(param: u16)
    ensures
        Operation::SetWarmStartParameter(param).spec_frame().len() == 5,
        warm_start_from_wire(Operation::SetWarmStartParameter(param).spec_frame().subrange(2, 5))
            == Ok::<u16, DecodeError>(param),
        decodes_to(
            Operation::ReadWarmStartParameter.spec_response(),
            Operation::SetWarmStartParameter(param).spec_frame().subrange(2, 5),
            Ok::<Response, DecodeError>(Response::WarmStartParameter(param)),
        ),
{
    let frame = Operation::SetWarmStartParameter(param).spec_frame();
    assert(frame.subrange(2, 5) =~= warm_start_frame(param));
}

} // verus!
