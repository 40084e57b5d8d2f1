use sen5x::driver::{
    decode_response, poll_again_after, to_array, AsyncSen5x, Operation, Outcome, Response,
};
use sen5x::cmd::{Command, ResponseKind};
use sen5x::msg::{DecodeError, MessageReason};
use sen5x::{Error, Mode, ParticulateMode};

#[derive(Debug, PartialEq)]
struct BusFault(u8);

fn crc(hi: u8, lo: u8) -> u8 {
    sensirion_i2c::crc8::calculate(&[hi, lo])
}

fn frame(words: &[u16]) -> Vec<u8> {
    let mut out = Vec::new();
    for w in words {
        let [hi, lo] = w.to_be_bytes();
        out.extend_from_slice(&[hi, lo, crc(hi, lo)]);
    }
    out
}

fn sent() -> Outcome<BusFault> {
    Outcome::Completed(Vec::new())
}

fn measuring() -> AsyncSen5x<()> {
    let mut drv = AsyncSen5x::new(());
    drv.start_measurement(ParticulateMode::Enabled, sent()).unwrap();
    drv
}

#[test]
fn new_driver_is_idle_at_the_default_address() {
    let drv = AsyncSen5x::new(());
    assert_eq!(drv.mode(), Mode::Idle);
    assert_eq!(drv.particulates(), ParticulateMode::Enabled);
    assert_eq!(drv.address(), 0x69);
}

#[test]
fn address_can_be_changed() {
    let drv = AsyncSen5x::new(()).with_i2c_address(0x42);
    assert_eq!(drv.address(), 0x42);
    assert_eq!(drv.mode(), Mode::Idle);
    let req = drv.begin::<BusFault>(Operation::DataReady).unwrap();
    assert_eq!(req.addr, 0x42);
}

#[test]
fn bus_is_handed_out() {
    let mut drv = AsyncSen5x::new(7u32);
    *drv.bus() += 1;
    assert_eq!(*drv.bus(), 8);
    assert_eq!(drv.mode(), Mode::Idle);
}

#[test]
fn mode_check() {
    assert!(Mode::Idle.check::<BusFault>(Mode::Idle).is_ok());
    assert!(Mode::Measuring.check::<BusFault>(Mode::Measuring).is_ok());
    assert!(matches!(
        Mode::Idle.check::<BusFault>(Mode::Measuring),
        Err(Error::WrongMode(Mode::Measuring))
    ));
    assert!(matches!(
        Mode::Measuring.check::<BusFault>(Mode::Idle),
        Err(Error::WrongMode(Mode::Idle))
    ));
}

#[test]
fn command_request() {
    let drv = AsyncSen5x::new(());
    let req = drv.begin::<BusFault>(Operation::DataReady).unwrap();
    assert_eq!(req.addr, 0x69);
    assert_eq!(req.frame, vec![0x02, 0x02]);
    assert_eq!(req.settle_ms, 20);
    assert_eq!(req.response_len, 3);

    let req = drv.begin::<BusFault>(Operation::StopMeasurement).unwrap();
    assert_eq!(req.frame, vec![0x01, 0x04]);
    assert_eq!(req.settle_ms, 200);
    assert_eq!(req.response_len, 0);

    let req = drv.begin::<BusFault>(Operation::Reset).unwrap();
    assert_eq!(req.frame, vec![0xd3, 0x04]);
    assert_eq!(req.settle_ms, 100);
    assert_eq!(req.response_len, 0);

    let req = drv.begin::<BusFault>(Operation::ReadProductName).unwrap();
    assert_eq!(req.frame, vec![0xd0, 0x14]);
    assert_eq!(req.response_len, 47);

    let req = drv.begin::<BusFault>(Operation::ReadSerialNumber).unwrap();
    assert_eq!(req.frame, vec![0xd0, 0x33]);
    assert_eq!(req.response_len, 47);

    let req = drv.begin::<BusFault>(Operation::ReadVersion).unwrap();
    assert_eq!(req.frame, vec![0xd1, 0x00]);
    assert_eq!(req.response_len, 12);
}

#[test]
fn requests_by_kind_of_command() {
    let drv = AsyncSen5x::new(()).with_i2c_address(0x10);
    let req = drv.write_command(Command::StartFanCleaning);
    assert_eq!((req.addr, req.settle_ms, req.response_len), (0x10, 20, 0));
    assert_eq!(req.frame, vec![0x56, 0x07]);
    let req = drv.read_command(Command::ReadRawSignals);
    assert_eq!((req.addr, req.settle_ms, req.response_len), (0x10, 20, 12));
    assert_eq!(req.frame, vec![0x03, 0xd2]);
    let req = drv.write_data_command(Command::WarmStartParameter, 0x0102);
    assert_eq!((req.addr, req.settle_ms, req.response_len), (0x10, 20, 0));
    assert_eq!(req.frame, vec![0x60, 0xc6, 0x01, 0x02, crc(0x01, 0x02)]);
    assert_eq!(Some(req.frame.len()), Command::WarmStartParameter.request_len());
}

#[test]
fn operations_and_their_commands() {
    assert_eq!(Operation::DataReady.command(), Command::ReadDataReady);
    assert_eq!(Operation::WaitForData.command(), Command::ReadDataReady);
    assert_eq!(Operation::SetWarmStartParameter(9).command(), Command::WarmStartParameter);
    assert_eq!(Operation::SetWarmStartParameter(9).response(), None);
    assert_eq!(
        Operation::ReadWarmStartParameter.response(),
        Some(ResponseKind::WarmStartParameter)
    );
    assert_eq!(Operation::ReadSerialNumber.response(), Some(ResponseKind::Text));
}

#[test]
fn serial_number_and_version_through_the_driver() {
    let mut drv = AsyncSen5x::new(());
    let mut bytes = frame(&[0x3041, 0x4200]);
    bytes.resize(47, 0);
    let serial = drv.read_serial_number::<BusFault>(Outcome::Completed(bytes)).unwrap();
    assert_eq!(serial.as_str(), "0AB");
    let mut version = vec![0u8, 7, 0, 0, 1, 4, 0, 5, 1, 0, 3];
    version.push(sensirion_i2c::crc8::calculate(&version));
    let v = drv.read_version::<BusFault>(Outcome::Completed(version)).unwrap();
    assert!(v.supports_full_pm_values());
    assert!(v.firmware_debug);
}

#[test]
fn start_measurement_picks_the_opcode() {
    let drv = AsyncSen5x::new(());
    let req = drv.begin::<BusFault>(Operation::StartMeasurement(ParticulateMode::Enabled)).unwrap();
    assert_eq!(req.frame, vec![0x00, 0x21]);
    assert_eq!(req.settle_ms, 50);
    assert_eq!(req.response_len, 0);
    let req =
        drv.begin::<BusFault>(Operation::StartMeasurement(ParticulateMode::Disabled)).unwrap();
    assert_eq!(req.frame, vec![0x00, 0x37]);
    assert_eq!(req.settle_ms, 50);
}

#[test]
fn warm_start_parameter_request() {
    let drv = AsyncSen5x::new(());
    let req = drv.begin::<BusFault>(Operation::SetWarmStartParameter(0xbeef)).unwrap();
    assert_eq!(req.frame, vec![0x60, 0xc6, 0xbe, 0xef, 0x92]);
    assert_eq!(req.settle_ms, 20);
    assert_eq!(req.response_len, 0);

    let req = drv.begin::<BusFault>(Operation::ReadWarmStartParameter).unwrap();
    assert_eq!(req.frame, vec![0x60, 0xc6]);
    assert_eq!(req.response_len, 3);
}

#[test]
fn warm_start_parameter_written_then_read_back() {
    let mut drv = AsyncSen5x::new(());
    let req = drv.begin::<BusFault>(Operation::SetWarmStartParameter(12345)).unwrap();
    drv.set_warm_start_parameter::<BusFault>(12345, sent()).unwrap();
    let echoed = req.frame[2..].to_vec();
    assert_eq!(drv.read_warm_start_parameter::<BusFault>(Outcome::Completed(echoed)).unwrap(), 12345);
}

#[test]
fn warm_start_parameter_only_while_idle() {
    let mut drv = measuring();
    assert!(matches!(
        drv.begin::<BusFault>(Operation::SetWarmStartParameter(1)),
        Err(Error::WrongMode(Mode::Idle))
    ));
    assert!(matches!(
        drv.set_warm_start_parameter::<BusFault>(1, sent()),
        Err(Error::WrongMode(Mode::Idle))
    ));
    drv.stop_measurement::<BusFault>(sent()).unwrap();
    assert!(drv.begin::<BusFault>(Operation::SetWarmStartParameter(1)).is_ok());
    assert!(drv.set_warm_start_parameter::<BusFault>(1, sent()).is_ok());
}

#[test]
fn mode_guard_follows_start_and_stop() {
    let mut drv = AsyncSen5x::new(());
    let reading = frame(&[1, 2, 3, 4, 5, 6, 7, 8]);

    assert!(matches!(
        drv.begin::<BusFault>(Operation::ReadMeasurements),
        Err(Error::WrongMode(Mode::Measuring))
    ));
    assert!(matches!(
        drv.read_measurements::<BusFault>(Outcome::Completed(reading.clone())),
        Err(Error::WrongMode(Mode::Measuring))
    ));

    drv.start_measurement::<BusFault>(ParticulateMode::Enabled, sent()).unwrap();
    assert_eq!(drv.mode(), Mode::Measuring);
    let req = drv.begin::<BusFault>(Operation::ReadMeasurements).unwrap();
    assert_eq!(req.frame, vec![0x03, 0xc4]);
    assert_eq!(req.settle_ms, 20);
    assert_eq!(req.response_len, 24);
    let m = drv.read_measurements::<BusFault>(Outcome::Completed(reading.clone())).unwrap();
    assert_eq!(m.pm1_0, Some(1));
    assert_eq!(m.nox, Some(8));

    drv.stop_measurement::<BusFault>(sent()).unwrap();
    assert_eq!(drv.mode(), Mode::Idle);
    assert!(matches!(
        drv.begin::<BusFault>(Operation::ReadMeasurements),
        Err(Error::WrongMode(Mode::Measuring))
    ));
    assert!(matches!(
        drv.read_measurements::<BusFault>(Outcome::Completed(reading)),
        Err(Error::WrongMode(Mode::Measuring))
    ));
}

#[test]
fn every_measuring_only_operation_is_guarded() {
    let idle = AsyncSen5x::new(());
    let busy = measuring();
    for op in [
        Operation::ReadMeasurements,
        Operation::ReadRawSignals,
        Operation::StartFanCleaning,
        Operation::WaitForData,
    ] {
        assert_eq!(op.required_mode(), Some(Mode::Measuring));
        assert!(matches!(idle.begin::<BusFault>(op), Err(Error::WrongMode(Mode::Measuring))));
        assert!(busy.begin::<BusFault>(op).is_ok());
    }
    for op in [
        Operation::DataReady,
        Operation::StartMeasurement(ParticulateMode::Enabled),
        Operation::StopMeasurement,
        Operation::ReadWarmStartParameter,
        Operation::Reset,
        Operation::ReadProductName,
        Operation::ReadSerialNumber,
        Operation::ReadVersion,
    ] {
        assert_eq!(op.required_mode(), None);
        assert!(idle.begin::<BusFault>(op).is_ok());
        assert!(busy.begin::<BusFault>(op).is_ok());
    }
}

#[test]
fn reset_leads_to_idle_from_either_mode() {
    let mut drv = measuring();
    drv.reset::<BusFault>(sent()).unwrap();
    assert_eq!(drv.mode(), Mode::Idle);
    drv.reset::<BusFault>(sent()).unwrap();
    assert_eq!(drv.mode(), Mode::Idle);
}

#[test]
fn start_measurement_records_the_particulate_mode() {
    let mut drv = AsyncSen5x::new(());
    drv.start_measurement::<BusFault>(ParticulateMode::Disabled, sent()).unwrap();
    assert_eq!(drv.mode(), Mode::Measuring);
    assert_eq!(drv.particulates(), ParticulateMode::Disabled);
    drv.stop_measurement::<BusFault>(sent()).unwrap();
    assert_eq!(drv.particulates(), ParticulateMode::Disabled);
}

#[test]
fn failed_start_stop_and_reset_leave_the_mode() {
    let mut drv = AsyncSen5x::new(());
    let r = drv.start_measurement(ParticulateMode::Disabled, Outcome::WriteFailed(BusFault(1)));
    assert!(matches!(r, Err(Error::I2cWrite(BusFault(1)))));
    assert_eq!(drv.mode(), Mode::Idle);
    assert_eq!(drv.particulates(), ParticulateMode::Enabled);

    let mut drv = measuring();
    let r = drv.stop_measurement(Outcome::WriteFailed(BusFault(2)));
    assert!(matches!(r, Err(Error::I2cWrite(BusFault(2)))));
    assert_eq!(drv.mode(), Mode::Measuring);
    let r = drv.reset(Outcome::WriteFailed(BusFault(3)));
    assert!(matches!(r, Err(Error::I2cWrite(BusFault(3)))));
    assert_eq!(drv.mode(), Mode::Measuring);
}

#[test]
fn data_ready_scenario() {
    let mut drv = AsyncSen5x::new(());
    let r = drv.data_ready::<BusFault>(Outcome::Completed(vec![0x00, 0x01, crc(0x00, 0x01)]));
    assert!(matches!(r, Ok(true)));
    let r = drv.data_ready::<BusFault>(Outcome::Completed(vec![0x00, 0x00, crc(0x00, 0x00)]));
    assert!(matches!(r, Ok(false)));
    let r = drv.data_ready::<BusFault>(Outcome::Completed(vec![0x00, 0x02, crc(0x00, 0x02)]));
    match r {
        Err(Error::Decode(DecodeError::Msg(e))) => {
            assert!(matches!(e.reason, MessageReason::DataReadyFlag))
        }
        other => panic!("{:?}", other),
    }
}

#[test]
fn bus_failures_are_handed_on() {
    let mut drv = AsyncSen5x::new(());
    assert!(matches!(
        drv.data_ready(Outcome::WriteFailed(BusFault(4))),
        Err(Error::I2cWrite(BusFault(4)))
    ));
    assert!(matches!(
        drv.data_ready(Outcome::ReadFailed(BusFault(5))),
        Err(Error::I2cRead(BusFault(5)))
    ));
    assert!(matches!(
        drv.read_product_name(Outcome::ReadFailed(BusFault(6))),
        Err(Error::I2cRead(BusFault(6)))
    ));
}

#[test]
fn decode_failure_is_handed_on() {
    let mut drv = measuring();
    let mut reading = frame(&[1, 2, 3, 4, 5, 6, 7, 8]);
    reading[23] ^= 0x40;
    assert!(matches!(
        drv.read_measurements::<BusFault>(Outcome::Completed(reading)),
        Err(Error::Decode(DecodeError::Crc))
    ));
    assert_eq!(drv.mode(), Mode::Measuring);
}

#[test]
fn wait_for_data_polls_until_ready() {
    let mut drv = measuring();
    let not_yet = vec![0x00, 0x00, crc(0x00, 0x00)];
    let ready = vec![0x00, 0x01, crc(0x00, 0x01)];
    assert!(matches!(drv.wait_for_data::<BusFault>(Outcome::Completed(not_yet.clone())), Ok(Some(20))));
    assert!(matches!(
        drv.wait_for_data_with_interval::<BusFault>(Outcome::Completed(not_yet), 75),
        Ok(Some(75))
    ));
    assert!(matches!(drv.wait_for_data::<BusFault>(Outcome::Completed(ready.clone())), Ok(None)));
    assert!(matches!(drv.wait_for_data::<BusFault>(Outcome::Completed(ready)), Ok(None)));
    assert_eq!(poll_again_after(true, 20), None);
    assert_eq!(poll_again_after(false, 20), Some(20));
}

#[test]
fn wait_for_data_only_while_measuring() {
    let mut drv = AsyncSen5x::new(());
    let ready = vec![0x00, 0x01, crc(0x00, 0x01)];
    assert!(matches!(
        drv.wait_for_data::<BusFault>(Outcome::Completed(ready)),
        Err(Error::WrongMode(Mode::Measuring))
    ));
}

#[test]
fn measure_reads_the_measurement() {
    let mut drv = measuring();
    let reading = frame(&[10, 25, 40, 100, 5000, 2000, 0xfff6, 0x7fff]);
    let m = drv.measure::<BusFault>(Outcome::Completed(reading)).unwrap();
    assert_eq!(m.temp, Some(2000));
    assert_eq!(m.voc, Some(-10));
    assert_eq!(m.nox, None);
}

#[test]
fn raw_signals_and_fan_cleaning_while_measuring() {
    let mut drv = measuring();
    let s = drv
        .read_raw_signals::<BusFault>(Outcome::Completed(frame(&[100, 200, 300, 0xffff])))
        .unwrap();
    assert_eq!(s.humidity, Some(100));
    assert_eq!(s.raw_voc_signal(), Some(300));
    assert_eq!(s.nox_index(), None);
    assert!(drv.start_fan_cleaning::<BusFault>(sent()).is_ok());
    assert_eq!(drv.mode(), Mode::Measuring);

    let mut idle = AsyncSen5x::new(());
    assert!(matches!(
        idle.start_fan_cleaning::<BusFault>(sent()),
        Err(Error::WrongMode(Mode::Measuring))
    ));
    assert!(matches!(
        idle.read_raw_signals::<BusFault>(Outcome::Completed(frame(&[1, 2, 3, 4]))),
        Err(Error::WrongMode(Mode::Measuring))
    ));
}

#[test]
fn product_name_through_the_driver() {
    let mut drv = AsyncSen5x::new(());
    let mut bytes = frame(&[0x5345, 0x4e35, 0x3500]);
    bytes.resize(47, 0);
    let name = drv.read_product_name::<BusFault>(Outcome::Completed(bytes)).unwrap();
    assert_eq!(name.as_str(), "SEN55");
}

#[test]
fn generic_finish_decodes_by_operation() {
    let mut drv = AsyncSen5x::new(());
    let r = drv.finish::<BusFault>(Operation::ReadWarmStartParameter, Outcome::Completed(frame(&[7])));
    assert!(matches!(r, Ok(Response::WarmStartParameter(7))));
    let r = drv.finish::<BusFault>(Operation::Reset, sent());
    assert!(matches!(r, Ok(Response::Done)));
    let mut version = vec![2u8, 7, 0, 0, 0, 4, 0, 5, 1, 0, 3];
    version.push(sensirion_i2c::crc8::calculate(&version));
    let r = drv.finish::<BusFault>(Operation::ReadVersion, Outcome::Completed(version));
    match r {
        Ok(Response::Version(v)) => {
            assert_eq!(v.firmware.major, 2);
            assert_eq!(v.protocol.minor, 3);
            assert!(!v.firmware_debug);
        }
        other => panic!("{:?}", other),
    }
}

#[test]
fn decode_response_by_kind() {
    assert!(matches!(decode_response(None, &[]), Ok(Response::Done)));
    assert!(matches!(
        decode_response(Some(ResponseKind::DataReady), &[0, 1, crc(0, 1)]),
        Ok(Response::DataReady(true))
    ));
    assert!(matches!(
        decode_response(Some(ResponseKind::RawSignals), &[0u8; 12]),
        Err(DecodeError::Crc)
    ));
    assert_eq!(to_array::<3>(&[1, 2, 3]), [1, 2, 3]);
}
