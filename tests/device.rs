use pac194x::control::{Ctrl, NegPwrFsr};
use pac194x::device::{resolve, AddrSelect, Device, ProductId, Transaction, GENERAL_CALL_ADDRESS};
use pac194x::error::{DecodingError, Error, RangeError};
use pac194x::fields::{Channels, GpioAlert, SampleMode};
use pac194x::limits::OcLimitn;
use pac194x::measurement::{Vbusn, Vpowern};

#[test]
fn resolve_channels() {
    assert_eq!(resolve(0x07, 1), Ok(0x07));
    assert_eq!(resolve(0x07, 3), Ok(0x09));
    assert_eq!(resolve(0x07, 4), Ok(0x0A));
    assert_eq!(resolve(0x07, 0), Err(RangeError));
    assert_eq!(resolve(0x07, 5), Err(RangeError));
}

#[test]
fn bus_voltage_channel_three_reads_at_0x09() {
    let dev = Device::new(AddrSelect::GND);
    let t = dev.read_request_n::<Vbusn>(3).unwrap();
    assert_eq!(t, Transaction::WriteRead { address: 0x10, bytes: vec![0x09], len: 2 });
    assert_eq!(dev.read_request_n::<Vpowern>(5), Err(RangeError));
    assert_eq!(dev.read_request_n::<Vpowern>(0), Err(RangeError));
}

#[test]
fn address_select_codes() {
    assert_eq!(Device::new(AddrSelect::GND).address(), 0x10);
    assert_eq!(Device::new(AddrSelect::_499).address(), 0x11);
    assert_eq!(Device::new(AddrSelect::VDD).address(), 0x1F);
}

#[test]
fn refresh_commands() {
    let dev = Device::new(AddrSelect::_806);
    assert_eq!(dev.refresh(), Transaction::Write { address: 0x12, bytes: vec![0x00] });
    assert_eq!(dev.refresh_v(), Transaction::Write { address: 0x12, bytes: vec![0x1F] });
    assert_eq!(dev.refresh_g(), Transaction::Write { address: GENERAL_CALL_ADDRESS, bytes: vec![0x1E] });
}

#[test]
fn identity_reads() {
    let dev = Device::new(AddrSelect::GND);
    assert_eq!(
        dev.send_byte(pac194x::register::Address::RevisionId),
        Transaction::Write { address: 0x10, bytes: vec![0xFF] }
    );
    assert_eq!(dev.receive_byte(), Transaction::Read { address: 0x10, len: 1 });
    assert_eq!(ProductId::from_byte(0x68), Ok(ProductId::PAC1941_1));
    assert_eq!(ProductId::from_byte(0x6D), Ok(ProductId::PAC1942_2));
    assert_eq!(ProductId::from_byte(0x54), Err(DecodingError));
}

#[test]
fn register_writes() {
    let dev = Device::new(AddrSelect::GND);
    let ctrl = Ctrl {
        sample_mode: SampleMode::_256,
        gpio_alert2: GpioAlert::Input,
        slow_alert1: GpioAlert::Output,
        channel_n_off: Channels { _1: false, _2: true, _3: false, _4: false },
    };
    assert_eq!(dev.write_request(&ctrl), Transaction::Write { address: 0x10, bytes: vec![0x01, 0x56, 0x40] });
    let t = dev.write_request_n(&OcLimitn { limit: -1 }, 2).unwrap();
    assert_eq!(t, Transaction::Write { address: 0x10, bytes: vec![0x31, 0xFF, 0xFF] });
    assert_eq!(dev.write_request_n(&OcLimitn { limit: 1 }, 5), Err(RangeError));
    assert_eq!(dev.read_request::<NegPwrFsr>(), Transaction::WriteRead { address: 0x10, bytes: vec![0x1D], len: 2 });
}

#[test]
fn error_kinds() {
    let d: Error<u8> = Error::decoding(DecodingError);
    assert_eq!(d, Error::Decoding);
    let r: Error<u8> = Error::range(RangeError);
    assert_eq!(r, Error::Range);
}
