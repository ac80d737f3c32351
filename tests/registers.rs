use pac194x::alerts::{AlertEnable, AlertStatus, GpioAlert2, SlowAlert1};
use pac194x::control::{AccumConfig, AccumConfigLat, Ctrl, CtrlAct, CtrlLat, NegPwrFsr, Slow, SmbusSettings};
use pac194x::error::DecodingError;
use pac194x::fields::{AccFullness, AccumSetting, Channels, GpioAlert, SampleCount, SampleMode, VBusFSR, VSenseFSR};
use pac194x::limits::{AccFullnessLimits, OcLimitNSamples, OcLimitn, OpLimitn, UvLimitn};
use pac194x::measurement::{AccCount, Vaccn, Vbusn, Vpowern};
use pac194x::register::{Address, Register};

fn sample_ctrl() -> Ctrl {
    Ctrl {
        sample_mode: SampleMode::_256,
        gpio_alert2: GpioAlert::Input,
        slow_alert1: GpioAlert::Output,
        channel_n_off: Channels {
            _1: false,
            _2: true,
            _3: false,
            _4: false,
        },
    }
}

#[test]
fn addr_values() {
    assert_eq!(Address::AlertEnable.value(), 0x49);
    assert_eq!(Address::RevisionId.value(), 0xFF);
}

#[test]
fn round_trip_ctrl() {
    let ctrl = sample_ctrl();
    let bytes = ctrl.pack();
    assert_eq!(ctrl, Ctrl::unpack(&bytes).unwrap());
}

#[test]
fn regs_round_trip_ctrl() {
    let ctrl = Ctrl {
        sample_mode: SampleMode::_256,
        gpio_alert2: GpioAlert::Input,
        slow_alert1: GpioAlert::Output,
        channel_n_off: Channels {
            _1: false,
            _2: true,
            _3: false,
            _4: false,
        },
    };
    let bytes = ctrl.pack();
    assert_eq!(ctrl, Ctrl::unpack(&bytes).unwrap());
}

#[test]
fn round_trip_acc_count() {
    let acc_count = AccCount { count: 2459526763 };
    let bytes = acc_count.pack();
    assert_eq!(acc_count, AccCount::unpack(&bytes).unwrap());
}

#[test]
fn regs_round_trip_acc_count() {
    let acc_count = AccCount { count: 2459526763 };
    let bytes = acc_count.pack();
    assert_eq!(acc_count, AccCount::unpack(&bytes).unwrap());
}

#[test]
fn ctrl_packs_to_fixed_bytes() {
    assert_eq!(sample_ctrl().pack(), vec![0x56, 0x40]);
    assert_eq!(Ctrl::unpack(&[0x56, 0x40]).unwrap(), sample_ctrl());
}

#[test]
fn ctrl_images_share_the_layout() {
    let a = CtrlAct::unpack(&[0x56, 0x40]).unwrap();
    assert_eq!(a.sample_mode, SampleMode::_256);
    assert_eq!(a.pack(), vec![0x56, 0x40]);
    let l = CtrlLat::unpack(&[0xF0, 0xF0]).unwrap();
    assert_eq!(l.sample_mode, SampleMode::Sleep);
    assert!(l.channel_n_off._1 && l.channel_n_off._4);
    assert_eq!(CtrlAct::addr().value(), 0x21);
    assert_eq!(CtrlLat::addr().value(), 0x23);
}

#[test]
fn ctrl_ignores_unused_low_bits() {
    assert_eq!(Ctrl::unpack(&[0x56, 0x4F]).unwrap(), sample_ctrl());
}

#[test]
fn undefined_sample_mode_fails() {
    // Codes 12 to 14 name no sample mode.
    assert_eq!(Ctrl::unpack(&[0xC0, 0x00]), Err(DecodingError));
    assert_eq!(Ctrl::unpack(&[0xE0, 0x00]), Err(DecodingError));
    assert_eq!(CtrlAct::unpack(&[0xD0, 0x00]), Err(DecodingError));
}

#[test]
fn undefined_range_code_fails() {
    assert_eq!(NegPwrFsr::unpack(&[0xC0, 0x00]), Err(DecodingError));
    assert_eq!(NegPwrFsr::unpack(&[0x00, 0x03]), Err(DecodingError));
    assert_eq!(AccumConfig::unpack(&[0x03]), Err(DecodingError));
    assert_eq!(AccumConfigLat::unpack(&[0xC0]), Err(DecodingError));
}

#[test]
fn neg_pwr_fsr_layout() {
    let v = NegPwrFsr {
        cfg_vs1: VSenseFSR::BipolarHV,
        cfg_vs2: VSenseFSR::Unipolar,
        cfg_vs3: VSenseFSR::Unipolar,
        cfg_vs4: VSenseFSR::BipolarLV,
        cfg_vb1: VBusFSR::Unipolar,
        cfg_vb2: VBusFSR::BipolarLV,
        cfg_vb3: VBusFSR::Unipolar,
        cfg_vb4: VBusFSR::BipolarHV,
    };
    assert_eq!(v.pack(), vec![0x42, 0x21]);
    assert_eq!(NegPwrFsr::unpack(&[0x42, 0x21]).unwrap(), v);
}

#[test]
fn accum_config_layout() {
    let v = AccumConfig {
        acc1_config: AccumSetting::VBus,
        acc2_config: AccumSetting::VPower,
        acc3_config: AccumSetting::VSense,
        acc4_config: AccumSetting::VPower,
    };
    assert_eq!(v.pack(), vec![0x84]);
    assert_eq!(AccumConfig::unpack(&[0x84]).unwrap(), v);
}

#[test]
fn sample_counts_and_fullness() {
    let v = OcLimitNSamples {
        n_samples_ch1: SampleCount::_16,
        n_samples_ch2: SampleCount::_1,
        n_samples_ch3: SampleCount::_4,
        n_samples_ch4: SampleCount::_8,
    };
    assert_eq!(v.pack(), vec![0xC6]);
    assert_eq!(OcLimitNSamples::unpack(&[0xC6]).unwrap(), v);
    let f = AccFullnessLimits {
        ch1_acc_full: AccFullness::Full,
        ch2_acc_full: AccFullness::Mostly,
        ch3_acc_full: AccFullness::Somewhat,
        ch4_acc_full: AccFullness::Partially,
        acc_count_full: AccFullness::Partially,
    };
    assert_eq!(f.pack(), vec![0x1B, 0xC0]);
    assert_eq!(AccFullnessLimits::unpack(&[0x1B, 0xC0]).unwrap(), f);
}

#[test]
fn smbus_and_slow_flags() {
    let s = SmbusSettings {
        gpio_data2: true,
        gpio_data1: false,
        any_alert: false,
        por: true,
        timeout: false,
        byte_count: false,
        no_skip: false,
        i2c_hispeed: true,
    };
    assert_eq!(s.pack(), vec![0x91]);
    assert_eq!(SmbusSettings::unpack(&[0x91]).unwrap(), s);
    let slow = Slow::unpack(&[0x83]).unwrap();
    assert!(slow.slow && slow.r_v_fall && !slow.r_fall);
    assert_eq!(slow.pack(), vec![0x82]);
}

#[test]
fn alert_flags_layout() {
    let mut e = AlertEnable::unpack(&[0, 0, 0]).unwrap();
    assert!(!e.ch1_oc && !e.alert_cc);
    e.ch1_oc = true;
    e.alert_cc = true;
    assert_eq!(e.pack(), vec![0x80, 0x00, 0x02]);
    assert_eq!(AlertEnable::unpack(&[0x80, 0x00, 0x02]).unwrap(), e);
    let s = AlertStatus::unpack(&[0x00, 0x01, 0x04]).unwrap();
    assert!(s.ch4_uv && s.acc_count && !s.acc_ovf);
    assert_eq!(s.pack(), vec![0x00, 0x01, 0x04]);
    let r1 = SlowAlert1::unpack(&[0x00, 0x80, 0x00]).unwrap();
    assert!(r1.ch1_ov);
    let r2 = GpioAlert2::unpack(&[0x00, 0x00, 0x08]).unwrap();
    assert!(r2.acc_ovf);
    assert_eq!(r2.pack(), vec![0x00, 0x00, 0x08]);
}

#[test]
fn acc_count_bytes_are_big_endian() {
    assert_eq!(AccCount { count: 2459526763 }.pack(), vec![0x92, 0x99, 0x66, 0x6B]);
}

#[test]
fn signed_limit_minus_one() {
    let l = OcLimitn { limit: -1 };
    assert_eq!(l.pack(), vec![0xFF, 0xFF]);
    assert_eq!(OcLimitn::unpack(&[0xFF, 0xFF]).unwrap().limit, -1);
    let u = UvLimitn { limit: i16::MIN };
    assert_eq!(UvLimitn::unpack(&u.pack()).unwrap(), u);
}

#[test]
fn op_limit_sign_extends_24_bits() {
    let l = OpLimitn { limit: -1 };
    assert_eq!(l.pack(), vec![0xFF, 0xFF, 0xFF]);
    assert_eq!(OpLimitn::unpack(&[0xFF, 0xFF, 0xFF]).unwrap().limit, -1);
    assert_eq!(OpLimitn::unpack(&[0x80, 0x00, 0x00]).unwrap().limit, -0x80_0000);
    assert_eq!(OpLimitn::unpack(&[0x7F, 0xFF, 0xFF]).unwrap().limit, 0x7F_FFFF);
    // Only the low 24 bits are packed.
    assert_eq!(OpLimitn { limit: 0x0100_0001 }.pack(), vec![0x00, 0x00, 0x01]);
}

#[test]
fn measurement_widths() {
    assert_eq!(Vbusn { voltage: 0x1234 }.pack(), vec![0x12, 0x34]);
    assert_eq!(Vbusn::unpack(&[0xAB, 0xCD]).unwrap().voltage, 0xABCD);
    assert_eq!(Vpowern { power: 1 }.pack(), vec![0, 0, 0, 4]);
    assert_eq!(Vpowern::unpack(&[0xFF, 0xFF, 0xFF, 0xFF]).unwrap().power, 0x3FFF_FFFF);
    let v = Vaccn { sum: 0x00AB_CDEF_0123_4567 };
    assert_eq!(v.pack(), vec![0xAB, 0xCD, 0xEF, 0x01, 0x23, 0x45, 0x67]);
    assert_eq!(Vaccn::unpack(&v.pack()).unwrap(), v);
    // Only the low 56 bits are packed.
    assert_eq!(Vaccn { sum: u64::MAX }.pack(), vec![0xFF; 7]);
}

#[test]
fn register_sizes() {
    assert_eq!(Ctrl::size(), 2);
    assert_eq!(AccCount::size(), 4);
    assert_eq!(Vaccn::size(), 7);
    assert_eq!(OpLimitn::size(), 3);
    assert_eq!(AlertStatus::size(), 3);
    assert_eq!(SmbusSettings::size(), 1);
}
