use kiwi_sensors::bme680::registers::{
    calc_gas_wait, ChipId, CtrlGas0, CtrlGas1, CtrlHumGas, CtrlTempPres, GasCalibration,
    GasValue, HumidityCalibration, MeasurementMode, Oversampling, PressureCalibration, Reset,
    Status, TemperatureCalibration, CTRL_GAS_0, CTRL_GAS_1, CTRL_HUM, CTRL_MEAS, GAS_WAIT_0,
    RES_HEAT_0,
};
use kiwi_sensors::bme680::{forced_trigger, Bme680, Bme680Address, Config, Error, RawFields};

#[test]
fn default_config_duration() {
    let c = Config::default();
    assert_eq!(c.os_temperature, Oversampling::X2);
    assert_eq!(c.os_pressure, Oversampling::X16);
    assert_eq!(c.os_humidity, Oversampling::X1);
    assert_eq!(c.heater_temperature, 320);
    assert_eq!(c.heater_duration_ms, 100);
    assert_eq!(c.ambient_temperature, 25);
    // 1.25 + 4.6 + 37.38 + 2.88 + 100 = 146.11 ms, rounded up
    assert_eq!(c.measure_duration_ms(), 147);
}

#[test]
fn duration_without_pressure_and_humidity() {
    let c = Config {
        os_temperature: Oversampling::X1,
        os_pressure: Oversampling::Disabled,
        os_humidity: Oversampling::Disabled,
        heater_temperature: 300,
        heater_duration_ms: 0,
        ambient_temperature: 20,
    };
    // 1.25 + 2.3 = 3.55 ms
    assert_eq!(c.measure_duration_ms(), 4);
}

#[test]
fn gas_wait_encoding() {
    assert_eq!(calc_gas_wait(0), 0);
    assert_eq!(calc_gas_wait(63), 63);
    assert_eq!(calc_gas_wait(64), 16 + 64);
    assert_eq!(calc_gas_wait(100), 89);
    assert_eq!(calc_gas_wait(0xfbf), 0xfe);
    assert_eq!(calc_gas_wait(0xfc0), 0xff);
    assert_eq!(calc_gas_wait(u16::MAX), 0xff);
}

#[test]
fn gas_wait_decodes_within_one_step() {
    for d in [1u16, 50, 63, 64, 100, 255, 256, 1000, 4000, 4031] {
        let w = calc_gas_wait(d) as u32;
        let m = w % 64;
        let scale = 4u32.pow(w / 64);
        assert!(m * scale <= d as u32);
        assert!((d as u32) < (m + 1) * scale);
    }
}

#[test]
fn register_writes_default() {
    let w = Config::default().register_writes(0x73);
    assert_eq!(w[0], (CTRL_MEAS, (2 << 5) | (5 << 2)));
    assert_eq!(w[1], (CTRL_HUM, 1));
    assert_eq!(w[2], (RES_HEAT_0, 0x73));
    assert_eq!(w[3], (GAS_WAIT_0, 89));
    assert_eq!(w[4], (CTRL_GAS_0, 0));
    assert_eq!(w[5], (CTRL_GAS_1, 0x10));
    let ctrl = CtrlTempPres::from_bits(w[0].1);
    assert_eq!(ctrl.mode(), MeasurementMode::Sleep);
    assert_eq!(ctrl.pressure(), Oversampling::X16);
    assert_eq!(ctrl.temperature(), Oversampling::X2);
}

#[test]
fn forced_trigger_from_sleep_and_forced() {
    let asleep = (2 << 5) | (5 << 2);
    assert_eq!(forced_trigger(asleep), (None, asleep | 1));
    assert_eq!(forced_trigger(asleep | 1), (Some(asleep), asleep | 1));
    let t = CtrlTempPres::from_bits(forced_trigger(0xff).1);
    assert_eq!(t.mode(), MeasurementMode::Forced);
    assert_eq!(forced_trigger(0xff), (None, 0xfd));
}

#[test]
fn parse_field_data() {
    let mut buf = [0u8; 17];
    buf[2] = 0x65;
    buf[3] = 0x43;
    buf[4] = 0x20;
    buf[5] = 0x80;
    buf[6] = 0x01;
    buf[7] = 0xf0;
    buf[8] = 0x5a;
    buf[9] = 0xa5;
    buf[13] = 0xff;
    buf[14] = 0xff;
    let f = RawFields::parse(buf);
    assert_eq!(f.adc_pres, 0x65432);
    assert_eq!(f.adc_temp, 0x8001f);
    assert_eq!(f.adc_hum, 0x5aa5);
    assert_eq!(f.adc_gas, 0x3ff);
    assert_eq!(f.gas_range, 0xf);
    assert!(f.heat_stab);
    assert!(f.gasm_valid);
    assert!(f.gas_valid());
    buf[14] = 0x10;
    let f = RawFields::parse(buf);
    assert!(f.heat_stab);
    assert!(!f.gasm_valid);
    assert!(!f.gas_valid());
    assert_eq!(f.adc_gas, 0x3fc);
}

#[test]
fn oversampling_bits() {
    for o in [
        Oversampling::Disabled,
        Oversampling::X1,
        Oversampling::X2,
        Oversampling::X4,
        Oversampling::X8,
        Oversampling::X16,
    ] {
        assert_eq!(Oversampling::from_bits(o.into_bits()), o);
    }
    assert_eq!(Oversampling::from_bits(6), Oversampling::Disabled);
    assert_eq!(Oversampling::from_bits(7), Oversampling::Disabled);
    assert_eq!(Oversampling::X16.samples(), 16);
    assert_eq!(Oversampling::Disabled.samples(), 0);
    assert_eq!(MeasurementMode::from_bits(1), MeasurementMode::Forced);
    assert_eq!(MeasurementMode::from_bits(2), MeasurementMode::Sleep);
}

#[test]
fn control_registers() {
    let h = CtrlHumGas::new().with_humidity(Oversampling::X4);
    assert_eq!(h.into_bits(), 3);
    assert_eq!(h.humidity(), Oversampling::X4);
    let g1 = CtrlGas1::new().with_run_gas(true).with_index(9);
    assert_eq!(g1.into_bits(), 0x19);
    assert!(g1.run_gas());
    assert_eq!(g1.index(), 9);
    let g0 = CtrlGas0::new().with_heat_off(true);
    assert_eq!(g0.into_bits(), 0x08);
    assert!(g0.heat_off());
    assert!(!g0.with_heat_off(false).heat_off());
}

#[test]
fn gas_value_and_status() {
    let g = GasValue::from_bits(0).with_value(0x2aa);
    assert_eq!(g.value(), 0x2aa);
    assert_eq!(g.range(), 0);
    let g = GasValue::from_bits(0xff1a);
    assert_eq!(g.range(), 0xa);
    assert!(g.stable());
    assert!(!g.valid());
    let s = Status::from_bits(0b1010_0011);
    assert!(s.new_data());
    assert!(s.measuring());
    assert!(!s.gas_measuring());
    assert_eq!(s.index(), 3);
}

#[test]
fn calibration_decoding() {
    let t = TemperatureCalibration::from_registers([0x34, 0x66], [0x20, 0xff], 0x03);
    assert_eq!(t.t1, 0x6634);
    assert_eq!(t.t2, -224);
    assert_eq!(t.t3, 3);
    let h = HumidityCalibration::from_registers([0x3e, 0xa5, 0x33, 0x00, 0x2d, 0x14, 0x78, 0x9c]);
    assert_eq!(h.h1, 0x33 * 16 + 5);
    assert_eq!(h.h2, 0x3e * 16 + 0xa);
    assert_eq!(h.h4, 45);
    assert_eq!(h.h6, 0x78);
    assert_eq!(h.h7, -100);
    let g = GasCalibration::from_registers(0xec, [0x12, 0xd8], 0x12, [0x2a, 0, 0x25, 0, 0xf3]);
    assert_eq!(g.g1, -20);
    assert_eq!(g.g2, -10222);
    assert_eq!(g.g3, 18);
    assert_eq!(g.res_heat_val, 42);
    assert_eq!(g.res_heat_range, 2);
    assert_eq!(g.range_sw_err, -1);
    let p = PressureCalibration::from_registers(
        [0x1d, 0x8f],
        [0x5b, 0xd7],
        0x58,
        [0xf8, 0x23],
        [0x1f, 0xff],
        0x1e,
        0x38,
        [0xfa, 0xf7],
        [0x10, 0xf3],
        0x1e,
    );
    assert_eq!(p.p1, 0x8f1d);
    assert_eq!(p.p2, -10405);
    assert_eq!(p.p3, 88);
    assert_eq!(p.p4, 9208);
    assert_eq!(p.p5, -225);
    assert_eq!(p.p10, 30);
}

#[test]
fn chip_id_and_reset() {
    assert_eq!(ChipId::read::<()>(0x61), Ok(()));
    assert_eq!(ChipId::read::<()>(0x60), Err(Error::InvalidChipId));
    assert_eq!(Reset::reset(), (0xE0, 0xB6));
}

#[test]
fn driver_state() {
    let mut dev = Bme680::new((), Bme680Address::AddrHigh, ());
    assert_eq!(dev.meas_duration_ms(), 147);
    assert_eq!(Bme680Address::AddrLow.bits(), 0x76);
    let cfg = Config { heater_duration_ms: 30, ..Config::default() };
    let calib = dev.calibration();
    let w = dev.configure(cfg, calib, 0x10);
    assert_eq!(w[3], (GAS_WAIT_0, 30));
    assert_eq!(dev.meas_duration_ms(), 77);
    let (iface, _) = dev.io_mut();
    assert_eq!(iface.address, 0x77);
}
