use kiwi_sensors::mmc5983::registers::MMC5983_DEVICE_ID;
use kiwi_sensors::mmc5983::{
    check_product_id, finish_mag, finish_temperature, halt_writes, AnalogControl, AxisInhibit, ContinuousMeasurementFreq,
    DecimationBw, DigitalControl, MagMeasurement, MagMeasurementRaw, MeasurementTriggerControl,
    Mmc5983ConfigBuilder, Mmc5983Error, Mmc5983Sync, ModeWrites, PeriodicSetInterval,
    StatusRegister, TempMeasurementRaw, DEFAULT_I2C_ADDRESS,
};

fn raw(x: u32, y: u32, z: u32) -> MagMeasurementRaw {
    MagMeasurementRaw::new().with_x(x).with_y(y).with_z(z)
}

#[test]
fn builder_defaults() {
    let b = Mmc5983ConfigBuilder::default();
    assert_eq!(b.frequency, ContinuousMeasurementFreq::Hz1);
    assert_eq!(b.bandwidth, DecimationBw::Hz100);
    assert_eq!(b.set_interval, PeriodicSetInterval::Per100);
    assert_eq!(b.inhibit, AxisInhibit::NoAxis);
    assert!(b.irq);
    let c = b.build();
    assert_eq!(c.bandwidth, DecimationBw::Hz100);
}

#[test]
fn builder_raises_bandwidth() {
    let c = Mmc5983ConfigBuilder::default().frequency(ContinuousMeasurementFreq::Hz1000).build();
    assert_eq!(c.bandwidth, DecimationBw::Hz800);
    let c = Mmc5983ConfigBuilder::default().frequency(ContinuousMeasurementFreq::Hz200).build();
    assert_eq!(c.bandwidth, DecimationBw::Hz200);
    let c = Mmc5983ConfigBuilder::default()
        .frequency(ContinuousMeasurementFreq::Hz200)
        .bandwidth(DecimationBw::Hz400)
        .build();
    assert_eq!(c.bandwidth, DecimationBw::Hz400);
    let c = Mmc5983ConfigBuilder::default()
        .frequency(ContinuousMeasurementFreq::Hz100)
        .bandwidth(DecimationBw::Hz100)
        .inhibit(AxisInhibit::YZ)
        .set_interval(PeriodicSetInterval::Off)
        .irq(false)
        .build();
    assert_eq!(c.bandwidth, DecimationBw::Hz100);
    assert_eq!(c.inhibit, AxisInhibit::YZ);
    assert!(!c.irq);
}

#[test]
fn register_images() {
    let c = Mmc5983ConfigBuilder::default().frequency(ContinuousMeasurementFreq::Hz50).build();
    let (a, m, d) = c.to_registers();
    assert_eq!(a.to_u8(), 0);
    assert_eq!(m.to_u8(), 0x04 | 0x20);
    assert_eq!(d.to_u8(), 4 | (3 << 4) | 0x80);
    let a = AnalogControl { bw: DecimationBw::Hz800, inhibit: AxisInhibit::XYZ, sw_rst: true };
    assert_eq!(a.to_u8(), 0x80 | 0x1c | 3);
    let t = MeasurementTriggerControl {
        tm_m: true,
        tm_t: true,
        int_meas_done_en: false,
        m_set: true,
        m_reset: true,
        auto_sr_en: false,
    };
    assert_eq!(t.to_u8(), 0x1b);
    let d = DigitalControl { cm_freq: 7, cmm_en: true, prd_set: 7, en_prd_set: false };
    assert_eq!(d.to_u8(), 0x7f);
    assert_eq!(DecimationBw::Hz200.delay_us(), 4000);
    assert_eq!(PeriodicSetInterval::Off.bits(), (0, false));
}

#[test]
fn output_registers() {
    let data = [0xff, 0xff, 0x80, 0x00, 0x00, 0x01, 0b1110_0100];
    let m = MagMeasurementRaw::from_registers(data);
    assert_eq!(m.x(), 0x3ffff);
    assert_eq!(m.y(), 0x20002);
    assert_eq!(m.z(), 4 + 1);
    assert_eq!(MagMeasurementRaw::from_bits(m.into_bits()), m);
    assert_eq!(raw(1, 2, 3).into_bits(), 1 + (2 << 18) + (3 << 36));
    assert_eq!(raw(10, 21, 7).div(2), raw(5, 10, 3));
}

#[test]
fn status_and_finish() {
    let st = StatusRegister::from_u8(0b11);
    assert!(st.magmeas_done && st.tmeas_done);
    assert_eq!(st.to_u8(), 3);
    let data = [0x80, 0, 0x80, 0, 0x80, 0, 0];
    let r = finish_mag::<()>(StatusRegister::from_u8(1), data).unwrap();
    assert_eq!(r, raw(131072, 131072, 131072));
    assert_eq!(finish_mag::<()>(StatusRegister::from_u8(2), data), Err(Mmc5983Error::NotReady));
    assert_eq!(check_product_id::<()>(MMC5983_DEVICE_ID), Ok(()));
    assert_eq!(check_product_id::<()>(0), Err(Mmc5983Error::InvalidDevice));
}

#[test]
fn conversions() {
    assert_eq!(
        MagMeasurement::default(),
        MagMeasurement { x: 131072, y: 131072, z: 131072, scale: 16384 }
    );
    let m = MagMeasurement::from_raw(raw(1, 2, 3));
    assert_eq!(m, MagMeasurement { x: 1, y: 2, z: 3, scale: 16384 });
    assert_eq!(MagMeasurement::from_option(None), MagMeasurement::default());
    let d = m.sub(MagMeasurement::default());
    assert_eq!(d, MagMeasurement { x: -131071, y: -131070, z: -131069, scale: 16384 });
}

#[test]
fn offsets_cancel_set_and_reset() {
    let c = Mmc5983ConfigBuilder::default().build();
    let mut dev = Mmc5983Sync::new_with_i2c((), DEFAULT_I2C_ADDRESS, c, ());
    assert_eq!(dev.offset(), None);
    let before = dev.measurement(raw(131072 + 100, 131072, 0));
    assert_eq!((before.x, before.y, before.z), (100, 0, -131072));
    let set = raw(140000, 120001, 131072);
    let reset = raw(122144, 141999, 131074);
    dev.update_offsets(set, reset);
    assert_eq!(dev.offset(), Some(raw(131072, 131000, 131073)));
    let a = dev.measurement(set);
    let b = dev.measurement(reset);
    assert_eq!(a.x + b.x, 0);
    assert_eq!(a.y + b.y, 0);
    assert_eq!(a.z + b.z, 0);
    assert_eq!(a.x, 8928);
}

#[test]
fn continuous_mode_writes() {
    let c = Mmc5983ConfigBuilder::default().frequency(ContinuousMeasurementFreq::Hz10).build();
    let mut dev = Mmc5983Sync::new_with_spi((), c, ());
    assert!(matches!(dev.stop_writes::<()>(), Ok(ModeWrites::Nothing)));
    let on = 2 | 0x08 | (3 << 4) | 0x80;
    assert!(matches!(dev.start_writes::<()>(), Ok(ModeWrites::One(v)) if v == on));
    assert_eq!(dev.single_trigger(), Some((0x01 | 0x04 | 0x20, 8000)));
    dev.set_running(true);
    assert!(dev.running());
    assert_eq!(dev.single_trigger(), None);
    assert!(matches!(dev.start_writes::<()>(), Ok(ModeWrites::Nothing)));
    let off = (3 << 4) | 0x80;
    assert!(matches!(dev.stop_writes::<()>(), Ok(ModeWrites::Two(a, b)) if a == on && b == off));
}

#[test]
fn continuous_mode_needs_frequency() {
    let c = Mmc5983ConfigBuilder::default().frequency(ContinuousMeasurementFreq::Off).build();
    let mut dev = Mmc5983Sync::new_with_spi((), c, ());
    assert!(matches!(dev.start_writes::<()>(), Err(Mmc5983Error::InvalidConfig)));
    dev.set_running(true);
    assert!(matches!(dev.stop_writes::<()>(), Err(Mmc5983Error::InvalidConfig)));
}

#[test]
fn reset_sequence() {
    let c = Mmc5983ConfigBuilder::default()
        .frequency(ContinuousMeasurementFreq::Hz20)
        .bandwidth(DecimationBw::Hz400)
        .build();
    let dev = Mmc5983Sync::new_with_spi((), c, ());
    assert_eq!(dev.reset_writes(), (0x82, 0x02, 0x30 | 0x80, 0x24));
    assert_eq!(dev.config(), c);
}

#[test]
fn offset_and_temperature_sequences() {
    let c = Mmc5983ConfigBuilder::default().build();
    let mut dev = Mmc5983Sync::new_with_spi((), c, ());
    assert_eq!(dev.offset_writes(), [0x2c, 0x2d, 0x35, 0x25]);
    assert_eq!(dev.temperature_trigger(), 0x26);
    dev.finish_offset(Some(raw(10, 10, 10)), None);
    assert_eq!(dev.offset(), None);
    dev.finish_offset(Some(raw(10, 20, 30)), Some(raw(20, 40, 61)));
    assert_eq!(dev.offset(), Some(raw(15, 30, 45)));
    dev.finish_offset(None, Some(raw(0, 0, 0)));
    assert_eq!(dev.offset(), Some(raw(15, 30, 45)));
    assert_eq!(finish_temperature::<()>(Some(77)), Ok(TempMeasurementRaw(77)));
    assert_eq!(finish_temperature::<()>(None), Err(Mmc5983Error::NotReady));
}

#[test]
fn readings_fit_eighteen_bits() {
    assert!(raw(0x3ffff, 0, 1).fits());
    assert!(MagMeasurementRaw::from_bits(u64::MAX).fits());
    assert_eq!(MagMeasurementRaw::from_bits(u64::MAX), raw(0x3ffff, 0x3ffff, 0x3ffff));
}

#[test]
fn halt_sequence() {
    assert_eq!(halt_writes(), (0x09, 0x01));
}
