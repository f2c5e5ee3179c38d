use kiwi_sensors::bmi323::registers::{
    conf_with_mode, conf_with_range, feature_error_of, make_conf_word, make_data_ready_map,
    make_sc_select_word, ErrorReg, FeatureIo1Error, IrqMap, FEATURE_CTRL_ADDR, FIFO_CONF_ADDR,
    INT_MAP2_ADDR, IO_I2C_IF_ADDR, OutputDataRate, RawAccelRange, RawGyroRange, SaturationReg,
    SensorMode, StatusReg, ACC_CONF_ADDR, GYR_CONF_ADDR, GYR_SC_SELECT_ADDR, IO_INT_CTRL_ADDR,
};
use kiwi_sensors::bmi323::{
    auto_range, calibrated, calibration_begin, calibration_start, calibration_step, calibration_writes,
    check_device_id, check_error_reg, check_sensors_enabled, compute_down_threshold, data_ready,
    parse_measurement, Bmi323Config, Bmi323Error, Bmi323Sync, CalibAction, CalibState,
    Measurement3DKind, MeasurementRaw3D, RangeState, SelfCalibrateType, TemperatureMeasurement,
    DEFAULT_I2C_ADDRESS, MAX_LOOPS,
};

fn config(auto: bool) -> Bmi323Config {
    Bmi323Config {
        raw_accel_range: RawAccelRange::G8,
        raw_gyro_range: RawGyroRange::Dps500,
        auto_range: auto,
        accel_odr: OutputDataRate::Hz50,
        gyro_odr: OutputDataRate::Hz100,
        auto_range_hysteresis_us: 500_000,
        accel_mode: SensorMode::HighPerformance,
        gyro_mode: SensorMode::Normal,
        irq_enabled: false,
        min_delay_us: 1000,
        feature_engine_control: 0x0001,
        fifo_config: 0x0000,
        sensor_interrupt_map: make_data_ready_map(IrqMap::Int2, IrqMap::Int2, IrqMap::Int2),
        i2c_watchdog_config: 0x0003,
        int_pin_config: 0x0500,
    }
}

fn no_sat() -> SaturationReg {
    SaturationReg::from_u16(0)
}

fn reading(x: i16, y: i16, z: i16, kind: Measurement3DKind) -> MeasurementRaw3D {
    MeasurementRaw3D::new().with_x(x).with_y(y).with_z(z).with_kind(kind)
}

#[test]
fn down_threshold() {
    assert_eq!(compute_down_threshold(20_000, 500_000), 25);
    assert_eq!(compute_down_threshold(10_000, 500_000), 50);
    assert_eq!(compute_down_threshold(312, 1000), 4);
    assert_eq!(compute_down_threshold(1000, 0), 0);
    assert_eq!(compute_down_threshold(1, u32::MAX), u16::MAX);
}

#[test]
fn initial_state_follows_config() {
    let s = config(true).initial_state();
    assert_eq!(s.active_accel_range, RawAccelRange::G8);
    assert_eq!(s.active_gyro_range, RawGyroRange::Dps500);
    assert_eq!((s.accel_down_ctr, s.gyro_down_ctr), (0, 0));
    assert_eq!(s.accel_down_threshold, 25);
    assert_eq!(s.gyro_down_threshold, 50);
}

#[test]
fn kind_and_raw_roundtrip() {
    let kinds = [
        Measurement3DKind::Accel(RawAccelRange::G2),
        Measurement3DKind::Accel(RawAccelRange::G16),
        Measurement3DKind::Gyro(RawGyroRange::Dps125),
        Measurement3DKind::Gyro(RawGyroRange::Dps2000),
    ];
    for k in kinds {
        assert_eq!(Measurement3DKind::from_bits(k.into_bits()), k);
        let m = reading(-1, i16::MIN, i16::MAX, k);
        assert_eq!(MeasurementRaw3D::from_bits(m.into_bits()), m);
    }
    assert_eq!(Measurement3DKind::Gyro(RawGyroRange::Dps1000).into_bits(), 0x83);
    assert_eq!(Measurement3DKind::from_bits(9), Measurement3DKind::Accel(RawAccelRange::G16));
    let m = reading(1, -2, 3, Measurement3DKind::Gyro(RawGyroRange::Dps250));
    assert_eq!(m.into_bits(), 0x0081_0003_fffe_0001);
    assert_eq!((m.x(), m.y(), m.z()), (1, -2, 3));
    assert_eq!(m.kind(), Measurement3DKind::Gyro(RawGyroRange::Dps250));
}

#[test]
fn range_codes() {
    assert_eq!(RawAccelRange::from_u8(7), RawAccelRange::G16);
    assert_eq!(RawGyroRange::from_u8(7), RawGyroRange::Dps2000);
    assert_eq!(RawAccelRange::G16.step_up(), None);
    assert_eq!(RawAccelRange::G2.step_down(), None);
    assert_eq!(RawGyroRange::Dps250.step_down(), Some(RawGyroRange::Dps125));
    assert_eq!(RawGyroRange::Dps1000.into_bits(), 3);
    assert_eq!(OutputDataRate::Hz6400.period_us(), 156);
}

#[test]
fn flags_decode() {
    let st = StatusReg::from_u16(0xe0);
    assert!(st.drdy_temp && st.drdy_gyr && st.drdy_acc);
    assert!(!data_ready(StatusReg::from_u16(0x1f)));
    assert!(data_ready(StatusReg::from_u16(0x40)));
    let sat = SaturationReg::from_u16(0b10_0100);
    assert!(sat.acc_z && sat.gyr_z && !sat.acc_x && !sat.gyr_x);
    let e = ErrorReg::from_u16(0x61);
    assert!(e.fatal && e.accel_conf && e.gyro_conf);
}

#[test]
fn bmi323_error_precedence() {
    let e = |v: u16| check_error_reg::<()>(ErrorReg::from_u16(v));
    assert_eq!(e(0), Ok(()));
    assert_eq!(e(0x61), Err(Bmi323Error::FatalError));
    assert_eq!(e(0x60), Err(Bmi323Error::InvalidAccelConfig));
    assert_eq!(e(0x40), Err(Bmi323Error::InvalidGyroConfig));
}

#[test]
fn parse_all_quantities() {
    let buf = [
        0x01, 0x00, 0xff, 0xff, 0x00, 0x80, 0x10, 0x00, 0x20, 0x00, 0x30, 0x00, 0x00, 0x02, 0x78,
        0x56, 0x34, 0x12,
    ];
    let st = StatusReg::from_u16(0xe0);
    let m = parse_measurement(st, buf, RawAccelRange::G4, RawGyroRange::Dps250);
    let a = m.accel.unwrap();
    assert_eq!((a.x, a.y, a.z), (1, -1, i16::MIN));
    assert_eq!(a.kind, Measurement3DKind::Accel(RawAccelRange::G4));
    let g = m.gyro.unwrap();
    assert_eq!((g.x, g.y, g.z), (16, 32, 48));
    assert_eq!(g.kind, Measurement3DKind::Gyro(RawGyroRange::Dps250));
    assert_eq!(m.temp, Some(TemperatureMeasurement(512)));
    assert_eq!(m.timestamp.0, 0x1234_5678);
    let only_gyro = parse_measurement(StatusReg::from_u16(0x40), buf, RawAccelRange::G4, RawGyroRange::Dps250);
    assert!(only_gyro.accel.is_none() && only_gyro.temp.is_none() && only_gyro.gyro.is_some());
}

#[test]
fn saturation_steps_up_and_discards() {
    let s = config(true).initial_state();
    let sat = SaturationReg::from_u16(0b001);
    let step = auto_range(s, sat, None, None);
    assert!(step.discard);
    assert_eq!(step.accel_change, Some(RawAccelRange::G16));
    assert_eq!(step.gyro_change, None);
    assert_eq!(step.state.active_accel_range, RawAccelRange::G16);
    let top = RangeState { active_accel_range: RawAccelRange::G16, ..s };
    let step = auto_range(top, sat, None, None);
    assert!(!step.discard);
    assert_eq!(step.accel_change, None);
}

#[test]
fn quiet_signal_steps_down_after_threshold() {
    let mut s = RangeState { accel_down_threshold: 3, ..config(true).initial_state() };
    let quiet = Some(reading(100, -8191, 5, Measurement3DKind::Accel(RawAccelRange::G8)));
    for expected in 1..3u16 {
        let step = auto_range(s, no_sat(), quiet, None);
        assert_eq!(step.accel_change, None);
        assert_eq!(step.state.accel_down_ctr, expected);
        s = step.state;
    }
    let step = auto_range(s, no_sat(), quiet, None);
    assert_eq!(step.accel_change, Some(RawAccelRange::G4));
    assert_eq!(step.state.active_accel_range, RawAccelRange::G4);
    assert_eq!(step.state.accel_down_ctr, 0);
    assert!(!step.discard);
}

#[test]
fn loud_sample_clears_counter() {
    let s = RangeState { accel_down_ctr: 7, ..config(true).initial_state() };
    let loud = Some(reading(0, 8192, 0, Measurement3DKind::Accel(RawAccelRange::G8)));
    let step = auto_range(s, no_sat(), loud, None);
    assert_eq!(step.state.accel_down_ctr, 0);
    assert_eq!(step.accel_change, None);
}

#[test]
fn counter_wraps_at_maximum() {
    let s = RangeState {
        active_accel_range: RawAccelRange::G2,
        accel_down_ctr: u16::MAX,
        accel_down_threshold: u16::MAX,
        ..config(true).initial_state()
    };
    let quiet = Some(reading(0, 0, 0, Measurement3DKind::Accel(RawAccelRange::G2)));
    let step = auto_range(s, no_sat(), quiet, None);
    assert_eq!(step.accel_change, None);
    assert_eq!(step.state.accel_down_ctr, 0);
}

#[test]
fn driver_measure_flow() {
    let mut dev = Bmi323Sync::new_with_i2c((), DEFAULT_I2C_ADDRESS, config(true), ());
    assert!(!dev.running());
    assert_eq!(dev.check_running::<()>(), Err(Bmi323Error::NotReady));
    dev.set_running(true);
    assert_eq!(dev.check_running::<()>(), Ok(()));
    let buf = [0u8; 18];
    let none = dev.finish_measure::<()>(StatusReg::from_u16(0), buf, no_sat());
    assert_eq!(none.result, Err(Bmi323Error::NoDataAvailable));
    let clipped = dev.finish_measure::<()>(StatusReg::from_u16(0x80), buf, SaturationReg::from_u16(1));
    assert_eq!(clipped.result, Err(Bmi323Error::AutoRangeAdjusted));
    assert_eq!(clipped.accel_change, Some(RawAccelRange::G16));
    assert_eq!(dev.ranges().active_accel_range, RawAccelRange::G16);
    let ok = dev.finish_measure::<()>(StatusReg::from_u16(0x80), buf, no_sat());
    let m = ok.result.unwrap();
    assert_eq!(m.accel.unwrap().kind, Measurement3DKind::Accel(RawAccelRange::G16));
    assert_eq!(dev.ranges().accel_down_ctr, 1);
    dev.reset_ranges();
    assert_eq!(dev.ranges(), config(true).initial_state());
    let (iface, _) = dev.io_mut();
    assert_eq!(iface.address, 0x68);
}

#[test]
fn no_auto_range_keeps_ranges() {
    let mut dev = Bmi323Sync::new_with_spi((), config(false), ());
    let r = dev.finish_measure::<()>(StatusReg::from_u16(0x80), [0xff; 18], SaturationReg::from_u16(0x3f));
    assert!(r.result.is_ok());
    assert_eq!(r.accel_change, None);
    assert_eq!(dev.ranges(), config(false).initial_state());
    assert!(!dev.config().auto_range);
}

#[test]
fn self_calibration_kinds() {
    assert!(SelfCalibrateType::Both.sensitivity() && SelfCalibrateType::Both.offset());
    assert!(!SelfCalibrateType::Offset.sensitivity());
    assert!(!SelfCalibrateType::Sensitivity.offset());
}

#[test]
fn configuration_word_fields() {
    let conf: u16 = 0x7028;
    assert_eq!(conf_with_range(conf, RawAccelRange::G16.into_bits()), 0x7038);
    assert_eq!(conf_with_range(0xffff, 0), 0xff8f);
    assert_eq!(conf_with_mode(0x7038, SensorMode::Off.bits()), 0x0038);
    assert_eq!(conf_with_mode(0x0038, SensorMode::Normal.bits()), 0x4038);
    assert_eq!(conf_with_mode(0xffff, 0), 0x8fff);
}

#[test]
fn calibration_refused_while_running_or_engine_down() {
    assert_eq!(calibration_begin::<()>(true), Err(Bmi323Error::Busy));
    assert_eq!(calibration_begin::<()>(false), Ok(()));
    assert_eq!(calibration_start::<()>(0x0000), Err(Bmi323Error::RestartRequired));
    assert_eq!(calibration_start::<()>(0x0003), Err(Bmi323Error::RestartRequired));
    assert_eq!(calibration_start::<()>(0x0001), Ok(()));
    assert_eq!(calibration_start::<()>(0x0002), Ok(()));
    assert_eq!(calibration_start::<()>(0x0015), Ok(()));
    assert_eq!(feature_error_of(0x0015), FeatureIo1Error::NoError);
    assert_eq!(feature_error_of(0x000c), FeatureIo1Error::Other(12));
}

#[test]
fn calibration_register_writes() {
    let w = calibration_writes(SelfCalibrateType::Both);
    assert_eq!(w[0], (IO_INT_CTRL_ADDR, 0));
    assert_eq!(w[1], (ACC_CONF_ADDR, 0x7008));
    assert_eq!(w[2], (GYR_CONF_ADDR, 0x7008));
    assert_eq!(w[3], (GYR_SC_SELECT_ADDR, 0b111));
    assert_eq!(calibration_writes(SelfCalibrateType::Sensitivity)[3].1, 0b101);
    assert_eq!(calibration_writes(SelfCalibrateType::Offset)[3].1, 0b110);
    assert_eq!(make_conf_word(OutputDataRate::Hz50.bits(), 2, SensorMode::Normal.bits()), 0x4027);
    assert_eq!(make_sc_select_word(false, false, false), 0);
}

#[test]
fn calibration_config_error_is_fatal() {
    for err in [0x0001u16, 0x0020, 0x0040] {
        let (s, a) = calibration_step::<()>(CalibState::CheckConfig, err);
        assert_eq!(s, CalibState::Finished);
        assert_eq!(a, CalibAction::Done(Err(Bmi323Error::FatalError)));
    }
    let (s, a) = calibration_step::<()>(CalibState::CheckConfig, 0);
    assert_eq!(s, CalibState::Polling(100));
    assert_eq!(a, CalibAction::StartSelfCal);
}

#[test]
fn calibration_times_out_after_max_loops() {
    let mut state = CalibState::Polling(MAX_LOOPS as u8);
    let mut polls = 0;
    let last = loop {
        polls += 1;
        let (s, a) = calibration_step::<()>(state, 0x0001);
        state = s;
        if a != CalibAction::PollAgain {
            break a;
        }
    };
    assert_eq!(polls, MAX_LOOPS);
    assert_eq!(last, CalibAction::Done(Err(Bmi323Error::SelfCalTimedOut)));
    assert_eq!(state, CalibState::Finished);
}

#[test]
fn calibration_done_restores_and_checks() {
    let (s, a) = calibration_step::<()>(CalibState::Polling(7), 0x0010);
    assert_eq!((s, a), (CalibState::CheckFinal, CalibAction::Restore));
    let (s, a) = calibration_step::<()>(CalibState::CheckFinal, 0x0001);
    assert_eq!((s, a), (CalibState::Finished, CalibAction::Done(Err(Bmi323Error::FatalError))));
    let (s, a) = calibration_step::<()>(CalibState::CheckFinal, 0x0060);
    assert_eq!((s, a), (CalibState::Finished, CalibAction::Done(Ok(()))));
}

#[test]
fn calibrated_reads_apply_bit() {
    assert!(calibrated(0b100));
    assert!(!calibrated(0b011));
}

#[test]
fn start_needs_a_sensor() {
    assert_eq!(check_sensors_enabled::<()>(false, false), Err(Bmi323Error::NoSensorsEnabled));
    assert_eq!(check_sensors_enabled::<()>(true, false), Ok(()));
    assert_eq!(check_sensors_enabled::<()>(false, true), Ok(()));
}

#[test]
fn reset_configuration_words() {
    let w = config(false).config_writes();
    assert_eq!(w[0], (FEATURE_CTRL_ADDR, 0x0001));
    assert_eq!(w[1], (FIFO_CONF_ADDR, 0x0000));
    assert_eq!(w[2], (INT_MAP2_ADDR, 0xA800));
    assert_eq!(w[3], (IO_I2C_IF_ADDR, 0x0003));
    assert_eq!(w[4], (IO_INT_CTRL_ADDR, 0x0500));
    assert_eq!(w[5], (ACC_CONF_ADDR, 0x7027));
    assert_eq!(w[6], (GYR_CONF_ADDR, 0x4028));
    assert_eq!(make_data_ready_map(IrqMap::Int1, IrqMap::Disabled, IrqMap::Ibi), 0x4C00);
}

#[test]
fn start_modes_follow_configuration() {
    let c = config(false);
    assert_eq!(
        c.start_modes::<()>(),
        Ok((Some(SensorMode::HighPerformance), Some(SensorMode::Normal)))
    );
    let accel_only = Bmi323Config { gyro_mode: SensorMode::Off, ..c };
    assert_eq!(accel_only.start_modes::<()>(), Ok((Some(SensorMode::HighPerformance), None)));
    let none = Bmi323Config { accel_mode: SensorMode::Off, ..accel_only };
    assert_eq!(none.start_modes::<()>(), Err(Bmi323Error::NoSensorsEnabled));
}

#[test]
fn device_id_check() {
    assert_eq!(check_device_id::<()>(0x0043), Ok(()));
    assert_eq!(check_device_id::<()>(0x1243), Ok(()));
    assert_eq!(check_device_id::<()>(0x0044), Err(Bmi323Error::InvalidDevice));
}
