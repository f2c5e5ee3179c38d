use kiwi_sensors::bmp390::{
    check_chip_id, check_error, data_ready, parse_measurement, power_ctrl_value, Bmp390Config,
    CalibrationRaw,
    Bmp390Error, Bmp390Sync, Oversampling, SensorMode, CONFIG_ADDR, DEFAULT_I2C_ADDRESS,
    INT_CTRL_ADDR, ODR_ADDR, OSR_ADDR, PWR_CTRL_ADDR,
};

fn config() -> Bmp390Config {
    Bmp390Config {
        sensor_mode: SensorMode::Normal,
        pressure_os: Oversampling::X8,
        temperature_os: Oversampling::X2,
        odr: 2,
        iir: 3,
        drdy_irq: true,
        min_delay_us: 5000,
    }
}

#[test]
fn bmp390_error_precedence() {
    assert_eq!(check_error::<()>(0), Ok(()));
    assert_eq!(check_error::<()>(0xf8), Ok(()));
    assert_eq!(check_error::<()>(0b111), Err(Bmp390Error::FatalError));
    assert_eq!(check_error::<()>(0b110), Err(Bmp390Error::InvalidConfiguration));
    assert_eq!(check_error::<()>(0b010), Err(Bmp390Error::InvalidCommand));
}

#[test]
fn chip_id() {
    assert_eq!(check_chip_id::<()>(0x60), Ok(()));
    assert_eq!(check_chip_id::<()>(0x50), Err(Bmp390Error::InvalidDevice));
}

#[test]
fn status_and_data() {
    assert!(!data_ready(0x10));
    assert!(data_ready(0x20));
    assert!(data_ready(0x40));
    let buf = [0x01, 0x02, 0x03, 0xaa, 0xbb, 0xcc];
    let m = parse_measurement(0x60, buf);
    assert_eq!(m.pressure, Some(0x030201));
    assert_eq!(m.temperature, Some(0xccbbaa));
    let m = parse_measurement(0x40, buf);
    assert_eq!(m.pressure, None);
    assert_eq!(m.temperature, Some(0xccbbaa));
}

#[test]
fn configuration_writes() {
    let w = config().reset_writes();
    assert_eq!(w[0], (PWR_CTRL_ADDR, 0x33));
    assert_eq!(w[1], (INT_CTRL_ADDR, 0x40));
    assert_eq!(w[2], (CONFIG_ADDR, 6));
    assert_eq!(w[3], (ODR_ADDR, 2));
    assert_eq!(w[4], (OSR_ADDR, 3 | (1 << 3)));
    assert_eq!(power_ctrl_value(SensorMode::Forced, true, false), 0x11);
    assert_eq!(power_ctrl_value(SensorMode::Sleep, false, false), 0);
    let quiet = Bmp390Config { drdy_irq: false, sensor_mode: SensorMode::Forced, ..config() };
    assert_eq!(quiet.reset_writes()[1], (INT_CTRL_ADDR, 0));
    assert_eq!(quiet.power_ctrl(), 0x13);
}

#[test]
fn start_and_stop() {
    let mut dev = Bmp390Sync::new_with_i2c((), DEFAULT_I2C_ADDRESS, config(), ());
    assert_eq!(dev.check_running::<()>(), Err(Bmp390Error::NotReady));
    assert_eq!(dev.stop_write(), None);
    assert_eq!(dev.start_write(), Some(0x33));
    assert_eq!(dev.finish_mode_change::<()>(true, 0b100), Err(Bmp390Error::InvalidConfiguration));
    assert!(!dev.running());
    assert_eq!(dev.finish_mode_change::<()>(true, 0b111), Err(Bmp390Error::FatalError));
    assert_eq!(dev.finish_mode_change::<()>(true, 0b110), Err(Bmp390Error::InvalidConfiguration));
    assert_eq!(dev.finish_mode_change::<()>(true, 0b010), Err(Bmp390Error::InvalidCommand));
    assert!(!dev.running());
    assert_eq!(dev.finish_mode_change::<()>(true, 0), Ok(()));
    assert!(dev.running());
    assert_eq!(dev.check_running::<()>(), Ok(()));
    assert_eq!(dev.start_write(), None);
    assert_eq!(dev.stop_write(), Some(0));
    assert_eq!(dev.finish_mode_change::<()>(false, 0), Ok(()));
    assert!(!dev.running());
    assert_eq!(dev.config(), config());
    let (iface, _) = dev.destroy();
    assert_eq!(iface.address, 0x77);
}

#[test]
fn spi_instance() {
    let mut dev = Bmp390Sync::new_with_spi(5u8, config(), ());
    let (spi, _) = dev.io_mut();
    assert_eq!(spi.spi, 5);
    assert!(!dev.running());
}

#[test]
fn configuration_codes() {
    assert!(config().is_valid());
    assert!(!Bmp390Config { odr: 18, ..config() }.is_valid());
    assert!(!Bmp390Config { iir: 8, ..config() }.is_valid());
    assert!(Bmp390Config { odr: 17, iir: 7, ..config() }.is_valid());
}

#[test]
fn reset_sequence_steps() {
    let c = config();
    let w = c.reset_writes();
    assert_eq!(c.reset_step::<()>(0, None), Ok(Some(w[0])));
    assert_eq!(c.reset_step::<()>(1, Some(0)), Ok(Some(w[1])));
    assert_eq!(c.reset_step::<()>(4, Some(0)), Ok(Some(w[4])));
    assert_eq!(c.reset_step::<()>(5, Some(0)), Ok(None));
    assert_eq!(c.reset_step::<()>(2, Some(0b100)), Err(Bmp390Error::InvalidConfiguration));
    assert_eq!(c.reset_step::<()>(5, Some(0b001)), Err(Bmp390Error::FatalError));
}

#[test]
fn calibration_words_decode() {
    let b: [u8; 21] = [
        0x98, 0x6B, 0x2C, 0x48, 0xF9, 0x34, 0xFD, 0x28, 0xF7, 0x13, 0x01, 0x5F, 0x49, 0x0E,
        0x59, 0x03, 0xFA, 0x42, 0x13, 0xC4, 0xF5,
    ];
    let c = CalibrationRaw::from_registers(b);
    assert_eq!((c.t1, c.t2, c.t3), (0x6B98, 0x482C, -7));
    assert_eq!((c.p1, c.p2, c.p3, c.p4), (-716, -2264, 19, 1));
    assert_eq!((c.p5, c.p6, c.p7, c.p8), (0x495F, 0x590E, 3, -6));
    assert_eq!((c.p9, c.p10, c.p11), (0x1342, -60, -11));
}
