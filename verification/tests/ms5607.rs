use kiwi_sensors::ms5607::details::{adc_value, prom_crc};
use kiwi_sensors::ms5607::{
    Address, Calibration, Error, Ms5607, Oversampling, CMD_CONV_D1, CMD_CONV_D2,
};

const PROM: [u8; 16] = [
    0, 0, 181, 36, 171, 205, 113, 131, 108, 194, 123, 65, 110, 5, 0, 8,
];

fn calib() -> Calibration {
    Calibration {
        sens_tref: 46372,
        ofst_tref: 43981,
        tcs_p: 29059,
        tco_p: 27842,
        tref: 31553,
        tcs_t: 28165,
    }
}

#[test]
fn address_try_from() {
    assert_eq!(Address::try_from(0x76), Ok(Address::CsbHigh));
    assert_eq!(Address::try_from(0x77), Ok(Address::CsbLow));
    assert!(Address::try_from(0x78).is_err());
    assert_eq!(Address::try_from(Address::CsbLow.bits()), Ok(Address::CsbLow));
}

#[test]
fn conversion_times_and_commands() {
    assert_eq!(Oversampling::Osr256.conversion_time_us(), 600);
    assert_eq!(Oversampling::Osr4096.conversion_time_us(), 9040);
    assert_eq!(Oversampling::default(), Oversampling::Osr4096);
    let dev = Ms5607::new_spi((), (), Oversampling::Osr2048);
    assert_eq!(dev.pressure_command(), CMD_CONV_D1 + 6);
    assert_eq!(dev.temperature_command(), CMD_CONV_D2 + 6);
}

#[test]
fn new_i2c_address() {
    let dev = Ms5607::new_i2c((), Address::CsbLow, (), Oversampling::Osr4096);
    assert_eq!(dev.address(), 0x77);
}

#[test]
fn prom_crc_and_decode() {
    assert_eq!(prom_crc(PROM), 8);
    assert_eq!(Calibration::try_from(PROM), Ok(calib()));
    let mut bad = PROM;
    bad[15] = 9;
    assert_eq!(Calibration::try_from(bad), Err("CRC check failed"));
}

#[test]
fn compensate_data_sheet_example() {
    let m = calib().compensate(6465444, 8077636);
    assert_eq!(m.temperature, 2000);
    assert_eq!(m.pressure, 110002);
}

#[test]
fn compensate_second_order() {
    let m = calib().compensate(6465444, 8010000);
    assert_eq!(m.temperature, 1772);
    assert_eq!(m.pressure, 109452);
}

#[test]
fn read_before_init_fails() {
    let dev = Ms5607::new_spi((), (), Oversampling::Osr4096);
    let r: Result<_, Error<()>> = dev.finish_read([0x62, 0xA7, 0xA4], [0x7B, 0x41, 0x44]);
    assert_eq!(r.err(), Some(Error::NotInitialized));
}

#[test]
fn store_prom_then_read() {
    let mut dev = Ms5607::new_spi((), (), Oversampling::Osr4096);
    let mut bad = PROM;
    bad[15] = 0;
    assert_eq!(dev.store_prom::<()>(bad), Err(Error::Crc));
    assert_eq!(dev.store_prom::<()>(PROM), Ok(()));
    assert_eq!(adc_value([0x62, 0xA7, 0xA4]), 6465444);
    let m = dev.finish_read::<()>([0x62, 0xA7, 0xA4], [0x7B, 0x41, 0x44]).unwrap();
    assert_eq!((m.temperature, m.pressure), (2000, 110002));
}

#[test]
fn compensate_low_temperature() {
    let m = calib().compensate(6465444, 7000000);
    assert_eq!((m.temperature, m.pressure), (-2157, 100348));
}

#[test]
fn compensate_extreme_readings() {
    let m = calib().compensate(6465444, 0);
    assert_eq!((m.temperature, m.pressure), (-55503, -172648));
    let m = calib().compensate(0xff_ffff, 0xff_ffff);
    assert_eq!((m.temperature, m.pressure), (31209, 932714));
    let m = calib().compensate(0, 0);
    assert_eq!((m.temperature, m.pressure), (-55503, 272276));
    let mut dev = Ms5607::new_spi((), (), Oversampling::Osr4096);
    assert_eq!(dev.store_prom::<()>(PROM), Ok(()));
    let m = dev.finish_read::<()>([0x62, 0xA7, 0xA4], [0, 0, 0]).unwrap();
    assert_eq!((m.temperature, m.pressure), (-55503, -172648));
}
