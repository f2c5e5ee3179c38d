use kiwi_sensors::bme680::Error as Bme680Error;
use kiwi_sensors::bmi323::Bmi323Error;
use kiwi_sensors::bmp390::Bmp390Error;
use kiwi_sensors::mmc5983::Mmc5983Error;
use kiwi_sensors::ms5607::Error as Ms5607Error;

#[test]
fn bus_errors_convert() {
    assert_eq!(Bme680Error::from(7u8), Bme680Error::I2c(7u8));
    assert_eq!(Bmi323Error::from(7u8), Bmi323Error::Comm(7u8));
    assert_eq!(Bmp390Error::from(7u8), Bmp390Error::Comm(7u8));
    assert_eq!(Mmc5983Error::from(7u8), Mmc5983Error::Comm(7u8));
    assert_eq!(Ms5607Error::from(7u8), Ms5607Error::Comm(7u8));
    let e: Bmp390Error<u8> = 3u8.into();
    assert_eq!(e, Bmp390Error::Comm(3));
}
