//! Verified core of the Kiwi sensor firmware: register encodings, raw-data
//! parsing, compensation arithmetic and the decision logic of the sensor
//! drivers, the flash layout of the device configuration, the USB console's
//! line editing and command handling, and the data-rate counter of the
//! measurement stream.

pub mod arith;
pub mod bme680;
pub mod bmi323;
pub mod bmp390;
pub mod bitfield;
pub mod bounded_str;
pub mod console;
pub mod data_rate;
pub mod device_blob;
pub mod mmc5983;
pub mod ms5607;
pub mod poll;
pub mod wifi;
