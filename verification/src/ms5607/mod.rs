//! MS5607 barometric pressure sensor: device state, commands, PROM check
//! and fixed-point compensation.
use vstd::prelude::*;

pub mod details;

pub use details::{Calibration, MeasurementRaw};

verus! {

/// Address pin configuration.
#[derive(Debug, Clone, Copy, PartialEq, Eq, Structural)]
pub enum Address {
    /// CSB is pulled high (0x76)
    CsbHigh,
    /// CSB is pulled low (0x77)
    CsbLow,
}

impl Address {
    /// The 7-bit I2C address selected by the CSB pin.
    pub open spec fn spec_bits(self) -> u8 {
        match self {
            Address::CsbHigh => 0x76,
            Address::CsbLow => 0x77,
        }
    }

    /// The 7-bit I2C address selected by the CSB pin.
    pub fn bits(&self) -> (r: u8)
        ensures
            r == self.spec_bits(),
    {
        match self {
            Address::CsbHigh => 0x76,
            Address::CsbLow => 0x77,
        }
    }

    /// Interpret an I2C address; only 0x76 and 0x77 are valid.
    pub fn try_from(value: u8) -> (r: Result<Address, &'static str>)
        ensures
            value == 0x76 ==> r == Ok::<Address, &'static str>(Address::CsbHigh),
            value == 0x77 ==> r == Ok::<Address, &'static str>(Address::CsbLow),
            (value != 0x76 && value != 0x77) <==> r is Err,
    {
        if value == 0x76 {
            Ok(Address::CsbHigh)
        } else if value == 0x77 {
            Ok(Address::CsbLow)
        } else {
            Err("Invalid address")
        }
    }
}

/// Converting an address to its bus value and back gives the same address.
pub proof fn lemma_address_roundtrip(a: Address)
    ensures
        (a.spec_bits() == 0x76 ==> a == Address::CsbHigh),
        (a.spec_bits() == 0x77 ==> a == Address::CsbLow),
        a.spec_bits() == 0x76 || a.spec_bits() == 0x77,
{
}

/// Oversampling configuration for the sensor.
#[derive(Debug, Clone, Copy, PartialEq, Eq, Structural)]
pub enum Oversampling {
    /// 256 samples per measurement
    Osr256,
    /// 512 samples per measurement
    Osr512,
    /// 1024 samples per measurement
    Osr1024,
    /// 2048 samples per measurement
    Osr2048,
    /// 4096 samples per measurement (default)
    Osr4096,
}

impl Default for Oversampling {
    fn default() -> (r: Self)
        ensures
            r == Oversampling::Osr4096,
    {
        Oversampling::Osr4096
    }
}

impl Oversampling {
    /// Offset added to the conversion commands for this ratio.
    pub open spec fn spec_bits(self) -> u8 {
        match self {
            Oversampling::Osr256 => 0,
            Oversampling::Osr512 => 2,
            Oversampling::Osr1024 => 4,
            Oversampling::Osr2048 => 6,
            Oversampling::Osr4096 => 8,
        }
    }

    /// Offset added to the conversion commands for this ratio.
    pub fn bits(self) -> (r: u8)
        ensures
            r == self.spec_bits(),
    {
        match self {
            Oversampling::Osr256 => 0,
            Oversampling::Osr512 => 2,
            Oversampling::Osr1024 => 4,
            Oversampling::Osr2048 => 6,
            Oversampling::Osr4096 => 8,
        }
    }

    /// Worst-case conversion time in microseconds.
    pub open spec fn spec_conversion_time_us(self) -> u32 {
        match self {
            Oversampling::Osr256 => 600,
            Oversampling::Osr512 => 1170,
            Oversampling::Osr1024 => 2280,
            Oversampling::Osr2048 => 4540,
            Oversampling::Osr4096 => 9040,
        }
    }

    /// Worst-case conversion time in microseconds.
    pub fn conversion_time_us(self) -> (r: u32)
        ensures
            r == self.spec_conversion_time_us(),
    {
        match self {
            Oversampling::Osr256 => 600,
            Oversampling::Osr512 => 1170,
            Oversampling::Osr1024 => 2280,
            Oversampling::Osr2048 => 4540,
            Oversampling::Osr4096 => 9040,
        }
    }
}

/// Reset command.
pub const CMD_RESET: u8 = 0x1E;
/// Start a pressure (D1) conversion; the oversampling offset is added.
pub const CMD_CONV_D1: u8 = 0x40;
/// Start a temperature (D2) conversion; the oversampling offset is added.
pub const CMD_CONV_D2: u8 = 0x50;
/// Read the ADC result.
pub const CMD_ADC_READ: u8 = 0x00;
/// First PROM address; the PROM holds eight 16-bit words.
pub const CMD_PROM_READ: u8 = 0xA0;

/// I2C bus with the device address.
pub struct I2cInterface<I2C> {
    /// The bus
    pub i2c: I2C,
    /// 7-bit device address
    pub address: u8,
}

/// SPI device.
pub struct SpiInterface<SPI> {
    /// The device
    pub spi: SPI,
}

/// Errors that can occur when interacting with the MS5607 sensor.
#[derive(Debug, Clone, PartialEq, Eq, Structural)]
pub enum Error<CommError> {
    /// Communication error
    Comm(CommError),
    /// CRC check failed
    Crc,
    /// Device not initialized; `init()` must run before measurements are read.
    NotInitialized,
}

impl<CommError> From<CommError> for Error<CommError> {
    fn from(err: CommError) -> (r: Self) {
        Error::Comm(err)
    }
}

impl<CommError> vstd::std_specs::convert::FromSpecImpl<CommError> for Error<CommError> {
    open spec fn obeys_from_spec() -> bool {
        true
    }

    open spec fn from_spec(err: CommError) -> Self {
        Error::Comm(err)
    }
}

/// MS5607 device.
pub struct Ms5607<IFACE, D> {
    iface: IFACE,
    delay: D,
    osr: Oversampling,
    calibration: Option<Calibration>,
}

impl<IFACE, D> Ms5607<IFACE, D> {
    /// Oversampling ratio the device was created with.
    pub closed spec fn spec_osr(&self) -> Oversampling {
        self.osr
    }

    /// Factory calibration read from the PROM, if any.
    pub closed spec fn spec_calibration(&self) -> Option<Calibration> {
        self.calibration
    }

    /// The bus interface.
    pub closed spec fn spec_iface(&self) -> IFACE {
        self.iface
    }

    /// The delay provider.
    pub closed spec fn spec_delay(&self) -> D {
        self.delay
    }

    /// Oversampling ratio the device was created with.
    pub fn osr(&self) -> (r: Oversampling)
        ensures
            r == self.spec_osr(),
    {
        self.osr
    }

    /// Mutable access to the bus interface and the delay provider, for the
    /// code that performs the transfers.
    pub fn io_mut(&mut self) -> (r: (&mut IFACE, &mut D))
        ensures
            *r.0 == old(self).spec_iface(),
            *r.1 == old(self).spec_delay(),
            final(self).spec_iface() == *final(r.0),
            final(self).spec_delay() == *final(r.1),
            final(self).spec_osr() == old(self).spec_osr(),
            final(self).spec_calibration() == old(self).spec_calibration(),
    {
        (&mut self.iface, &mut self.delay)
    }

    /// Command that starts a pressure conversion at the configured ratio.
    pub fn pressure_command(&self) -> (r: u8)
        ensures
            r == CMD_CONV_D1 + self.spec_osr().spec_bits(),
    {
        CMD_CONV_D1 + self.osr.bits()
    }

    /// Command that starts a temperature conversion at the configured ratio.
    pub fn temperature_command(&self) -> (r: u8)
        ensures
            r == CMD_CONV_D2 + self.spec_osr().spec_bits(),
    {
        CMD_CONV_D2 + self.osr.bits()
    }

    /// Check the PROM contents and keep the calibration they hold.
    /// A failed check leaves the previous calibration in place.
    pub fn store_prom<E>(&mut self, prom: [u8; 16]) -> (r: Result<(), Error<E>>)
        ensures
            details::prom_crc_ok(prom@) <==> r is Ok,
            r is Err ==> r == Err::<(), Error<E>>(Error::Crc),
            r is Ok ==> final(self).spec_calibration() == Some(details::spec_calibration(prom@)),
            r is Err ==> final(self).spec_calibration() == old(self).spec_calibration(),
            final(self).spec_osr() == old(self).spec_osr(),
            final(self).spec_iface() == old(self).spec_iface(),
            final(self).spec_delay() == old(self).spec_delay(),
    {
        match Calibration::try_from(prom) {
            Ok(c) => {
                self.calibration = Some(c);
                Ok(())
            },
            Err(_) => Err(Error::Crc),
        }
    }

    /// Compensate two raw 24-bit conversions with the stored calibration.
    /// The ADC result is read as three big-endian bytes.
    pub fn finish_read<E>(&self, pressure: [u8; 3], temperature: [u8; 3]) -> (r: Result<
        MeasurementRaw,
        Error<E>,
    >)
        ensures
            self.spec_calibration() is None ==> r == Err::<MeasurementRaw, Error<E>>(
                Error::NotInitialized,
            ),
            self.spec_calibration() is Some ==> r == Ok::<MeasurementRaw, Error<E>>(
                details::spec_compensate(
                    self.spec_calibration()->0,
                    details::adc24(pressure@),
                    details::adc24(temperature@),
                ),
            ),
    {
        let p = details::adc_value(pressure);
        let t = details::adc_value(temperature);
        match &self.calibration {
            Some(c) => Ok(c.compensate(p, t)),
            None => Err(Error::NotInitialized),
        }
    }
}

impl<SPI, D> Ms5607<SpiInterface<SPI>, D> {
    /// Create a new driver instance with the given SPI interface and delay provider.
    pub fn new_spi(spi: SPI, delay: D, oversampling: Oversampling) -> (r: Self)
        ensures
            r.spec_iface().spi == spi,
            r.spec_delay() == delay,
            r.spec_osr() == oversampling,
            r.spec_calibration() is None,
    {
        Ms5607 { iface: SpiInterface { spi }, delay, osr: oversampling, calibration: None }
    }
}

impl<I2C, D> Ms5607<I2cInterface<I2C>, D> {
    /// Create a new driver instance with the given I2C interface, address, and delay provider.
    pub fn new_i2c(i2c: I2C, address: Address, delay: D, oversampling: Oversampling) -> (r: Self)
        ensures
            r.spec_iface().i2c == i2c,
            r.spec_iface().address == address.spec_bits(),
            r.spec_delay() == delay,
            r.spec_osr() == oversampling,
            r.spec_calibration() is None,
    {
        Ms5607 {
            iface: I2cInterface { i2c, address: address.bits() },
            delay,
            osr: oversampling,
            calibration: None,
        }
    }

    /// Get the I2C address of the device.
    pub fn address(&self) -> (r: u8)
        ensures
            r == self.spec_iface().address,
    {
        self.iface.address
    }
}

/// Oversampling ratio named by the command offset of a setting: 256 for
/// offset 0, doubling with every step of two.
pub open spec fn ratio_of_offset(k: u8) -> int
    decreases k,
{
    if k < 2 {
        256
    } else {
        2 * ratio_of_offset((k - 2) as u8)
    }
}

/// The wait for a conversion covers the data sheet's maximum conversion
/// time: at least 2.2 us per sample of the ratio the command selects (and
/// at most 2.35 us), so it grows strictly with the ratio.
pub proof fn lemma_conversion_time_covers(o: Oversampling, o2: Oversampling)
    ensures
        10 * o.spec_conversion_time_us() >= 22 * ratio_of_offset(o.spec_bits()),
        100 * o.spec_conversion_time_us() <= 235 * ratio_of_offset(o.spec_bits()),
        o.spec_bits() < o2.spec_bits() ==> o.spec_conversion_time_us()
            < o2.spec_conversion_time_us(),
{
    reveal_with_fuel(ratio_of_offset, 6);
}

} // verus!
