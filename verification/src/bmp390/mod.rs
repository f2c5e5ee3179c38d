//! BMP390 barometric pressure sensor: configuration registers, error and
//! status decoding, data parsing and the measurement-mode decisions.
use vstd::prelude::*;

use crate::arith::{as_signed16, le16};

verus! {

/// Default I2C address for the BMP390 sensor.
pub const DEFAULT_I2C_ADDRESS: u8 = 0x77;
/// Maximum number of status polls before giving up.
pub const MAX_LOOPS: usize = 100;
/// Chip identifier register.
pub const CHIP_ID_ADDR: u8 = 0x00;
/// Expected chip identifier.
pub const CHIP_ID: u8 = 0x60;
/// Error register.
pub const ERR_REG_ADDR: u8 = 0x02;
/// Status register.
pub const STATUS_ADDR: u8 = 0x03;
/// First pressure data register; temperature follows.
pub const PRESSURE_DATA_ADDR: u8 = 0x04;
/// Interrupt control register.
pub const INT_CTRL_ADDR: u8 = 0x19;
/// Power control register.
pub const PWR_CTRL_ADDR: u8 = 0x1B;
/// Oversampling register.
pub const OSR_ADDR: u8 = 0x1C;
/// Output data rate register.
pub const ODR_ADDR: u8 = 0x1D;
/// IIR filter configuration register.
pub const CONFIG_ADDR: u8 = 0x1F;
/// Command register.
pub const CMD_ADDR: u8 = 0x7E;
/// Soft reset command.
pub const CMD_SOFT_RESET: u8 = 0xB6;
/// First calibration coefficient register.
pub const NVM_PAR_T1_0: u8 = 0x31;

/// Errors that can occur when interacting with the BMP390 sensor.
#[derive(Debug, PartialEq, Eq, Structural)]
pub enum Bmp390Error<CommError> {
    /// Bus communication error
    Comm(CommError),
    /// Fatal error reported by the sensor
    FatalError,
    /// Invalid sensor configuration
    InvalidConfiguration,
    /// Invalid device (wrong device ID)
    InvalidDevice,
    /// Driver not ready (e.g., measurement not started)
    NotReady,
    /// No new data available to read
    NoDataAvailable,
    /// Invalid command sent to the sensor
    InvalidCommand,
    /// Invalid access, possible deadlock
    InvalidAccess,
}

impl<CommError> From<CommError> for Bmp390Error<CommError> {
    fn from(err: CommError) -> (r: Self) {
        Bmp390Error::Comm(err)
    }
}

impl<CommError> vstd::std_specs::convert::FromSpecImpl<CommError> for Bmp390Error<CommError> {
    open spec fn obeys_from_spec() -> bool {
        true
    }

    open spec fn from_spec(err: CommError) -> Self {
        Bmp390Error::Comm(err)
    }
}

/// Power mode (PWR_CTRL bits 5:4).
#[derive(Debug, Clone, Copy, PartialEq, Eq, Structural)]
pub enum SensorMode {
    /// No measurement
    Sleep,
    /// One measurement, then sleep
    Forced,
    /// Continuous measurement
    Normal,
}

impl SensorMode {
    /// Mode field code.
    pub open spec fn spec_bits(self) -> u8 {
        match self {
            SensorMode::Sleep => 0,
            SensorMode::Forced => 1,
            SensorMode::Normal => 3,
        }
    }

    /// Mode field code.
    pub fn bits(self) -> (r: u8)
        ensures
            r == self.spec_bits(),
            r <= 3,
    {
        match self {
            SensorMode::Sleep => 0,
            SensorMode::Forced => 1,
            SensorMode::Normal => 3,
        }
    }
}

/// Oversampling of a measured quantity.
#[derive(Debug, Clone, Copy, PartialEq, Eq, Structural)]
pub enum Oversampling {
    /// x1
    X1,
    /// x2
    X2,
    /// x4
    X4,
    /// x8
    X8,
    /// x16
    X16,
    /// x32
    X32,
}

impl Oversampling {
    /// Field code.
    pub open spec fn spec_bits(self) -> u8 {
        match self {
            Oversampling::X1 => 0,
            Oversampling::X2 => 1,
            Oversampling::X4 => 2,
            Oversampling::X8 => 3,
            Oversampling::X16 => 4,
            Oversampling::X32 => 5,
        }
    }

    /// Field code.
    pub fn bits(self) -> (r: u8)
        ensures
            r == self.spec_bits(),
            r <= 5,
    {
        match self {
            Oversampling::X1 => 0,
            Oversampling::X2 => 1,
            Oversampling::X4 => 2,
            Oversampling::X8 => 3,
            Oversampling::X16 => 4,
            Oversampling::X32 => 5,
        }
    }
}

/// Sensor configuration.
#[derive(Debug, Clone, Copy, PartialEq, Eq, Structural)]
pub struct Bmp390Config {
    /// Power mode used while measuring
    pub sensor_mode: SensorMode,
    /// Pressure oversampling
    pub pressure_os: Oversampling,
    /// Temperature oversampling
    pub temperature_os: Oversampling,
    /// Output data rate code (ODR register, 0..17)
    pub odr: u8,
    /// IIR filter coefficient code (CONFIG bits 3:1, 0..7)
    pub iir: u8,
    /// Data-ready interrupt enabled (INT_CTRL bit 6)
    pub drdy_irq: bool,
    /// Delay between status polls, in microseconds
    pub min_delay_us: u32,
}

/// PWR_CTRL value: pressure enable (bit 0), temperature enable (bit 1), mode (bits 5:4).
pub open spec fn power_ctrl(mode: SensorMode, press_en: bool, temp_en: bool) -> int {
    (if press_en {
        1int
    } else {
        0
    }) + (if temp_en {
        2int
    } else {
        0
    }) + mode.spec_bits() * 16
}

/// PWR_CTRL value: pressure enable (bit 0), temperature enable (bit 1), mode (bits 5:4).
pub fn power_ctrl_value(mode: SensorMode, press_en: bool, temp_en: bool) -> (r: u8)
    ensures
        r == power_ctrl(mode, press_en, temp_en),
{
    (if press_en {
        1u8
    } else {
        0u8
    }) + (if temp_en {
        2u8
    } else {
        0u8
    }) + mode.bits() * 16
}

impl Bmp390Config {
    /// Well-formed configuration: the rate and filter codes exist.
    pub open spec fn wf(self) -> bool {
        self.odr <= 17 && self.iir <= 7
    }

    /// Whether the rate and filter codes exist.
    pub fn is_valid(&self) -> (r: bool)
        ensures
            r == self.wf(),
    {
        self.odr <= 17 && self.iir <= 7
    }

    /// INT_CTRL value: the data-ready interrupt enable bit.
    pub open spec fn spec_irq_control(self) -> int {
        if self.drdy_irq {
            64
        } else {
            0
        }
    }

    /// OSR value: pressure code in bits 2:0, temperature code in bits 5:3.
    pub open spec fn spec_oversamp(self) -> int {
        self.pressure_os.spec_bits() + self.temperature_os.spec_bits() * 8
    }

    /// CONFIG value: filter code in bits 3:1 (the field holds three bits).
    pub open spec fn spec_filter(self) -> int {
        (self.iir % 8) * 2
    }

    /// Register writes that apply the configuration after a soft reset, each
    /// followed by an error check: power control (configured mode, both
    /// measurements on), interrupt control, filter, data rate, oversampling.
    pub open spec fn spec_reset_writes(self) -> Seq<(u8, u8)> {
        seq![
            (PWR_CTRL_ADDR, power_ctrl(self.sensor_mode, true, true) as u8),
            (INT_CTRL_ADDR, self.spec_irq_control() as u8),
            (CONFIG_ADDR, self.spec_filter() as u8),
            (ODR_ADDR, self.odr),
            (OSR_ADDR, self.spec_oversamp() as u8),
        ]
    }

    /// Register writes that apply the configuration after a soft reset.
    pub fn reset_writes(&self) -> (r: [(u8, u8); 5])
        ensures
            r@ == self.spec_reset_writes(),
    {
        let irq: u8 = if self.drdy_irq {
            64
        } else {
            0
        };
        let r = [
            (PWR_CTRL_ADDR, power_ctrl_value(self.sensor_mode, true, true)),
            (INT_CTRL_ADDR, irq),
            (CONFIG_ADDR, (self.iir % 8) * 2),
            (ODR_ADDR, self.odr),
            (OSR_ADDR, self.pressure_os.bits() + self.temperature_os.bits() * 8),
        ];
        assert(r@ =~= self.spec_reset_writes());
        r
    }

    /// Outcome of [`Self::reset_step`].
    pub open spec fn spec_reset_step<E>(self, next: usize, err: Option<u8>) -> Result<
        Option<(u8, u8)>,
        Bmp390Error<E>,
    > {
        match err {
            Some(e) if spec_check_error::<E>(e) is Err => match spec_check_error::<E>(e) {
                Err(x) => Err(x),
                Ok(_) => Ok(None),
            },
            _ => Ok(
                if next < 5 {
                    Some(self.spec_reset_writes()[next as int])
                } else {
                    None
                },
            ),
        }
    }

    /// One step of the reset sequence, after the soft reset: each write of
    /// [`Self::reset_writes`] is followed by a read of the error register.
    /// `next` writes are done; `err` is the error register read after the
    /// last of them (none before the first). An error there ends the
    /// sequence with that error; otherwise the next write follows, or the
    /// sequence succeeds when all are done.
    pub fn reset_step<E>(&self, next: usize, err: Option<u8>) -> (r: Result<
        Option<(u8, u8)>,
        Bmp390Error<E>,
    >)
        requires
            next <= 5,
        ensures
            r == self.spec_reset_step::<E>(next, err),
    {
        if let Some(e) = err {
            match check_error::<E>(e) {
                Err(x) => {
                    return Err(x);
                },
                Ok(()) => {},
            }
        }
        let writes = self.reset_writes();
        if next < 5 {
            Ok(Some(writes[next]))
        } else {
            Ok(None)
        }
    }

    /// PWR_CTRL value that starts measuring: configured mode, both
    /// measurements enabled.
    pub fn power_ctrl(&self) -> (r: u8)
        ensures
            r == power_ctrl(self.sensor_mode, true, true),
    {
        power_ctrl_value(self.sensor_mode, true, true)
    }
}

/// Flags of ERR_REG: fatal (bit 0), command (bit 1), configuration (bit 2).
pub open spec fn err_flags(err: u8) -> (bool, bool, bool) {
    (err % 2 == 1, (err / 2) % 2 == 1, (err / 4) % 2 == 1)
}

/// Outcome of the error register: a fatal error first, then a
/// configuration error, then a command error.
pub open spec fn spec_check_error<E>(err: u8) -> Result<(), Bmp390Error<E>> {
    if err_flags(err).0 {
        Err(Bmp390Error::FatalError)
    } else if err_flags(err).2 {
        Err(Bmp390Error::InvalidConfiguration)
    } else if err_flags(err).1 {
        Err(Bmp390Error::InvalidCommand)
    } else {
        Ok(())
    }
}

/// Outcome of the error register: a fatal error first, then a
/// configuration error, then a command error.
pub fn check_error<E>(err: u8) -> (r: Result<(), Bmp390Error<E>>)
    ensures
        r == spec_check_error::<E>(err),
        err_flags(err).0 ==> r == Err::<(), Bmp390Error<E>>(Bmp390Error::FatalError),
        !err_flags(err).0 && err_flags(err).2 ==> r == Err::<(), Bmp390Error<E>>(
            Bmp390Error::InvalidConfiguration,
        ),
        !err_flags(err).0 && !err_flags(err).2 && err_flags(err).1 ==> r == Err::<
            (),
            Bmp390Error<E>,
        >(Bmp390Error::InvalidCommand),
        !err_flags(err).0 && !err_flags(err).1 && !err_flags(err).2 ==> r is Ok,
{
    if err % 2 == 1 {
        Err(Bmp390Error::FatalError)
    } else if (err / 4) % 2 == 1 {
        Err(Bmp390Error::InvalidConfiguration)
    } else if (err / 2) % 2 == 1 {
        Err(Bmp390Error::InvalidCommand)
    } else {
        Ok(())
    }
}

/// Check the chip identifier.
pub fn check_chip_id<E>(id: u8) -> (r: Result<(), Bmp390Error<E>>)
    ensures
        id == CHIP_ID <==> r is Ok,
        r is Err ==> r == Err::<(), Bmp390Error<E>>(Bmp390Error::InvalidDevice),
{
    if id == CHIP_ID {
        Ok(())
    } else {
        Err(Bmp390Error::InvalidDevice)
    }
}

/// Data-ready flags of STATUS: pressure (bit 5), temperature (bit 6).
pub open spec fn status_flags(status: u8) -> (bool, bool) {
    ((status / 32) % 2 == 1, (status / 64) % 2 == 1)
}

/// Whether a status shows new pressure or temperature data.
pub fn data_ready(status: u8) -> (r: bool)
    ensures
        r == (status_flags(status).0 || status_flags(status).1),
{
    (status / 32) % 2 == 1 || (status / 64) % 2 == 1
}

/// Sensor readout.
#[derive(Debug, Clone, Copy, PartialEq, Eq, Structural)]
pub struct Measurement {
    /// Raw 24-bit pressure data, if new
    pub pressure: Option<u32>,
    /// Raw 24-bit temperature data, if new
    pub temperature: Option<u32>,
}

/// Parse the six data bytes (pressure then temperature, 24 bits each,
/// little-endian); a quantity is present when its data-ready flag is set.
pub fn parse_measurement(status: u8, buf: [u8; 6]) -> (r: Measurement)
    ensures
        r.pressure == (if status_flags(status).0 {
            Some((buf[0] + buf[1] * 256 + buf[2] * 65536) as u32)
        } else {
            None
        }),
        r.temperature == (if status_flags(status).1 {
            Some((buf[3] + buf[4] * 256 + buf[5] * 65536) as u32)
        } else {
            None
        }),
{
    let pressure = if (status / 32) % 2 == 1 {
        Some((buf[0] as u32) + (buf[1] as u32) * 256 + (buf[2] as u32) * 65536)
    } else {
        None
    };
    let temperature = if (status / 64) % 2 == 1 {
        Some((buf[3] as u32) + (buf[4] as u32) * 256 + (buf[5] as u32) * 65536)
    } else {
        None
    };
    Measurement { pressure, temperature }
}

/// I2C bus with the device address.
pub struct I2cInterface<I2C> {
    /// The bus
    pub i2c: I2C,
    /// 7-bit device address
    pub address: u8,
}

/// SPI device.
pub struct SpiInterface<SPI> {
    /// The device
    pub spi: SPI,
}

/// BMP390 with blocking interface.
pub struct Bmp390Sync<IFACE, D> {
    iface: IFACE,
    delay: D,
    config: Bmp390Config,
    running: bool,
}

impl<IFACE, D> Bmp390Sync<IFACE, D> {
    /// The bus interface.
    pub closed spec fn spec_iface(&self) -> IFACE {
        self.iface
    }

    /// The delay provider.
    pub closed spec fn spec_delay(&self) -> D {
        self.delay
    }

    /// Configuration.
    pub closed spec fn spec_config(&self) -> Bmp390Config {
        self.config
    }

    /// Whether continuous measurement runs.
    pub closed spec fn spec_running(&self) -> bool {
        self.running
    }

    /// Configuration.
    pub fn config(&self) -> (r: Bmp390Config)
        ensures
            r == self.spec_config(),
    {
        self.config
    }

    /// Whether continuous measurement runs.
    pub fn running(&self) -> (r: bool)
        ensures
            r == self.spec_running(),
    {
        self.running
    }

    /// Destroy the device and return the underlying bus and delay provider.
    pub fn destroy(self) -> (r: (IFACE, D))
        ensures
            r == (self.spec_iface(), self.spec_delay()),
    {
        (self.iface, self.delay)
    }

    /// Mutable access to the bus interface and the delay provider, for the
    /// code that performs the transfers.
    pub fn io_mut(&mut self) -> (r: (&mut IFACE, &mut D))
        ensures
            *r.0 == old(self).spec_iface(),
            *r.1 == old(self).spec_delay(),
            final(self).spec_iface() == *final(r.0),
            final(self).spec_delay() == *final(r.1),
            final(self).spec_running() == old(self).spec_running(),
            final(self).spec_config() == old(self).spec_config(),
    {
        (&mut self.iface, &mut self.delay)
    }

    /// PWR_CTRL value to write to start measuring, or nothing when
    /// measurement already runs.
    pub fn start_write(&self) -> (r: Option<u8>)
        ensures
            self.spec_running() <==> r is None,
            r matches Some(v) ==> v == power_ctrl(self.spec_config().sensor_mode, true, true),
    {
        if self.running {
            None
        } else {
            Some(self.config.power_ctrl())
        }
    }

    /// PWR_CTRL value to write to stop measuring (sleep, both measurements
    /// off), or nothing when measurement does not run.
    pub fn stop_write(&self) -> (r: Option<u8>)
        ensures
            !self.spec_running() <==> r is None,
            r matches Some(v) ==> v == power_ctrl(SensorMode::Sleep, false, false),
    {
        if !self.running {
            None
        } else {
            Some(power_ctrl_value(SensorMode::Sleep, false, false))
        }
    }

    /// Record the outcome of the error check that follows a start or stop
    /// write: on success measurement runs (or stops) as requested.
    pub fn finish_mode_change<E>(&mut self, running: bool, err: u8) -> (r: Result<
        (),
        Bmp390Error<E>,
    >)
        ensures
            r == spec_check_error::<E>(err),
            r is Ok <==> !err_flags(err).0 && !err_flags(err).1 && !err_flags(err).2,
            r is Ok ==> final(self).spec_running() == running,
            r is Err ==> final(self).spec_running() == old(self).spec_running(),
            final(self).spec_config() == old(self).spec_config(),
            final(self).spec_iface() == old(self).spec_iface(),
            final(self).spec_delay() == old(self).spec_delay(),
    {
        let res = check_error(err);
        if res.is_ok() {
            self.running = running;
        }
        res
    }

    /// A measurement may only be read while measurement runs.
    pub fn check_running<E>(&self) -> (r: Result<(), Bmp390Error<E>>)
        ensures
            self.spec_running() <==> r is Ok,
            r is Err ==> r == Err::<(), Bmp390Error<E>>(Bmp390Error::NotReady),
    {
        if self.running {
            Ok(())
        } else {
            Err(Bmp390Error::NotReady)
        }
    }
}

impl<I2C, D> Bmp390Sync<I2cInterface<I2C>, D> {
    /// Create a new instance on an I2C bus.
    pub fn new_with_i2c(i2c: I2C, address: u8, config: Bmp390Config, delay: D) -> (r: Self)
        ensures
            r.spec_iface().i2c == i2c,
            r.spec_iface().address == address,
            r.spec_delay() == delay,
            r.spec_config() == config,
            !r.spec_running(),
    {
        Bmp390Sync { iface: I2cInterface { i2c, address }, delay, config, running: false }
    }
}

impl<SPI, D> Bmp390Sync<SpiInterface<SPI>, D> {
    /// Create a new instance on an SPI device.
    pub fn new_with_spi(spi: SPI, config: Bmp390Config, delay: D) -> (r: Self)
        ensures
            r.spec_iface().spi == spi,
            r.spec_delay() == delay,
            r.spec_config() == config,
            !r.spec_running(),
    {
        Bmp390Sync { iface: SpiInterface { spi }, delay, config, running: false }
    }
}

/// The value of a byte read as a two's-complement signed byte.
pub open spec fn as_signed8(v: int) -> int {
    if v >= 128 {
        v - 256
    } else {
        v
    }
}

/// Signed byte of a register byte.
fn signed8(b: u8) -> (r: i8)
    ensures
        r == as_signed8(b as int),
{
    if b >= 128 {
        let v: i16 = (b as i16) - 256;
        v as i8
    } else {
        b as i8
    }
}

/// Unsigned little-endian word of two register bytes.
fn word16(lo: u8, hi: u8) -> (r: u16)
    ensures
        r == le16(lo, hi),
{
    (lo as u16) + (hi as u16) * 256
}

/// Signed little-endian word of two register bytes.
fn signed16(lo: u8, hi: u8) -> (r: i16)
    ensures
        r == as_signed16(le16(lo, hi)),
{
    let w: u16 = word16(lo, hi);
    if w >= 32768 {
        let v: i32 = (w as i32) - 65536;
        v as i16
    } else {
        w as i16
    }
}

/// Factory calibration words of the NVM (registers 0x31..0x45), as
/// stored: T1, T2 unsigned words; T3 signed byte; P1, P2 signed words; P3,
/// P4 signed bytes; P5, P6 unsigned words; P7, P8 signed bytes; P9 signed
/// word; P10, P11 signed bytes.
#[derive(Debug, Clone, Copy, PartialEq, Eq, Structural)]
pub struct CalibrationRaw {
    /// NVM_PAR_T1
    pub t1: u16,
    /// NVM_PAR_T2
    pub t2: u16,
    /// NVM_PAR_T3
    pub t3: i8,
    /// NVM_PAR_P1
    pub p1: i16,
    /// NVM_PAR_P2
    pub p2: i16,
    /// NVM_PAR_P3
    pub p3: i8,
    /// NVM_PAR_P4
    pub p4: i8,
    /// NVM_PAR_P5
    pub p5: u16,
    /// NVM_PAR_P6
    pub p6: u16,
    /// NVM_PAR_P7
    pub p7: i8,
    /// NVM_PAR_P8
    pub p8: i8,
    /// NVM_PAR_P9
    pub p9: i16,
    /// NVM_PAR_P10
    pub p10: i8,
    /// NVM_PAR_P11
    pub p11: i8,
}

/// Calibration words of the 21 NVM bytes read from NVM_PAR_T1_0.
pub open spec fn spec_calibration_raw(b: Seq<u8>) -> CalibrationRaw {
    CalibrationRaw {
        t1: le16(b[0], b[1]) as u16,
        t2: le16(b[2], b[3]) as u16,
        t3: as_signed8(b[4] as int) as i8,
        p1: as_signed16(le16(b[5], b[6])) as i16,
        p2: as_signed16(le16(b[7], b[8])) as i16,
        p3: as_signed8(b[9] as int) as i8,
        p4: as_signed8(b[10] as int) as i8,
        p5: le16(b[11], b[12]) as u16,
        p6: le16(b[13], b[14]) as u16,
        p7: as_signed8(b[15] as int) as i8,
        p8: as_signed8(b[16] as int) as i8,
        p9: as_signed16(le16(b[17], b[18])) as i16,
        p10: as_signed8(b[19] as int) as i8,
        p11: as_signed8(b[20] as int) as i8,
    }
}

impl CalibrationRaw {
    /// Decode the 21 NVM bytes read from NVM_PAR_T1_0.
    pub fn from_registers(b: [u8; 21]) -> (r: CalibrationRaw)
        ensures
            r == spec_calibration_raw(b@),
    {
        CalibrationRaw {
            t1: word16(b[0], b[1]),
            t2: word16(b[2], b[3]),
            t3: signed8(b[4]),
            p1: signed16(b[5], b[6]),
            p2: signed16(b[7], b[8]),
            p3: signed8(b[9]),
            p4: signed8(b[10]),
            p5: word16(b[11], b[12]),
            p6: word16(b[13], b[14]),
            p7: signed8(b[15]),
            p8: signed8(b[16]),
            p9: signed16(b[17], b[18]),
            p10: signed8(b[19]),
            p11: signed8(b[20]),
        }
    }
}

} // verus!
