//! BMI323 6-axis IMU: measurement ranges, raw measurement packing, data
//! parsing, register decoding and the auto-ranging rule.
use vstd::prelude::*;

use crate::arith::{as_signed16, ceil_div, le16, le32};

pub mod registers;

pub use registers::{OutputDataRate, RawAccelRange, RawGyroRange};
use registers::{
    bit16, conf_word, feature_error_of, feature_errors, make_conf_word, make_sc_select_word,
    sc_select_word, self_proc_done, ErrorReg, FeatureIo1Error, SaturationReg, SensorMode,
    StatusReg, ACC_CONF_ADDR, CHIP_ID, FEATURE_CTRL_ADDR, FIFO_CONF_ADDR, GYR_CONF_ADDR,
    GYR_SC_SELECT_ADDR, INT_MAP2_ADDR, IO_I2C_IF_ADDR, IO_INT_CTRL_ADDR,
};

verus! {

/// Default I2C address for the BMI323 sensor.
pub const DEFAULT_I2C_ADDRESS: u8 = 0x68;

/// Maximum number of status polls before giving up.
pub const MAX_LOOPS: usize = 100;

/// Peak level (25 % of full scale) below which a range may step down.
pub const DOWN_THRESHOLD: u16 = 8192;

/// Marker for the bus interfaces of the sensor.
pub trait Interface {}

/// I2C interface for the BMI323 sensor.
pub struct I2cInterface<I2C> {
    /// The bus
    pub i2c: I2C,
    /// 7-bit device address
    pub address: u8,
}

/// SPI interface for the BMI323 sensor.
pub struct SpiInterface<SPI> {
    /// The device
    pub spi: SPI,
}

impl<I2C> Interface for I2cInterface<I2C> {}

impl<SPI> Interface for SpiInterface<SPI> {}

/// Errors that can occur when interacting with the BMI323 sensor.
#[derive(Debug, PartialEq, Eq, Structural)]
pub enum Bmi323Error<CommError> {
    /// Communication error
    Comm(CommError),
    /// Fatal error reported by the sensor
    FatalError,
    /// Invalid accelerometer configuration
    InvalidAccelConfig,
    /// Invalid gyroscope configuration
    InvalidGyroConfig,
    /// Invalid device (wrong device ID)
    InvalidDevice,
    /// Driver not ready (e.g., measurement not started)
    NotReady,
    /// No new data available to read
    NoDataAvailable,
    /// Driver is currently busy (e.g., during calibration)
    Busy,
    /// Operation requires a restart of the sensor
    RestartRequired,
    /// Self-calibration process timed out
    SelfCalTimedOut,
    /// No sensors (accelerometer or gyroscope) are enabled
    NoSensorsEnabled,
    /// Invalid access
    InvalidAccess,
    /// Measurement discarded because auto-ranging adjusted the sensor range;
    /// the next read is taken at the new range.
    AutoRangeAdjusted,
}

impl<CommError> From<CommError> for Bmi323Error<CommError> {
    fn from(err: CommError) -> (r: Self) {
        Bmi323Error::Comm(err)
    }
}

impl<CommError> vstd::std_specs::convert::FromSpecImpl<CommError> for Bmi323Error<CommError> {
    open spec fn obeys_from_spec() -> bool {
        true
    }

    open spec fn from_spec(err: CommError) -> Self {
        Bmi323Error::Comm(err)
    }
}

/// 3D measurement type, with the range it was taken at.
#[derive(Debug, Clone, Copy, PartialEq, Eq, Structural)]
pub enum Measurement3DKind {
    /// Accelerometer measurement
    Accel(RawAccelRange),
    /// Gyroscope measurement
    Gyro(RawGyroRange),
}

impl Measurement3DKind {
    /// Byte encoding: the range code, with bit 7 set for the gyroscope.
    pub open spec fn spec_into_bits(self) -> u8 {
        match self {
            Measurement3DKind::Accel(r) => r.spec_bits(),
            Measurement3DKind::Gyro(r) => (0x80 + r.spec_bits()) as u8,
        }
    }

    /// Kind of a byte: bit 7 selects the gyroscope, bits 6:0 the range.
    pub open spec fn spec_from_bits(bits: u8) -> Measurement3DKind {
        if bits < 0x80 {
            Measurement3DKind::Accel(RawAccelRange::spec_from_u8(bits))
        } else {
            Measurement3DKind::Gyro(RawGyroRange::spec_from_u8((bits - 0x80) as u8))
        }
    }

    /// Byte encoding: the range code, with bit 7 set for the gyroscope.
    pub fn into_bits(self) -> (r: u8)
        ensures
            r == self.spec_into_bits(),
    {
        match self {
            Measurement3DKind::Accel(range) => range.into_bits(),
            Measurement3DKind::Gyro(range) => 0x80 + range.into_bits(),
        }
    }

    /// Kind of a byte: bit 7 selects the gyroscope, bits 6:0 the range.
    pub fn from_bits(bits: u8) -> (r: Measurement3DKind)
        ensures
            r == Measurement3DKind::spec_from_bits(bits),
    {
        if bits < 0x80 {
            Measurement3DKind::Accel(RawAccelRange::from_u8(bits))
        } else {
            Measurement3DKind::Gyro(RawGyroRange::from_u8(bits - 0x80))
        }
    }
}

/// Decoding the byte of a kind gives the kind back.
pub proof fn lemma_kind_roundtrip(k: Measurement3DKind)
    ensures
        Measurement3DKind::spec_from_bits(k.spec_into_bits()) == k,
{
    match k {
        Measurement3DKind::Accel(r) => registers::lemma_accel_range_roundtrip(r),
        Measurement3DKind::Gyro(r) => registers::lemma_gyro_range_roundtrip(r),
    }
}

/// Raw three-axis measurement with its kind; packs into 64 bits as x, y, z
/// (16 bits each, from bit 0) and the kind byte at bit 48.
#[derive(Debug, Clone, Copy, PartialEq, Eq, Structural)]
pub struct MeasurementRaw3D {
    /// X axis reading
    pub x: i16,
    /// Y axis reading
    pub y: i16,
    /// Z axis reading
    pub z: i16,
    /// Sensor and range of the reading
    pub kind: Measurement3DKind,
}

/// Two's-complement 16-bit pattern of a signed value.
pub open spec fn word16(v: i16) -> int {
    if v < 0 {
        v + 65536
    } else {
        v as int
    }
}

fn word16_exec(v: i16) -> (r: u16)
    ensures
        r == word16(v),
{
    if v < 0 {
        ((v as i32) + 65536) as u16
    } else {
        v as u16
    }
}

fn signed16_exec(w: u64) -> (r: i16)
    requires
        w < 65536,
    ensures
        r == as_signed16(w as int),
{
    if w >= 32768 {
        ((w as i64) - 65536) as i16
    } else {
        w as i16
    }
}

impl MeasurementRaw3D {
    /// X axis reading.
    pub open spec fn spec_x(self) -> i16 {
        self.x
    }

    /// Y axis reading.
    pub open spec fn spec_y(self) -> i16 {
        self.y
    }

    /// Z axis reading.
    pub open spec fn spec_z(self) -> i16 {
        self.z
    }

    /// Kind of the reading.
    pub open spec fn spec_kind(self) -> Measurement3DKind {
        self.kind
    }

    /// All axes zero, accelerometer at the smallest range (all bits zero).
    pub fn new() -> (r: Self)
        ensures
            r.spec_x() == 0 && r.spec_y() == 0 && r.spec_z() == 0,
            r.spec_kind() == Measurement3DKind::Accel(RawAccelRange::G2),
    {
        MeasurementRaw3D { x: 0, y: 0, z: 0, kind: Measurement3DKind::Accel(RawAccelRange::G2) }
    }

    /// X axis reading.
    pub fn x(&self) -> (r: i16)
        ensures
            r == self.spec_x(),
    {
        self.x
    }

    /// Y axis reading.
    pub fn y(&self) -> (r: i16)
        ensures
            r == self.spec_y(),
    {
        self.y
    }

    /// Z axis reading.
    pub fn z(&self) -> (r: i16)
        ensures
            r == self.spec_z(),
    {
        self.z
    }

    /// Kind of the reading.
    pub fn kind(&self) -> (r: Measurement3DKind)
        ensures
            r == self.spec_kind(),
    {
        self.kind
    }

    /// Replace the X reading.
    pub fn with_x(self, v: i16) -> (r: Self)
        ensures
            r == (MeasurementRaw3D { x: v, ..self }),
    {
        MeasurementRaw3D { x: v, ..self }
    }

    /// Replace the Y reading.
    pub fn with_y(self, v: i16) -> (r: Self)
        ensures
            r == (MeasurementRaw3D { y: v, ..self }),
    {
        MeasurementRaw3D { y: v, ..self }
    }

    /// Replace the Z reading.
    pub fn with_z(self, v: i16) -> (r: Self)
        ensures
            r == (MeasurementRaw3D { z: v, ..self }),
    {
        MeasurementRaw3D { z: v, ..self }
    }

    /// Replace the kind.
    pub fn with_kind(self, k: Measurement3DKind) -> (r: Self)
        ensures
            r == (MeasurementRaw3D { kind: k, ..self }),
    {
        MeasurementRaw3D { kind: k, ..self }
    }

    /// The 64-bit packing.
    pub open spec fn spec_into_bits(self) -> u64 {
        (word16(self.x) + word16(self.y) * 0x1_0000 + word16(self.z) * 0x1_0000_0000
            + self.kind.spec_into_bits() * 0x1_0000_0000_0000) as u64
    }

    /// Unpacking of 64 bits; the top byte is reserved and ignored.
    pub open spec fn spec_from_bits(bits: u64) -> MeasurementRaw3D {
        MeasurementRaw3D {
            x: as_signed16((bits % 0x1_0000) as int) as i16,
            y: as_signed16(((bits / 0x1_0000) % 0x1_0000) as int) as i16,
            z: as_signed16(((bits / 0x1_0000_0000) % 0x1_0000) as int) as i16,
            kind: Measurement3DKind::spec_from_bits(((bits / 0x1_0000_0000_0000) % 0x100) as u8),
        }
    }

    /// The 64-bit packing.
    pub fn into_bits(self) -> (r: u64)
        ensures
            r == self.spec_into_bits(),
    {
        (word16_exec(self.x) as u64) + (word16_exec(self.y) as u64) * 0x1_0000 + (word16_exec(
            self.z,
        ) as u64) * 0x1_0000_0000 + (self.kind.into_bits() as u64) * 0x1_0000_0000_0000
    }

    /// Unpacking of 64 bits; the top byte is reserved and ignored.
    pub fn from_bits(bits: u64) -> (r: Self)
        ensures
            r == MeasurementRaw3D::spec_from_bits(bits),
    {
        MeasurementRaw3D {
            x: signed16_exec(bits % 0x1_0000),
            y: signed16_exec((bits / 0x1_0000) % 0x1_0000),
            z: signed16_exec((bits / 0x1_0000_0000) % 0x1_0000),
            kind: Measurement3DKind::from_bits(((bits / 0x1_0000_0000_0000) % 0x100) as u8),
        }
    }
}

/// Unpacking the 64-bit packing of a measurement gives it back.
pub proof fn lemma_raw3d_roundtrip(m: MeasurementRaw3D)
    ensures
        MeasurementRaw3D::spec_from_bits(m.spec_into_bits()) == m,
{
    let a = word16(m.x);
    let b = word16(m.y);
    let c = word16(m.z);
    let k = m.kind.spec_into_bits() as int;
    let v = a + b * 0x1_0000 + c * 0x1_0000_0000 + k * 0x1_0000_0000_0000;
    assert(v % 0x1_0000 == a && (v / 0x1_0000) % 0x1_0000 == b && (v / 0x1_0000_0000) % 0x1_0000
        == c && (v / 0x1_0000_0000_0000) % 0x100 == k) by (nonlinear_arith)
        requires
            0 <= a < 0x1_0000,
            0 <= b < 0x1_0000,
            0 <= c < 0x1_0000,
            0 <= k < 0x100,
            v == a + b * 0x1_0000 + c * 0x1_0000_0000 + k * 0x1_0000_0000_0000,
    ;
    lemma_kind_roundtrip(m.kind);
}

/// Raw temperature measurement.
#[derive(Debug, Clone, Copy, PartialEq, Eq, Structural)]
pub struct TemperatureMeasurement(pub i16);

/// Raw timestamp.
#[derive(Debug, Clone, Copy, PartialEq, Eq, Structural)]
pub struct TimestampMeasurement(pub u32);

/// Sensor readout.
#[derive(Debug, Clone, Copy, PartialEq, Eq, Structural)]
pub struct Measurement {
    /// Accelerometer data, if new
    pub accel: Option<MeasurementRaw3D>,
    /// Gyroscope data, if new
    pub gyro: Option<MeasurementRaw3D>,
    /// Temperature data, if new
    pub temp: Option<TemperatureMeasurement>,
    /// Timestamp
    pub timestamp: TimestampMeasurement,
}

/// Type of gyroscope self-calibration.
#[derive(Debug, Clone, Copy, PartialEq, Eq, Structural)]
pub enum SelfCalibrateType {
    /// Calibrate only sensitivity
    Sensitivity,
    /// Calibrate only offset
    Offset,
    /// Calibrate both sensitivity and offset
    Both,
}

impl SelfCalibrateType {
    /// Whether the sensitivity is calibrated.
    pub fn sensitivity(&self) -> (r: bool)
        ensures
            r == (*self == SelfCalibrateType::Sensitivity || *self == SelfCalibrateType::Both),
    {
        match self {
            SelfCalibrateType::Sensitivity => true,
            SelfCalibrateType::Both => true,
            SelfCalibrateType::Offset => false,
        }
    }

    /// Whether the offset is calibrated.
    pub fn offset(&self) -> (r: bool)
        ensures
            r == (*self == SelfCalibrateType::Offset || *self == SelfCalibrateType::Both),
    {
        match self {
            SelfCalibrateType::Offset => true,
            SelfCalibrateType::Both => true,
            SelfCalibrateType::Sensitivity => false,
        }
    }
}

/// Number of consecutive samples needed for the step-down hysteresis, given
/// the sensor period and the hysteresis duration in microseconds, saturated
/// at `u16::MAX`.
pub fn compute_down_threshold(period_us: u32, hysteresis_us: u32) -> (r: u16)
    requires
        period_us > 0,
    ensures
        r == (if ceil_div(hysteresis_us as int, period_us as int) > u16::MAX {
            u16::MAX as int
        } else {
            ceil_div(hysteresis_us as int, period_us as int)
        }),
{
    let q: u32 = hysteresis_us / period_us;
    proof {
        if hysteresis_us % period_us != 0 {
            assert(period_us >= 2);
            assert(q <= hysteresis_us / 2) by (nonlinear_arith)
                requires
                    period_us >= 2,
                    q == hysteresis_us / period_us,
            ;
        }
    }
    let samples: u32 = if hysteresis_us % period_us != 0 {
        q + 1
    } else {
        q
    };
    proof {
        let h = hysteresis_us as int;
        let p = period_us as int;
        assert(samples == (h + p - 1) / p) by (nonlinear_arith)
            requires
                p > 0,
                h >= 0,
                q == h / p,
                samples == if h % p != 0 { q + 1 } else { q as int },
        ;
        assert(samples <= h) by (nonlinear_arith)
            requires
                p > 0,
                h >= 0,
                samples == (h + p - 1) / p,
        ;
    }
    if samples > 65535 {
        u16::MAX
    } else {
        samples as u16
    }
}

/// Configuration of the driver.
#[derive(Debug, Clone, Copy, PartialEq, Eq, Structural)]
pub struct Bmi323Config {
    /// Accelerometer range written at reset
    pub raw_accel_range: RawAccelRange,
    /// Gyroscope range written at reset
    pub raw_gyro_range: RawGyroRange,
    /// Whether measurement ranges follow the signal level
    pub auto_range: bool,
    /// Accelerometer output data rate
    pub accel_odr: OutputDataRate,
    /// Gyroscope output data rate
    pub gyro_odr: OutputDataRate,
    /// Duration the signal must stay low before a range steps down, in us
    pub auto_range_hysteresis_us: u32,
    /// Accelerometer mode while measuring (off: accelerometer disabled)
    pub accel_mode: SensorMode,
    /// Gyroscope mode while measuring (off: gyroscope disabled)
    pub gyro_mode: SensorMode,
    /// Whether data-ready interrupts signal new data
    pub irq_enabled: bool,
    /// Delay between status polls, in us
    pub min_delay_us: u32,
    /// FEATURE_CTRL word (bit 0 enables the feature engine)
    pub feature_engine_control: u16,
    /// FIFO_CONF word
    pub fifo_config: u16,
    /// INT_MAP2 word: which pin each data-ready interrupt goes to
    pub sensor_interrupt_map: u16,
    /// IO_I2C_IF word: I2C watchdog selection and enable
    pub i2c_watchdog_config: u16,
    /// IO_INT_CTRL word: level, drive and output enable of both pins
    pub int_pin_config: u16,
}

/// Auto-ranging state: active ranges, step-down counters and thresholds.
#[derive(Debug, Clone, Copy, PartialEq, Eq, Structural)]
pub struct RangeState {
    /// Accelerometer range in use
    pub active_accel_range: RawAccelRange,
    /// Gyroscope range in use
    pub active_gyro_range: RawGyroRange,
    /// Consecutive accelerometer samples below the step-down level
    pub accel_down_ctr: u16,
    /// Consecutive gyroscope samples below the step-down level
    pub gyro_down_ctr: u16,
    /// Samples needed before the accelerometer range steps down
    pub accel_down_threshold: u16,
    /// Samples needed before the gyroscope range steps down
    pub gyro_down_threshold: u16,
}

impl Bmi323Config {
    /// Auto-ranging state right after a reset with this configuration.
    pub open spec fn spec_initial_state(self) -> RangeState {
        RangeState {
            active_accel_range: self.raw_accel_range,
            active_gyro_range: self.raw_gyro_range,
            accel_down_ctr: 0,
            gyro_down_ctr: 0,
            accel_down_threshold: spec_down_threshold(
                self.accel_odr.spec_period_us(),
                self.auto_range_hysteresis_us,
            ),
            gyro_down_threshold: spec_down_threshold(
                self.gyro_odr.spec_period_us(),
                self.auto_range_hysteresis_us,
            ),
        }
    }

    /// Auto-ranging state right after a reset with this configuration.
    pub fn initial_state(&self) -> (r: RangeState)
        ensures
            r == self.spec_initial_state(),
    {
        RangeState {
            active_accel_range: self.raw_accel_range,
            active_gyro_range: self.raw_gyro_range,
            accel_down_ctr: 0,
            gyro_down_ctr: 0,
            accel_down_threshold: compute_down_threshold(
                self.accel_odr.period_us(),
                self.auto_range_hysteresis_us,
            ),
            gyro_down_threshold: compute_down_threshold(
                self.gyro_odr.period_us(),
                self.auto_range_hysteresis_us,
            ),
        }
    }
}

impl Bmi323Config {
    /// Accelerometer configuration word: data rate, range and mode.
    pub open spec fn spec_accel_config(self) -> u16 {
        conf_word(self.accel_odr.spec_bits(), self.raw_accel_range.spec_bits(), self.accel_mode.spec_bits())
    }

    /// Gyroscope configuration word: data rate, range and mode.
    pub open spec fn spec_gyro_config(self) -> u16 {
        conf_word(self.gyro_odr.spec_bits(), self.raw_gyro_range.spec_bits(), self.gyro_mode.spec_bits())
    }

    /// Register writes of the configuration at reset, in order: feature
    /// engine control, FIFO configuration, sensor interrupt map, I2C
    /// watchdog, interrupt pin control, accelerometer and gyroscope
    /// configuration.
    pub open spec fn spec_config_writes(self) -> Seq<(u8, u16)> {
        seq![
            (FEATURE_CTRL_ADDR, self.feature_engine_control),
            (FIFO_CONF_ADDR, self.fifo_config),
            (INT_MAP2_ADDR, self.sensor_interrupt_map),
            (IO_I2C_IF_ADDR, self.i2c_watchdog_config),
            (IO_INT_CTRL_ADDR, self.int_pin_config),
            (ACC_CONF_ADDR, self.spec_accel_config()),
            (GYR_CONF_ADDR, self.spec_gyro_config()),
        ]
    }

    /// Register writes of the configuration at reset.
    pub fn config_writes(&self) -> (r: [(u8, u16); 7])
        ensures
            r@ == self.spec_config_writes(),
    {
        let accel = make_conf_word(
            self.accel_odr.bits(),
            self.raw_accel_range.into_bits(),
            self.accel_mode.bits(),
        );
        let gyro = make_conf_word(
            self.gyro_odr.bits(),
            self.raw_gyro_range.into_bits(),
            self.gyro_mode.bits(),
        );
        let r = [
            (FEATURE_CTRL_ADDR, self.feature_engine_control),
            (FIFO_CONF_ADDR, self.fifo_config),
            (INT_MAP2_ADDR, self.sensor_interrupt_map),
            (IO_I2C_IF_ADDR, self.i2c_watchdog_config),
            (IO_INT_CTRL_ADDR, self.int_pin_config),
            (ACC_CONF_ADDR, accel),
            (GYR_CONF_ADDR, gyro),
        ];
        assert(r@ =~= self.spec_config_writes());
        r
    }

    /// The sensor modes to switch on when measurement starts: each enabled
    /// sensor with its configured mode; `NoSensorsEnabled` when both are
    /// off.
    pub fn start_modes<E>(&self) -> (r: Result<(Option<SensorMode>, Option<SensorMode>), Bmi323Error<E>>)
        ensures
            self.accel_mode == SensorMode::Off && self.gyro_mode == SensorMode::Off ==> r == Err::<
                (Option<SensorMode>, Option<SensorMode>),
                Bmi323Error<E>,
            >(Bmi323Error::NoSensorsEnabled),
            !(self.accel_mode == SensorMode::Off && self.gyro_mode == SensorMode::Off) ==> r == Ok::<
                (Option<SensorMode>, Option<SensorMode>),
                Bmi323Error<E>,
            >(
                (
                    if self.accel_mode == SensorMode::Off {
                        None
                    } else {
                        Some(self.accel_mode)
                    },
                    if self.gyro_mode == SensorMode::Off {
                        None
                    } else {
                        Some(self.gyro_mode)
                    },
                ),
            ),
    {
        let accel_on = !matches!(self.accel_mode, SensorMode::Off);
        let gyro_on = !matches!(self.gyro_mode, SensorMode::Off);
        match check_sensors_enabled::<E>(accel_on, gyro_on) {
            Err(e) => Err(e),
            Ok(()) => Ok(
                (
                    if accel_on {
                        Some(self.accel_mode)
                    } else {
                        None
                    },
                    if gyro_on {
                        Some(self.gyro_mode)
                    } else {
                        None
                    },
                ),
            ),
        }
    }
}

/// Check the chip identifier register (its low byte must be 0x43).
pub fn check_device_id<E>(id: u16) -> (r: Result<(), Bmi323Error<E>>)
    ensures
        r == (if id % 256 == CHIP_ID {
            Ok::<(), Bmi323Error<E>>(())
        } else {
            Err(Bmi323Error::InvalidDevice)
        }),
{
    if id % 256 == CHIP_ID as u16 {
        Ok(())
    } else {
        Err(Bmi323Error::InvalidDevice)
    }
}

/// Step-down sample count of [`compute_down_threshold`].
pub open spec fn spec_down_threshold(period_us: u32, hysteresis_us: u32) -> u16 {
    if ceil_div(hysteresis_us as int, period_us as int) > u16::MAX {
        u16::MAX
    } else {
        ceil_div(hysteresis_us as int, period_us as int) as u16
    }
}

/// BMI323 6-axis IMU device.
pub struct Bmi323Sync<IFACE, D> {
    iface: IFACE,
    delay: D,
    config: Bmi323Config,
    running: bool,
    ranges: RangeState,
}

impl<IFACE, D> Bmi323Sync<IFACE, D> {
    /// The bus interface.
    pub closed spec fn spec_iface(&self) -> IFACE {
        self.iface
    }

    /// The delay provider.
    pub closed spec fn spec_delay(&self) -> D {
        self.delay
    }

    /// Configuration for the sensor.
    pub closed spec fn spec_config(&self) -> Bmi323Config {
        self.config
    }

    /// Configuration for the sensor.
    pub fn config(&self) -> (r: Bmi323Config)
        ensures
            r == self.spec_config(),
    {
        self.config
    }

    /// Whether continuous measurement runs.
    pub closed spec fn spec_running(&self) -> bool {
        self.running
    }

    /// Auto-ranging state.
    pub closed spec fn spec_ranges(&self) -> RangeState {
        self.ranges
    }

    /// Whether continuous measurement runs.
    pub fn running(&self) -> (r: bool)
        ensures
            r == self.spec_running(),
    {
        self.running
    }

    /// Record whether continuous measurement runs.
    pub fn set_running(&mut self, running: bool)
        ensures
            final(self).spec_running() == running,
            final(self).spec_ranges() == old(self).spec_ranges(),
            final(self).spec_config() == old(self).spec_config(),
            final(self).spec_iface() == old(self).spec_iface(),
            final(self).spec_delay() == old(self).spec_delay(),
    {
        self.running = running;
    }

    /// Auto-ranging state.
    pub fn ranges(&self) -> (r: RangeState)
        ensures
            r == self.spec_ranges(),
    {
        self.ranges
    }

    /// Replace the auto-ranging state.
    pub fn set_ranges(&mut self, ranges: RangeState)
        ensures
            final(self).spec_ranges() == ranges,
            final(self).spec_running() == old(self).spec_running(),
            final(self).spec_config() == old(self).spec_config(),
            final(self).spec_iface() == old(self).spec_iface(),
            final(self).spec_delay() == old(self).spec_delay(),
    {
        self.ranges = ranges;
    }

    /// After the configuration was written at reset: the ranges of the
    /// configuration are active, the counters start at zero and the
    /// thresholds follow the data rates.
    pub fn reset_ranges(&mut self)
        ensures
            final(self).spec_ranges() == old(self).spec_config().spec_initial_state(),
            final(self).spec_running() == old(self).spec_running(),
            final(self).spec_config() == old(self).spec_config(),
            final(self).spec_iface() == old(self).spec_iface(),
            final(self).spec_delay() == old(self).spec_delay(),
    {
        self.ranges = self.config.initial_state();
    }

    /// Mutable access to the bus interface and the delay provider, for the
    /// code that performs the transfers.
    pub fn io_mut(&mut self) -> (r: (&mut IFACE, &mut D))
        ensures
            *r.0 == old(self).spec_iface(),
            *r.1 == old(self).spec_delay(),
            final(self).spec_iface() == *final(r.0),
            final(self).spec_delay() == *final(r.1),
            final(self).spec_running() == old(self).spec_running(),
            final(self).spec_ranges() == old(self).spec_ranges(),
            final(self).spec_config() == old(self).spec_config(),
    {
        (&mut self.iface, &mut self.delay)
    }
}

impl<I2C, D> Bmi323Sync<I2cInterface<I2C>, D> {
    /// Create a new instance on an I2C bus; the ranges of the configuration
    /// are active and the step-down thresholds follow its data rates.
    pub fn new_with_i2c(i2c: I2C, address: u8, config: Bmi323Config, delay: D) -> (r: Self)
        ensures
            r.spec_iface().i2c == i2c,
            r.spec_iface().address == address,
            r.spec_delay() == delay,
            r.spec_config() == config,
            !r.spec_running(),
            r.spec_ranges() == config.spec_initial_state(),
    {
        let ranges = config.initial_state();
        Bmi323Sync {
            iface: I2cInterface { i2c, address },
            delay,
            config,
            running: false,
            ranges,
        }
    }
}

impl<SPI, D> Bmi323Sync<SpiInterface<SPI>, D> {
    /// Create a new instance on an SPI device.
    pub fn new_with_spi(spi: SPI, config: Bmi323Config, delay: D) -> (r: Self)
        ensures
            r.spec_iface().spi == spi,
            r.spec_delay() == delay,
            r.spec_config() == config,
            !r.spec_running(),
            r.spec_ranges() == config.spec_initial_state(),
    {
        let ranges = config.initial_state();
        Bmi323Sync { iface: SpiInterface { spi }, delay, config, running: false, ranges }
    }
}

/// Outcome of the error register after a configuration was written.
pub fn check_error_reg<E>(err: ErrorReg) -> (r: Result<(), Bmi323Error<E>>)
    ensures
        err.fatal ==> r == Err::<(), Bmi323Error<E>>(Bmi323Error::FatalError),
        !err.fatal && err.accel_conf ==> r == Err::<(), Bmi323Error<E>>(
            Bmi323Error::InvalidAccelConfig,
        ),
        !err.fatal && !err.accel_conf && err.gyro_conf ==> r == Err::<(), Bmi323Error<E>>(
            Bmi323Error::InvalidGyroConfig,
        ),
        !err.fatal && !err.accel_conf && !err.gyro_conf ==> r is Ok,
{
    if err.fatal {
        Err(Bmi323Error::FatalError)
    } else if err.accel_conf {
        Err(Bmi323Error::InvalidAccelConfig)
    } else if err.gyro_conf {
        Err(Bmi323Error::InvalidGyroConfig)
    } else {
        Ok(())
    }
}

/// Starting a measurement needs at least one enabled sensor.
pub fn check_sensors_enabled<E>(accel_enabled: bool, gyro_enabled: bool) -> (r: Result<
    (),
    Bmi323Error<E>,
>)
    ensures
        r == (if !accel_enabled && !gyro_enabled {
            Err::<(), Bmi323Error<E>>(Bmi323Error::NoSensorsEnabled)
        } else {
            Ok(())
        }),
{
    if !accel_enabled && !gyro_enabled {
        Err(Bmi323Error::NoSensorsEnabled)
    } else {
        Ok(())
    }
}

/// The feature engine can run a self-calibration in these states.
pub open spec fn feature_engine_ready(v: u16) -> bool {
    feature_errors(v) == FeatureIo1Error::Active || feature_errors(v) == FeatureIo1Error::Activated
        || feature_errors(v) == FeatureIo1Error::NoError
}

/// First decision of a gyroscope self-calibration, taken before any bus
/// transfer: it is refused while measuring.
pub fn calibration_begin<E>(running: bool) -> (r: Result<(), Bmi323Error<E>>)
    ensures
        r == (if running {
            Err::<(), Bmi323Error<E>>(Bmi323Error::Busy)
        } else {
            Ok(())
        }),
{
    if running {
        Err(Bmi323Error::Busy)
    } else {
        Ok(())
    }
}

/// Second decision of a gyroscope self-calibration, on the FEATURE_IO1
/// value `feat_io1`: it goes on only with the feature engine active,
/// activated or without error.
pub fn calibration_start<E>(feat_io1: u16) -> (r: Result<(), Bmi323Error<E>>)
    ensures
        r == (if feature_engine_ready(feat_io1) {
            Ok::<(), Bmi323Error<E>>(())
        } else {
            Err(Bmi323Error::RestartRequired)
        }),
{
    let errors = feature_error_of(feat_io1);
    match errors {
        FeatureIo1Error::Active => Ok(()),
        FeatureIo1Error::Activated => Ok(()),
        FeatureIo1Error::NoError => Ok(()),
        _ => Err(Bmi323Error::RestartRequired),
    }
}

/// Register writes that prepare a gyroscope self-calibration, in order:
/// interrupt outputs off; accelerometer at 100 Hz, +/- 2 g, high
/// performance; gyroscope at 100 Hz, 125 dps, high performance; the
/// self-calibration selection with the correction applied.
pub fn calibration_writes(what: SelfCalibrateType) -> (r: [(u8, u16); 4])
    ensures
        r[0] == (IO_INT_CTRL_ADDR, 0u16),
        r[1] == (ACC_CONF_ADDR, conf_word(
            OutputDataRate::Hz100.spec_bits(),
            RawAccelRange::G2.spec_bits(),
            SensorMode::HighPerformance.spec_bits(),
        )),
        r[2] == (GYR_CONF_ADDR, conf_word(
            OutputDataRate::Hz100.spec_bits(),
            RawGyroRange::Dps125.spec_bits(),
            SensorMode::HighPerformance.spec_bits(),
        )),
        r[3] == (GYR_SC_SELECT_ADDR, sc_select_word(
            what == SelfCalibrateType::Sensitivity || what == SelfCalibrateType::Both,
            what == SelfCalibrateType::Offset || what == SelfCalibrateType::Both,
            true,
        )),
{
    let accel = make_conf_word(
        OutputDataRate::Hz100.bits(),
        RawAccelRange::G2.into_bits(),
        SensorMode::HighPerformance.bits(),
    );
    let gyro = make_conf_word(
        OutputDataRate::Hz100.bits(),
        RawGyroRange::Dps125.into_bits(),
        SensorMode::HighPerformance.bits(),
    );
    let select = make_sc_select_word(what.sensitivity(), what.offset(), true);
    [(IO_INT_CTRL_ADDR, 0u16), (ACC_CONF_ADDR, accel), (GYR_CONF_ADDR, gyro), (
        GYR_SC_SELECT_ADDR,
        select,
    )]
}

/// Progress of a gyroscope self-calibration after its preparing writes.
#[derive(Debug, Clone, Copy, PartialEq, Eq, Structural)]
pub enum CalibState {
    /// The error register read after the preparing writes is due
    CheckConfig,
    /// Waiting for the calibration to finish; the number of FEATURE_IO1
    /// reads left, this one included
    Polling(u8),
    /// The error register read after the configuration was restored is due
    CheckFinal,
    /// The calibration is over
    Finished,
}

/// What the caller does next in a gyroscope self-calibration.
#[derive(Debug, PartialEq, Eq, Structural)]
pub enum CalibAction<E> {
    /// Write the self-calibration command, wait 430 ms and read FEATURE_IO1
    StartSelfCal,
    /// Wait 5 ms and read FEATURE_IO1 again
    PollAgain,
    /// Write back the configured interrupt, accelerometer and gyroscope
    /// settings and read the error register
    Restore,
    /// The calibration ended with this result
    Done(Result<(), Bmi323Error<E>>),
}

/// One decision of the gyroscope self-calibration, given the register
/// value read in `state` (the error register, or FEATURE_IO1 while
/// polling).
pub open spec fn spec_calibration_step<E>(state: CalibState, reg: u16) -> (
    CalibState,
    CalibAction<E>,
) {
    match state {
        CalibState::CheckConfig => {
            if bit16(reg, 0) || bit16(reg, 5) || bit16(reg, 6) {
                (CalibState::Finished, CalibAction::Done(Err(Bmi323Error::FatalError)))
            } else {
                (CalibState::Polling(MAX_LOOPS as u8), CalibAction::StartSelfCal)
            }
        },
        CalibState::Polling(left) => {
            if self_proc_done(reg) {
                (CalibState::CheckFinal, CalibAction::Restore)
            } else if left <= 1 {
                (CalibState::Finished, CalibAction::Done(Err(Bmi323Error::SelfCalTimedOut)))
            } else {
                (CalibState::Polling((left - 1) as u8), CalibAction::PollAgain)
            }
        },
        CalibState::CheckFinal => {
            if bit16(reg, 0) {
                (CalibState::Finished, CalibAction::Done(Err(Bmi323Error::FatalError)))
            } else {
                (CalibState::Finished, CalibAction::Done(Ok(())))
            }
        },
        CalibState::Finished => (CalibState::Finished, CalibAction::Done(Ok(()))),
    }
}

/// One decision of the gyroscope self-calibration. After the preparing
/// writes, a fatal, accelerometer or gyroscope configuration error ends it
/// with `FatalError`; otherwise the calibration starts and FEATURE_IO1 is
/// read up to `MAX_LOOPS` times until bit 4 reports it done, else it ends
/// with `SelfCalTimedOut`; once done the configuration is restored and a
/// fatal error ends it with `FatalError`, else it succeeds.
pub fn calibration_step<E>(state: CalibState, reg: u16) -> (r: (CalibState, CalibAction<E>))
    requires
        !(state is Finished),
    ensures
        r == spec_calibration_step::<E>(state, reg),
{
    match state {
        CalibState::CheckConfig => {
            let err = ErrorReg::from_u16(reg);
            if err.fatal || err.accel_conf || err.gyro_conf {
                (CalibState::Finished, CalibAction::Done(Err(Bmi323Error::FatalError)))
            } else {
                (CalibState::Polling(100), CalibAction::StartSelfCal)
            }
        },
        CalibState::Polling(left) => {
            let done: bool = (reg / 16) % 2 == 1;
            if done {
                (CalibState::CheckFinal, CalibAction::Restore)
            } else if left <= 1 {
                (CalibState::Finished, CalibAction::Done(Err(Bmi323Error::SelfCalTimedOut)))
            } else {
                (CalibState::Polling(left - 1), CalibAction::PollAgain)
            }
        },
        CalibState::CheckFinal => {
            let err = ErrorReg::from_u16(reg);
            if err.fatal {
                (CalibState::Finished, CalibAction::Done(Err(Bmi323Error::FatalError)))
            } else {
                (CalibState::Finished, CalibAction::Done(Ok(())))
            }
        },
        CalibState::Finished => (CalibState::Finished, CalibAction::Done(Ok(()))),
    }
}

/// State after `n` FEATURE_IO1 reads that did not report the calibration
/// done, starting from `state`.
pub open spec fn polls_not_done(state: CalibState, n: nat) -> CalibState
    decreases n,
{
    if n == 0 {
        state
    } else {
        polls_not_done(spec_calibration_step::<()>(state, 0).0, (n - 1) as nat)
    }
}

/// A self-calibration that never reports done is given up after exactly
/// `MAX_LOOPS` reads: the first `MAX_LOOPS - 1` ask for another read, and
/// the last ends the calibration with `SelfCalTimedOut`; a read that
/// reports it done restores the configuration, whatever the count.
pub proof fn lemma_calibration_poll_limit<E>(k: nat, reg: u16)
    requires
        k < MAX_LOOPS,
    ensures
        polls_not_done(CalibState::Polling(MAX_LOOPS as u8), k) == CalibState::Polling(
            (MAX_LOOPS - k) as u8,
        ),
        !self_proc_done(reg) && k + 1 < MAX_LOOPS ==> spec_calibration_step::<E>(
            CalibState::Polling((MAX_LOOPS - k) as u8),
            reg,
        ).1 == CalibAction::<E>::PollAgain,
        !self_proc_done(reg) && k + 1 == MAX_LOOPS ==> spec_calibration_step::<E>(
            CalibState::Polling((MAX_LOOPS - k) as u8),
            reg,
        ) == (CalibState::Finished, CalibAction::<E>::Done(Err(Bmi323Error::SelfCalTimedOut))),
        self_proc_done(reg) ==> spec_calibration_step::<E>(
            CalibState::Polling((MAX_LOOPS - k) as u8),
            reg,
        ) == (CalibState::CheckFinal, CalibAction::<E>::Restore),
    decreases k,
{
    if k > 0 {
        lemma_calibration_poll_limit::<E>((k - 1) as nat, reg);
        lemma_polls_split(CalibState::Polling(MAX_LOOPS as u8), (k - 1) as nat);
        assert(!self_proc_done(0u16));
    }
}

proof fn lemma_polls_split(state: CalibState, n: nat)
    ensures
        polls_not_done(state, n + 1) == spec_calibration_step::<()>(
            polls_not_done(state, n),
            0,
        ).0,
    decreases n,
{
    reveal_with_fuel(polls_not_done, 2);
    if n > 0 {
        lemma_polls_split(spec_calibration_step::<()>(state, 0).0, (n - 1) as nat);
    }
}

/// Whether the gyroscope self-calibration correction is applied (bit 2 of
/// the self-calibration selection register).
pub fn calibrated(gyro_self_calib: u16) -> (r: bool)
    ensures
        r == bit16(gyro_self_calib, 2),
{
    (gyro_self_calib / 4) % 2 == 1
}

/// Little-endian signed word at `off`.
pub open spec fn i16_at(buf: Seq<u8>, off: int) -> i16 {
    as_signed16(le16(buf[off], buf[off + 1])) as i16
}

fn i16_le(lo: u8, hi: u8) -> (r: i16)
    ensures
        r == as_signed16(le16(lo, hi)),
{
    signed16_exec((lo as u64) + (hi as u64) * 256)
}

/// Measurement of the 18 data bytes starting at ACC_DATA_X: accelerometer
/// axes (bytes 0..5), gyroscope axes (6..11), temperature (12..13) and
/// timestamp (14..17), all little-endian; a quantity is present when its
/// data-ready flag is set, and the 3D readings carry the active ranges.
pub open spec fn spec_measurement(
    status: StatusReg,
    buf: Seq<u8>,
    accel_range: RawAccelRange,
    gyro_range: RawGyroRange,
) -> Measurement {
    Measurement {
        accel: if status.drdy_acc {
            Some(
                MeasurementRaw3D {
                    x: i16_at(buf, 0),
                    y: i16_at(buf, 2),
                    z: i16_at(buf, 4),
                    kind: Measurement3DKind::Accel(accel_range),
                },
            )
        } else {
            None
        },
        gyro: if status.drdy_gyr {
            Some(
                MeasurementRaw3D {
                    x: i16_at(buf, 6),
                    y: i16_at(buf, 8),
                    z: i16_at(buf, 10),
                    kind: Measurement3DKind::Gyro(gyro_range),
                },
            )
        } else {
            None
        },
        temp: if status.drdy_temp {
            Some(TemperatureMeasurement(i16_at(buf, 12)))
        } else {
            None
        },
        timestamp: TimestampMeasurement(le32(buf[14], buf[15], buf[16], buf[17]) as u32),
    }
}

/// Parse the 18 data bytes read after a data-ready status.
pub fn parse_measurement(
    status: StatusReg,
    buf: [u8; 18],
    accel_range: RawAccelRange,
    gyro_range: RawGyroRange,
) -> (r: Measurement)
    ensures
        r == spec_measurement(status, buf@, accel_range, gyro_range),
{
    let accel = if status.drdy_acc {
        Some(
            MeasurementRaw3D::new().with_x(i16_le(buf[0], buf[1])).with_y(
                i16_le(buf[2], buf[3]),
            ).with_z(i16_le(buf[4], buf[5])).with_kind(Measurement3DKind::Accel(accel_range)),
        )
    } else {
        None
    };
    let gyro = if status.drdy_gyr {
        Some(
            MeasurementRaw3D::new().with_x(i16_le(buf[6], buf[7])).with_y(
                i16_le(buf[8], buf[9]),
            ).with_z(i16_le(buf[10], buf[11])).with_kind(Measurement3DKind::Gyro(gyro_range)),
        )
    } else {
        None
    };
    let temp = if status.drdy_temp {
        Some(TemperatureMeasurement(i16_le(buf[12], buf[13])))
    } else {
        None
    };
    let ts: u32 = (buf[14] as u32) + (buf[15] as u32) * 256 + (buf[16] as u32) * 65536 + (
    buf[17] as u32) * 16777216;
    Measurement { accel, gyro, temp, timestamp: TimestampMeasurement(ts) }
}

/// Whether new data of any quantity is ready.
pub fn data_ready(status: StatusReg) -> (r: bool)
    ensures
        r == (status.drdy_acc || status.drdy_gyr || status.drdy_temp),
{
    status.drdy_acc || status.drdy_gyr || status.drdy_temp
}

/// Magnitude of a signed reading.
pub open spec fn abs16(v: i16) -> int {
    if v < 0 {
        -v
    } else {
        v as int
    }
}

/// Largest magnitude over the three axes.
pub open spec fn peak(m: MeasurementRaw3D) -> int {
    let a = abs16(m.x);
    let b = abs16(m.y);
    let c = abs16(m.z);
    if a >= b && a >= c {
        a
    } else if b >= c {
        b
    } else {
        c
    }
}

fn abs16_exec(v: i16) -> (r: u16)
    ensures
        r == abs16(v),
{
    if v < 0 {
        (-(v as i32)) as u16
    } else {
        v as u16
    }
}

fn peak_exec(m: &MeasurementRaw3D) -> (r: u16)
    ensures
        r == peak(*m),
{
    let a: u16 = abs16_exec(m.x);
    let b: u16 = abs16_exec(m.y);
    let c: u16 = abs16_exec(m.z);
    if a >= b && a >= c {
        a
    } else if b >= c {
        b
    } else {
        c
    }
}

/// Counter update for one below-level sample: the counter itself wraps as
/// an atomic add does, the value compared with the threshold saturates.
pub open spec fn counter_after(ctr: u16) -> (u16, int) {
    (((ctr + 1) % 65536) as u16, if ctr == u16::MAX {
        u16::MAX as int
    } else {
        ctr + 1
    })
}

/// Result of one auto-ranging step: the new state, the ranges to program
/// (if any), and whether the measurement must be discarded.
pub struct RangeStep {
    /// State after the step
    pub state: RangeState,
    /// Accelerometer range to program
    pub accel_change: Option<RawAccelRange>,
    /// Gyroscope range to program
    pub gyro_change: Option<RawGyroRange>,
    /// The measurement was clipped and must be discarded
    pub discard: bool,
}

/// Step-down decision for the accelerometer given its reading.
pub open spec fn accel_down(s: RangeState, accel: Option<MeasurementRaw3D>) -> (
    u16,
    Option<RawAccelRange>,
) {
    match accel {
        None => (s.accel_down_ctr, None),
        Some(a) => if peak(a) < DOWN_THRESHOLD {
            let (stored, cmp) = counter_after(s.accel_down_ctr);
            if cmp >= s.accel_down_threshold && s.active_accel_range.spec_step_down() is Some {
                (0, s.active_accel_range.spec_step_down())
            } else {
                (stored, None)
            }
        } else {
            (0, None)
        },
    }
}

/// Step-down decision for the gyroscope given its reading.
pub open spec fn gyro_down(s: RangeState, gyro: Option<MeasurementRaw3D>) -> (
    u16,
    Option<RawGyroRange>,
) {
    match gyro {
        None => (s.gyro_down_ctr, None),
        Some(g) => if peak(g) < DOWN_THRESHOLD {
            let (stored, cmp) = counter_after(s.gyro_down_ctr);
            if cmp >= s.gyro_down_threshold && s.active_gyro_range.spec_step_down() is Some {
                (0, s.active_gyro_range.spec_step_down())
            } else {
                (stored, None)
            }
        } else {
            (0, None)
        },
    }
}

/// The auto-ranging rule. A saturated axis steps its sensor's range up (when
/// a larger range exists) and discards the measurement. Otherwise, a reading
/// whose peak stays below 25 % of full scale counts towards a step down,
/// which happens once the counter reaches the threshold; a larger peak
/// clears the counter. A range change clears the counter of that sensor.
pub open spec fn spec_auto_range(
    s: RangeState,
    sat: SaturationReg,
    accel: Option<MeasurementRaw3D>,
    gyro: Option<MeasurementRaw3D>,
) -> RangeStep {
    let up_a = if sat.acc_x || sat.acc_y || sat.acc_z {
        s.active_accel_range.spec_step_up()
    } else {
        None
    };
    let up_g = if sat.gyr_x || sat.gyr_y || sat.gyr_z {
        s.active_gyro_range.spec_step_up()
    } else {
        None
    };
    if up_a is Some || up_g is Some {
        RangeStep {
            state: RangeState {
                active_accel_range: if up_a is Some {
                    up_a->0
                } else {
                    s.active_accel_range
                },
                active_gyro_range: if up_g is Some {
                    up_g->0
                } else {
                    s.active_gyro_range
                },
                accel_down_ctr: if up_a is Some {
                    0
                } else {
                    s.accel_down_ctr
                },
                gyro_down_ctr: if up_g is Some {
                    0
                } else {
                    s.gyro_down_ctr
                },
                ..s
            },
            accel_change: up_a,
            gyro_change: up_g,
            discard: true,
        }
    } else {
        let (actr, da) = accel_down(s, accel);
        let (gctr, dg) = gyro_down(s, gyro);
        RangeStep {
            state: RangeState {
                active_accel_range: if da is Some {
                    da->0
                } else {
                    s.active_accel_range
                },
                active_gyro_range: if dg is Some {
                    dg->0
                } else {
                    s.active_gyro_range
                },
                accel_down_ctr: actr,
                gyro_down_ctr: gctr,
                ..s
            },
            accel_change: da,
            gyro_change: dg,
            discard: false,
        }
    }
}

fn counter_after_exec(ctr: u16) -> (r: (u16, u16))
    ensures
        r.0 == counter_after(ctr).0,
        r.1 == counter_after(ctr).1,
{
    if ctr == u16::MAX {
        (0, u16::MAX)
    } else {
        (ctr + 1, ctr + 1)
    }
}

/// One auto-ranging step after a measurement, given the saturation flags.
pub fn auto_range(
    s: RangeState,
    sat: SaturationReg,
    accel: Option<MeasurementRaw3D>,
    gyro: Option<MeasurementRaw3D>,
) -> (r: RangeStep)
    ensures
        r == spec_auto_range(s, sat, accel, gyro),
{
    let up_a = if sat.acc_x || sat.acc_y || sat.acc_z {
        s.active_accel_range.step_up()
    } else {
        None
    };
    let up_g = if sat.gyr_x || sat.gyr_y || sat.gyr_z {
        s.active_gyro_range.step_up()
    } else {
        None
    };
    if up_a.is_some() || up_g.is_some() {
        let mut state = s;
        if let Some(next) = up_a {
            state.active_accel_range = next;
            state.accel_down_ctr = 0;
        }
        if let Some(next) = up_g {
            state.active_gyro_range = next;
            state.gyro_down_ctr = 0;
        }
        return RangeStep { state, accel_change: up_a, gyro_change: up_g, discard: true };
    }
    let mut state = s;
    let mut da: Option<RawAccelRange> = None;
    if let Some(a) = &accel {
        if peak_exec(a) < DOWN_THRESHOLD {
            let (stored, cmp) = counter_after_exec(s.accel_down_ctr);
            let next = s.active_accel_range.step_down();
            if cmp >= s.accel_down_threshold && next.is_some() {
                state.active_accel_range = next.unwrap();
                state.accel_down_ctr = 0;
                da = next;
            } else {
                state.accel_down_ctr = stored;
            }
        } else {
            state.accel_down_ctr = 0;
        }
    }
    let mut dg: Option<RawGyroRange> = None;
    if let Some(g) = &gyro {
        if peak_exec(g) < DOWN_THRESHOLD {
            let (stored, cmp) = counter_after_exec(s.gyro_down_ctr);
            let next = s.active_gyro_range.step_down();
            if cmp >= s.gyro_down_threshold && next.is_some() {
                state.active_gyro_range = next.unwrap();
                state.gyro_down_ctr = 0;
                dg = next;
            } else {
                state.gyro_down_ctr = stored;
            }
        } else {
            state.gyro_down_ctr = 0;
        }
    }
    RangeStep { state, accel_change: da, gyro_change: dg, discard: false }
}

/// Outcome of a measurement read, and the range registers to program.
pub struct MeasureOutcome<E> {
    /// The measurement, or why there is none
    pub result: Result<Measurement, Bmi323Error<E>>,
    /// Accelerometer range to program
    pub accel_change: Option<RawAccelRange>,
    /// Gyroscope range to program
    pub gyro_change: Option<RawGyroRange>,
}

impl<IFACE, D> Bmi323Sync<IFACE, D> {
    /// A measurement may only be read while measurement runs.
    pub fn check_running<E>(&self) -> (r: Result<(), Bmi323Error<E>>)
        ensures
            self.spec_running() <==> r is Ok,
            r is Err ==> r == Err::<(), Bmi323Error<E>>(Bmi323Error::NotReady),
    {
        if self.running {
            Ok(())
        } else {
            Err(Bmi323Error::NotReady)
        }
    }

    /// Finish a measurement read: the data bytes are parsed with the active
    /// ranges; with auto-ranging, the saturation flags (read after the data)
    /// drive one auto-ranging step, whose state is kept; a clipped
    /// measurement is discarded with `AutoRangeAdjusted`.
    pub fn finish_measure<E>(
        &mut self,
        status: StatusReg,
        buf: [u8; 18],
        sat: SaturationReg,
    ) -> (r: MeasureOutcome<E>)
        ensures
            ({
                let s = old(self).spec_ranges();
                let m = spec_measurement(status, buf@, s.active_accel_range, s.active_gyro_range);
                if !(status.drdy_acc || status.drdy_gyr || status.drdy_temp) {
                    &&& r.result == Err::<Measurement, Bmi323Error<E>>(Bmi323Error::NoDataAvailable)
                    &&& r.accel_change is None && r.gyro_change is None
                    &&& final(self).spec_ranges() == s
                } else if !old(self).spec_config().auto_range {
                    &&& r.result == Ok::<Measurement, Bmi323Error<E>>(m)
                    &&& r.accel_change is None && r.gyro_change is None
                    &&& final(self).spec_ranges() == s
                } else {
                    let step = spec_auto_range(s, sat, m.accel, m.gyro);
                    &&& r.result == (if step.discard {
                        Err::<Measurement, Bmi323Error<E>>(Bmi323Error::AutoRangeAdjusted)
                    } else {
                        Ok::<Measurement, Bmi323Error<E>>(m)
                    })
                    &&& r.accel_change == step.accel_change
                    &&& r.gyro_change == step.gyro_change
                    &&& final(self).spec_ranges() == step.state
                }
            }),
            final(self).spec_running() == old(self).spec_running(),
            final(self).spec_config() == old(self).spec_config(),
            final(self).spec_iface() == old(self).spec_iface(),
            final(self).spec_delay() == old(self).spec_delay(),
    {
        if !data_ready(status) {
            return MeasureOutcome {
                result: Err(Bmi323Error::NoDataAvailable),
                accel_change: None,
                gyro_change: None,
            };
        }
        let m = parse_measurement(
            status,
            buf,
            self.ranges.active_accel_range,
            self.ranges.active_gyro_range,
        );
        if !self.config.auto_range {
            return MeasureOutcome { result: Ok(m), accel_change: None, gyro_change: None };
        }
        let step = auto_range(self.ranges, sat, m.accel, m.gyro);
        self.ranges = step.state;
        let result = if step.discard {
            Err(Bmi323Error::AutoRangeAdjusted)
        } else {
            Ok(m)
        };
        MeasureOutcome { result, accel_change: step.accel_change, gyro_change: step.gyro_change }
    }
}

/// Auto-ranging moves each range by at most one step: up only when an axis
/// of that sensor saturated (and the measurement is then discarded), down
/// only when no range stepped up, the sensor's peak stayed below 25 % of full
/// scale and its counter reached the threshold; a sensor whose range changes restarts its
/// counter, and the thresholds never change.
pub proof fn lemma_auto_range_steps(
    s: RangeState,
    sat: SaturationReg,
    accel: Option<MeasurementRaw3D>,
    gyro: Option<MeasurementRaw3D>,
)
    ensures
        ({
            let r = spec_auto_range(s, sat, accel, gyro);
            let acc_sat = sat.acc_x || sat.acc_y || sat.acc_z;
            let gyr_sat = sat.gyr_x || sat.gyr_y || sat.gyr_z;
            &&& r.discard <==> ((acc_sat && s.active_accel_range.spec_step_up() is Some) || (
            gyr_sat && s.active_gyro_range.spec_step_up() is Some))
            &&& r.accel_change matches Some(n) ==> (r.state.active_accel_range == n
                && r.state.accel_down_ctr == 0 && (if r.discard {
                s.active_accel_range.spec_step_up() == Some(n) && acc_sat
            } else {
                s.active_accel_range.spec_step_down() == Some(n) && (accel matches Some(a) && peak(a)
                    < DOWN_THRESHOLD) && counter_after(s.accel_down_ctr).1 >= s.accel_down_threshold
            }))
            &&& r.gyro_change matches Some(n) ==> (r.state.active_gyro_range == n
                && r.state.gyro_down_ctr == 0 && (if r.discard {
                s.active_gyro_range.spec_step_up() == Some(n) && gyr_sat
            } else {
                s.active_gyro_range.spec_step_down() == Some(n) && (gyro matches Some(g) && peak(g)
                    < DOWN_THRESHOLD) && counter_after(s.gyro_down_ctr).1 >= s.gyro_down_threshold
            }))
            &&& r.accel_change is None ==> r.state.active_accel_range == s.active_accel_range
            &&& r.gyro_change is None ==> r.state.active_gyro_range == s.active_gyro_range
            &&& r.state.accel_down_threshold == s.accel_down_threshold
            &&& r.state.gyro_down_threshold == s.gyro_down_threshold
        }),
{
}

/// Saturation flags with no axis saturated.
pub open spec fn no_saturation() -> SaturationReg {
    SaturationReg {
        acc_x: false,
        acc_y: false,
        acc_z: false,
        gyr_x: false,
        gyr_y: false,
        gyr_z: false,
    }
}

/// The auto-ranging state after `n` measurements that each carry the
/// accelerometer reading `a` and no gyroscope reading, with no axis
/// saturated.
pub open spec fn accel_steps(s: RangeState, a: MeasurementRaw3D, n: nat) -> RangeState
    decreases n,
{
    if n == 0 {
        s
    } else {
        spec_auto_range(accel_steps(s, a, (n - 1) as nat), no_saturation(), Some(a), None).state
    }
}

/// Hysteresis of the step down: starting from a cleared counter, a quiet
/// reading (peak below 25 % of full scale) repeated fewer times than the
/// threshold keeps the range and only counts the samples; the sample that
/// reaches the threshold steps the range down, when a narrower range exists,
/// and clears the counter.
pub proof fn lemma_step_down_hysteresis(s: RangeState, a: MeasurementRaw3D, n: nat)
    requires
        peak(a) < DOWN_THRESHOLD,
        s.accel_down_ctr == 0,
        n < s.accel_down_threshold,
    ensures
        accel_steps(s, a, n) == (RangeState { accel_down_ctr: n as u16, ..s }),
        ({
            let r = spec_auto_range(accel_steps(s, a, n), no_saturation(), Some(a), None);
            n + 1 == s.accel_down_threshold ==> {
                &&& r.accel_change == s.active_accel_range.spec_step_down()
                &&& r.accel_change matches Some(next) ==> r.state.active_accel_range == next
                    && r.state.accel_down_ctr == 0
                &&& !r.discard
            }
        }),
    decreases n,
{
    if n > 0 {
        lemma_step_down_hysteresis(s, a, (n - 1) as nat);
    }
}

} // verus!
