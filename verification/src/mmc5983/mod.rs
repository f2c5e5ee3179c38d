//! MMC5983MA 3-axis magnetometer: configuration, raw measurement packing,
//! output parsing, bridge-offset removal and the continuous-mode decisions.
use vstd::prelude::*;

pub mod registers;

pub use registers::{
    AnalogControl, AxisInhibit, ContinuousMeasurementFreq, DecimationBw, DigitalControl,
    MeasurementTriggerControl, PeriodicSetInterval, StatusRegister,
};

verus! {

/// Default I2C address for the MMC5983MA sensor.
pub const DEFAULT_I2C_ADDRESS: u8 = 0x30;

/// Maximum number of status polls before giving up.
pub const MAX_LOOPS: usize = 100;

/// Midpoint of the 18-bit output range: the reading of a zero field.
pub const MID_SCALE: u32 = 131072;

/// One more than the largest 18-bit value.
pub const AXIS_LIMIT: u32 = 262144;

/// Errors that can occur when interacting with the MMC5983MA sensor.
#[derive(Debug, PartialEq, Eq, Structural)]
pub enum Mmc5983Error<CommError> {
    /// Bus communication error
    Comm(CommError),
    /// Invalid device ID
    InvalidDevice,
    /// Measurement not ready
    NotReady,
    /// Invalid configuration
    InvalidConfig,
    /// Invalid access
    InvalidAccess,
}

impl<CommError> From<CommError> for Mmc5983Error<CommError> {
    fn from(err: CommError) -> (r: Self) {
        Mmc5983Error::Comm(err)
    }
}

impl<CommError> vstd::std_specs::convert::FromSpecImpl<CommError> for Mmc5983Error<CommError> {
    open spec fn obeys_from_spec() -> bool {
        true
    }

    open spec fn from_spec(err: CommError) -> Self {
        Mmc5983Error::Comm(err)
    }
}

/// Sensor configuration.
#[derive(Debug, Clone, Copy, PartialEq, Eq, Structural)]
pub struct Mmc5983Config {
    /// Continuous measurement frequency
    pub frequency: ContinuousMeasurementFreq,
    /// Decimation filter bandwidth
    pub bandwidth: DecimationBw,
    /// Periodic SET interval
    pub set_interval: PeriodicSetInterval,
    /// Inhibited axes
    pub inhibit: AxisInhibit,
    /// Measurement-done interrupt enabled
    pub irq: bool,
}

impl Mmc5983Config {
    /// Register images of the configuration: internal control 1 (bandwidth
    /// and inhibit), control 0 (interrupt and automatic set/reset, no
    /// trigger) and control 2 (frequency and periodic SET, continuous mode off).
    pub open spec fn spec_to_registers(self) -> (
        AnalogControl,
        MeasurementTriggerControl,
        DigitalControl,
    ) {
        (
            AnalogControl { bw: self.bandwidth, inhibit: self.inhibit, sw_rst: false },
            MeasurementTriggerControl {
                tm_m: false,
                tm_t: false,
                int_meas_done_en: self.irq,
                m_set: false,
                m_reset: false,
                auto_sr_en: self.set_interval != PeriodicSetInterval::Off,
            },
            DigitalControl {
                cm_freq: self.frequency.spec_bits(),
                cmm_en: false,
                prd_set: self.set_interval.spec_bits().0,
                en_prd_set: self.set_interval.spec_bits().1,
            },
        )
    }

    /// Register images of the configuration.
    pub fn to_registers(&self) -> (r: (AnalogControl, MeasurementTriggerControl, DigitalControl))
        ensures
            r == self.spec_to_registers(),
            r.2.cm_freq <= 7,
            r.2.prd_set <= 7,
    {
        let (prd, en) = self.set_interval.bits();
        (
            AnalogControl { bw: self.bandwidth, inhibit: self.inhibit, sw_rst: false },
            MeasurementTriggerControl {
                tm_m: false,
                tm_t: false,
                int_meas_done_en: self.irq,
                m_set: false,
                m_reset: false,
                auto_sr_en: self.set_interval != PeriodicSetInterval::Off,
            },
            DigitalControl {
                cm_freq: self.frequency.bits(),
                cmm_en: false,
                prd_set: prd,
                en_prd_set: en,
            },
        )
    }
}

/// Builder of a [`Mmc5983Config`] that keeps the bandwidth compatible with
/// the output rate.
#[derive(Debug, Clone, Copy, PartialEq, Eq, Structural)]
pub struct Mmc5983ConfigBuilder {
    /// Continuous measurement frequency
    pub frequency: ContinuousMeasurementFreq,
    /// Requested bandwidth
    pub bandwidth: DecimationBw,
    /// Periodic SET interval
    pub set_interval: PeriodicSetInterval,
    /// Inhibited axes
    pub inhibit: AxisInhibit,
    /// Measurement-done interrupt enabled
    pub irq: bool,
}

/// The bandwidth a configuration uses: at least 200 Hz from 200 Hz output
/// rate on, and 800 Hz at 1000 Hz output rate.
pub open spec fn effective_bandwidth(f: ContinuousMeasurementFreq, bw: DecimationBw) -> DecimationBw {
    if f == ContinuousMeasurementFreq::Hz1000 {
        DecimationBw::Hz800
    } else if f == ContinuousMeasurementFreq::Hz200 && bw == DecimationBw::Hz100 {
        DecimationBw::Hz200
    } else {
        bw
    }
}

impl Mmc5983ConfigBuilder {
    /// Settings chosen so far.
    pub open spec fn spec_fields(self) -> (
        ContinuousMeasurementFreq,
        DecimationBw,
        PeriodicSetInterval,
        AxisInhibit,
        bool,
    ) {
        (self.frequency, self.bandwidth, self.set_interval, self.inhibit, self.irq)
    }

    /// 1 Hz, 100 Hz bandwidth, SET every 100 measurements, all axes, interrupt on.
    pub fn default() -> (r: Self)
        ensures
            r.spec_fields() == (
                ContinuousMeasurementFreq::Hz1,
                DecimationBw::Hz100,
                PeriodicSetInterval::Per100,
                AxisInhibit::NoAxis,
                true,
            ),
    {
        Mmc5983ConfigBuilder {
            frequency: ContinuousMeasurementFreq::Hz1,
            bandwidth: DecimationBw::Hz100,
            set_interval: PeriodicSetInterval::Per100,
            inhibit: AxisInhibit::NoAxis,
            irq: true,
        }
    }

    /// Set the continuous measurement frequency.
    pub fn frequency(self, f: ContinuousMeasurementFreq) -> (r: Self)
        ensures
            r == (Mmc5983ConfigBuilder { frequency: f, ..self }),
    {
        Mmc5983ConfigBuilder { frequency: f, ..self }
    }

    /// Set the bandwidth.
    pub fn bandwidth(self, bw: DecimationBw) -> (r: Self)
        ensures
            r == (Mmc5983ConfigBuilder { bandwidth: bw, ..self }),
    {
        Mmc5983ConfigBuilder { bandwidth: bw, ..self }
    }

    /// Set the periodic SET interval.
    pub fn set_interval(self, s: PeriodicSetInterval) -> (r: Self)
        ensures
            r == (Mmc5983ConfigBuilder { set_interval: s, ..self }),
    {
        Mmc5983ConfigBuilder { set_interval: s, ..self }
    }

    /// Set the inhibited axes.
    pub fn inhibit(self, i: AxisInhibit) -> (r: Self)
        ensures
            r == (Mmc5983ConfigBuilder { inhibit: i, ..self }),
    {
        Mmc5983ConfigBuilder { inhibit: i, ..self }
    }

    /// Enable or disable the measurement-done interrupt.
    pub fn irq(self, irq: bool) -> (r: Self)
        ensures
            r == (Mmc5983ConfigBuilder { irq, ..self }),
    {
        Mmc5983ConfigBuilder { irq, ..self }
    }

    /// Build the configuration, raising the bandwidth where the rate needs it.
    pub fn build(self) -> (r: Mmc5983Config)
        ensures
            r == (Mmc5983Config {
                frequency: self.frequency,
                bandwidth: effective_bandwidth(self.frequency, self.bandwidth),
                set_interval: self.set_interval,
                inhibit: self.inhibit,
                irq: self.irq,
            }),
    {
        let bandwidth = if self.frequency == ContinuousMeasurementFreq::Hz1000 {
            DecimationBw::Hz800
        } else if self.frequency == ContinuousMeasurementFreq::Hz200 && self.bandwidth
            == DecimationBw::Hz100 {
            DecimationBw::Hz200
        } else {
            self.bandwidth
        };
        Mmc5983Config {
            frequency: self.frequency,
            bandwidth,
            set_interval: self.set_interval,
            inhibit: self.inhibit,
            irq: self.irq,
        }
    }
}

/// Raw 18-bit readings of the three axes; packs into 64 bits as x, y, z
/// (18 bits each, from bit 0).
#[derive(Debug, Clone, Copy, PartialEq, Eq, Structural)]
pub struct MagMeasurementRaw {
    x: u32,
    y: u32,
    z: u32,
}

impl MagMeasurementRaw {
    /// X reading.
    pub closed spec fn spec_x(self) -> u32 {
        self.x
    }

    /// Y reading.
    pub closed spec fn spec_y(self) -> u32 {
        self.y
    }

    /// Z reading.
    pub closed spec fn spec_z(self) -> u32 {
        self.z
    }

    /// Each reading fits in 18 bits.
    pub open spec fn wf(self) -> bool {
        self.spec_x() < AXIS_LIMIT && self.spec_y() < AXIS_LIMIT && self.spec_z() < AXIS_LIMIT
    }

    /// Whether each reading fits in 18 bits.
    pub fn fits(&self) -> (r: bool)
        ensures
            r == self.wf(),
    {
        self.x < AXIS_LIMIT && self.y < AXIS_LIMIT && self.z < AXIS_LIMIT
    }

    /// All axes zero.
    pub fn new() -> (r: Self)
        ensures
            r.wf(),
            r.spec_x() == 0 && r.spec_y() == 0 && r.spec_z() == 0,
    {
        MagMeasurementRaw { x: 0, y: 0, z: 0 }
    }

    /// X reading.
    pub fn x(&self) -> (r: u32)
        ensures
            r == self.spec_x(),
    {
        self.x
    }

    /// Y reading.
    pub fn y(&self) -> (r: u32)
        ensures
            r == self.spec_y(),
    {
        self.y
    }

    /// Z reading.
    pub fn z(&self) -> (r: u32)
        ensures
            r == self.spec_z(),
    {
        self.z
    }

    /// Replace the X reading; it must fit in 18 bits.
    pub fn with_x(self, v: u32) -> (r: Self)
        requires
            v < AXIS_LIMIT,
        ensures
            r.spec_x() == v && r.spec_y() == self.spec_y() && r.spec_z() == self.spec_z(),
    {
        MagMeasurementRaw { x: v, ..self }
    }

    /// Replace the Y reading; it must fit in 18 bits.
    pub fn with_y(self, v: u32) -> (r: Self)
        requires
            v < AXIS_LIMIT,
        ensures
            r.spec_y() == v && r.spec_x() == self.spec_x() && r.spec_z() == self.spec_z(),
    {
        MagMeasurementRaw { y: v, ..self }
    }

    /// Replace the Z reading; it must fit in 18 bits.
    pub fn with_z(self, v: u32) -> (r: Self)
        requires
            v < AXIS_LIMIT,
        ensures
            r.spec_z() == v && r.spec_x() == self.spec_x() && r.spec_y() == self.spec_y(),
    {
        MagMeasurementRaw { z: v, ..self }
    }

    /// The 64-bit packing.
    pub open spec fn spec_into_bits(self) -> int {
        self.spec_x() + self.spec_y() * 0x4_0000 + self.spec_z() * 0x10_0000_0000
    }

    /// The 64-bit packing.
    pub fn into_bits(&self) -> (r: u64)
        requires
            self.wf(),
        ensures
            r == self.spec_into_bits(),
    {
        (self.x as u64) + (self.y as u64) * 0x4_0000 + (self.z as u64) * 0x10_0000_0000
    }

    /// Unpacking of 64 bits; the top ten bits are reserved and ignored.
    pub fn from_bits(bits: u64) -> (r: Self)
        ensures
            r.wf(),
            r.spec_x() == bits % 0x4_0000,
            r.spec_y() == (bits / 0x4_0000) % 0x4_0000,
            r.spec_z() == (bits / 0x10_0000_0000) % 0x4_0000,
    {
        MagMeasurementRaw {
            x: (bits % 0x4_0000) as u32,
            y: ((bits / 0x4_0000) % 0x4_0000) as u32,
            z: ((bits / 0x10_0000_0000) % 0x4_0000) as u32,
        }
    }

    /// Readings from the seven output registers 0x00..0x06: each axis has
    /// its bits 17:10 and 9:2 in two registers, and its two lowest bits in
    /// register 0x06 (X in bits 7:6, Y in 5:4, Z in 3:2).
    pub fn from_registers(data: [u8; 7]) -> (r: Self)
        ensures
            r.wf(),
            r.spec_x() == data[0] * 1024 + data[1] * 4 + (data[6] / 64) % 4,
            r.spec_y() == data[2] * 1024 + data[3] * 4 + (data[6] / 16) % 4,
            r.spec_z() == data[4] * 1024 + data[5] * 4 + (data[6] / 4) % 4,
    {
        MagMeasurementRaw {
            x: (data[0] as u32) * 1024 + (data[1] as u32) * 4 + ((data[6] / 64) % 4) as u32,
            y: (data[2] as u32) * 1024 + (data[3] as u32) * 4 + ((data[6] / 16) % 4) as u32,
            z: (data[4] as u32) * 1024 + (data[5] as u32) * 4 + ((data[6] / 4) % 4) as u32,
        }
    }

    /// Each reading divided by `rhs`.
    pub fn div(self, rhs: u32) -> (r: Self)
        requires
            self.wf(),
            rhs > 0,
        ensures
            r.wf(),
            r.spec_x() == self.spec_x() / rhs,
            r.spec_y() == self.spec_y() / rhs,
            r.spec_z() == self.spec_z() / rhs,
    {
        MagMeasurementRaw::new().with_x(self.x / rhs).with_y(self.y / rhs).with_z(self.z / rhs)
    }
}

/// Unpacking the 64-bit packing of well-formed readings gives them back.
pub proof fn lemma_raw_roundtrip(m: MagMeasurementRaw)
    requires
        m.wf(),
    ensures
        m.spec_into_bits() % 0x4_0000 == m.spec_x(),
        (m.spec_into_bits() / 0x4_0000) % 0x4_0000 == m.spec_y(),
        (m.spec_into_bits() / 0x10_0000_0000) % 0x4_0000 == m.spec_z(),
{
    let a = m.spec_x() as int;
    let b = m.spec_y() as int;
    let c = m.spec_z() as int;
    let v = a + b * 0x4_0000 + c * 0x10_0000_0000;
    assert(v % 0x4_0000 == a && (v / 0x4_0000) % 0x4_0000 == b && (v / 0x10_0000_0000) % 0x4_0000
        == c) by (nonlinear_arith)
        requires
            0 <= a < 0x4_0000,
            0 <= b < 0x4_0000,
            0 <= c < 0x4_0000,
            v == a + b * 0x4_0000 + c * 0x10_0000_0000,
    ;
}

/// Raw temperature measurement from the sensor.
#[derive(Debug, Clone, Copy, PartialEq, Eq, Structural)]
pub struct TempMeasurementRaw(pub u8);

/// Converted measurement: counts relative to the mid-scale (or to the bridge
/// offset, once measured) and the counts per Gauss.
#[derive(Debug, Clone, Copy, PartialEq, Eq, Structural)]
pub struct MagMeasurement {
    /// X axis
    pub x: i32,
    /// Y axis
    pub y: i32,
    /// Z axis
    pub z: i32,
    /// Counts per Gauss: 1 LSB = 1 Gauss / scale
    pub scale: i32,
}

impl MagMeasurement {
    /// Mid-scale on every axis (the reading of a zero field), 16384 counts per Gauss.
    pub fn default() -> (r: Self)
        ensures
            r == (MagMeasurement { x: 131072, y: 131072, z: 131072, scale: 16384 }),
    {
        MagMeasurement { x: 131072, y: 131072, z: 131072, scale: 16384 }
    }

    /// The readings as counts.
    pub fn from_raw(value: MagMeasurementRaw) -> (r: Self)
        requires
            value.wf(),
        ensures
            r == (MagMeasurement {
                x: value.spec_x() as i32,
                y: value.spec_y() as i32,
                z: value.spec_z() as i32,
                scale: 16384,
            }),
    {
        MagMeasurement {
            x: value.x() as i32,
            y: value.y() as i32,
            z: value.z() as i32,
            scale: 16384,
        }
    }

    /// The readings as counts, or mid-scale when there is no reading.
    pub fn from_option(value: Option<MagMeasurementRaw>) -> (r: Self)
        requires
            value matches Some(v) ==> v.wf(),
        ensures
            r == (match value {
                Some(v) => MagMeasurement {
                    x: v.spec_x() as i32,
                    y: v.spec_y() as i32,
                    z: v.spec_z() as i32,
                    scale: 16384,
                },
                None => MagMeasurement { x: 131072, y: 131072, z: 131072, scale: 16384 },
            }),
    {
        match value {
            Some(raw) => Self::from_raw(raw),
            None => Self::default(),
        }
    }

    /// Axis-wise difference; the scale of the left side is kept.
    pub fn sub(self, rhs: Self) -> (r: Self)
        requires
            -AXIS_LIMIT <= self.x <= AXIS_LIMIT,
            -AXIS_LIMIT <= self.y <= AXIS_LIMIT,
            -AXIS_LIMIT <= self.z <= AXIS_LIMIT,
            -AXIS_LIMIT <= rhs.x <= AXIS_LIMIT,
            -AXIS_LIMIT <= rhs.y <= AXIS_LIMIT,
            -AXIS_LIMIT <= rhs.z <= AXIS_LIMIT,
        ensures
            r == (MagMeasurement {
                x: (self.x - rhs.x) as i32,
                y: (self.y - rhs.y) as i32,
                z: (self.z - rhs.z) as i32,
                scale: self.scale,
            }),
    {
        MagMeasurement {
            x: self.x - rhs.x,
            y: self.y - rhs.y,
            z: self.z - rhs.z,
            scale: self.scale,
        }
    }
}

/// Bridge offset of a SET and a RESET reading: their axis-wise mean.
pub open spec fn spec_offset(set: MagMeasurementRaw, reset: MagMeasurementRaw) -> (u32, u32, u32) {
    (
        ((set.spec_x() + reset.spec_x()) / 2) as u32,
        ((set.spec_y() + reset.spec_y()) / 2) as u32,
        ((set.spec_z() + reset.spec_z()) / 2) as u32,
    )
}

/// Outcome of a single magnetic read: the readings when the status shows a
/// finished measurement, `NotReady` otherwise.
pub fn finish_mag<E>(status: StatusRegister, data: [u8; 7]) -> (r: Result<
    MagMeasurementRaw,
    Mmc5983Error<E>,
>)
    ensures
        status.magmeas_done <==> r is Ok,
        r is Err ==> r == Err::<MagMeasurementRaw, Mmc5983Error<E>>(Mmc5983Error::NotReady),
        r matches Ok(m) ==> m.wf() && m.spec_x() == data[0] * 1024 + data[1] * 4 + (data[6] / 64)
            % 4 && m.spec_y() == data[2] * 1024 + data[3] * 4 + (data[6] / 16) % 4 && m.spec_z()
            == data[4] * 1024 + data[5] * 4 + (data[6] / 4) % 4,
{
    if status.magmeas_done {
        Ok(MagMeasurementRaw::from_registers(data))
    } else {
        Err(Mmc5983Error::NotReady)
    }
}

/// Outcome of a temperature measurement: the reading, or `NotReady`
/// when the measurement did not finish in time.
pub fn finish_temperature<E>(reading: Option<u8>) -> (r: Result<TempMeasurementRaw, Mmc5983Error<E>>)
    ensures
        match reading {
            Some(t) => r == Ok::<TempMeasurementRaw, Mmc5983Error<E>>(TempMeasurementRaw(t)),
            None => r == Err::<TempMeasurementRaw, Mmc5983Error<E>>(Mmc5983Error::NotReady),
        },
{
    match reading {
        Some(t) => Ok(TempMeasurementRaw(t)),
        None => Err(Mmc5983Error::NotReady),
    }
}

/// Control 2 values written before the device is identified, so that a
/// sensor left in continuous mode stops: continuous mode at 1 Hz, then
/// the same rate with continuous mode off.
pub fn halt_writes() -> (r: (u8, u8))
    ensures
        r.0 == (DigitalControl { cm_freq: 1, cmm_en: true, prd_set: 0, en_prd_set: false }).spec_to_u8(),
        r.1 == (DigitalControl { cm_freq: 1, cmm_en: false, prd_set: 0, en_prd_set: false }).spec_to_u8(),
{
    let on = DigitalControl { cm_freq: 1, cmm_en: true, prd_set: 0, en_prd_set: false };
    let off = DigitalControl { cm_freq: 1, cmm_en: false, prd_set: 0, en_prd_set: false };
    (on.to_u8(), off.to_u8())
}

/// Check the product identifier.
pub fn check_product_id<E>(id: u8) -> (r: Result<(), Mmc5983Error<E>>)
    ensures
        id == registers::MMC5983_DEVICE_ID <==> r is Ok,
        r is Err ==> r == Err::<(), Mmc5983Error<E>>(Mmc5983Error::InvalidDevice),
{
    if id != registers::MMC5983_DEVICE_ID {
        Err(Mmc5983Error::InvalidDevice)
    } else {
        Ok(())
    }
}

/// I2C bus with the device address.
pub struct I2cInterface<I2C> {
    /// The bus
    pub i2c: I2C,
    /// 7-bit device address
    pub address: u8,
}

/// SPI device.
pub struct SpiInterface<SPI> {
    /// The device
    pub spi: SPI,
}

/// MMC5983MA 3-axis magnetometer device.
pub struct Mmc5983Sync<IFACE, D> {
    iface: IFACE,
    delay: D,
    config: Mmc5983Config,
    ofst: Option<MagMeasurementRaw>,
    running: bool,
}

/// Register writes that switch continuous mode on or off.
pub enum ModeWrites {
    /// Nothing to write: the mode is already as requested
    Nothing,
    /// Write control 2 once
    One(u8),
    /// Write control 2 twice, in this order
    Two(u8, u8),
}

impl<IFACE, D> Mmc5983Sync<IFACE, D> {
    /// The bus interface.
    pub closed spec fn spec_iface(&self) -> IFACE {
        self.iface
    }

    /// The delay provider.
    pub closed spec fn spec_delay(&self) -> D {
        self.delay
    }

    /// Configuration.
    pub closed spec fn spec_config(&self) -> Mmc5983Config {
        self.config
    }

    /// Bridge offset, once measured.
    pub closed spec fn spec_ofst(&self) -> Option<MagMeasurementRaw> {
        self.ofst
    }

    /// Whether continuous measurement runs.
    pub closed spec fn spec_running(&self) -> bool {
        self.running
    }

    /// Every stored offset reading fits in 18 bits.
    pub open spec fn wf(&self) -> bool {
        self.spec_ofst() matches Some(o) ==> o.wf()
    }

    /// Configuration.
    pub fn config(&self) -> (r: Mmc5983Config)
        ensures
            r == self.spec_config(),
    {
        self.config
    }

    /// Bridge offset, once measured.
    pub fn offset(&self) -> (r: Option<MagMeasurementRaw>)
        ensures
            r == self.spec_ofst(),
    {
        self.ofst
    }

    /// Whether continuous measurement runs.
    pub fn running(&self) -> (r: bool)
        ensures
            r == self.spec_running(),
    {
        self.running
    }

    /// Record whether continuous measurement runs.
    pub fn set_running(&mut self, running: bool)
        ensures
            final(self).spec_running() == running,
            final(self).spec_ofst() == old(self).spec_ofst(),
            final(self).spec_config() == old(self).spec_config(),
            final(self).spec_iface() == old(self).spec_iface(),
            final(self).spec_delay() == old(self).spec_delay(),
    {
        self.running = running;
    }

    /// Mutable access to the bus interface and the delay provider, for the
    /// code that performs the transfers.
    pub fn io_mut(&mut self) -> (r: (&mut IFACE, &mut D))
        ensures
            *r.0 == old(self).spec_iface(),
            *r.1 == old(self).spec_delay(),
            final(self).spec_iface() == *final(r.0),
            final(self).spec_delay() == *final(r.1),
            final(self).spec_running() == old(self).spec_running(),
            final(self).spec_ofst() == old(self).spec_ofst(),
            final(self).spec_config() == old(self).spec_config(),
    {
        (&mut self.iface, &mut self.delay)
    }

    /// Store the bridge offset: the axis-wise mean of a SET and a RESET reading.
    pub fn update_offsets(&mut self, mag_set: MagMeasurementRaw, mag_reset: MagMeasurementRaw)
        requires
            mag_set.wf(),
            mag_reset.wf(),
        ensures
            final(self).spec_ofst() matches Some(o) && o.wf() && (o.spec_x(), o.spec_y(), o.spec_z())
                == spec_offset(mag_set, mag_reset),
            final(self).spec_running() == old(self).spec_running(),
            final(self).spec_config() == old(self).spec_config(),
            final(self).spec_iface() == old(self).spec_iface(),
            final(self).spec_delay() == old(self).spec_delay(),
    {
        let x: u32 = (mag_set.x() + mag_reset.x()) / 2;
        let y: u32 = (mag_set.y() + mag_reset.y()) / 2;
        let z: u32 = (mag_set.z() + mag_reset.z()) / 2;
        let res = MagMeasurementRaw::new().with_x(x).with_y(y).with_z(z);
        self.ofst = Some(res);
    }

    /// Measurement of a raw reading with the bridge offset removed (the
    /// mid-scale stands in until the offset is measured).
    pub fn measurement(&self, raw: MagMeasurementRaw) -> (r: MagMeasurement)
        requires
            raw.wf(),
            self.wf(),
        ensures
            r == (match self.spec_ofst() {
                Some(o) => MagMeasurement {
                    x: (raw.spec_x() - o.spec_x()) as i32,
                    y: (raw.spec_y() - o.spec_y()) as i32,
                    z: (raw.spec_z() - o.spec_z()) as i32,
                    scale: 16384,
                },
                None => MagMeasurement {
                    x: (raw.spec_x() - MID_SCALE) as i32,
                    y: (raw.spec_y() - MID_SCALE) as i32,
                    z: (raw.spec_z() - MID_SCALE) as i32,
                    scale: 16384,
                },
            }),
    {
        MagMeasurement::from_raw(raw).sub(MagMeasurement::from_option(self.ofst))
    }

    /// Control 0 value that starts a single magnetic measurement and the
    /// time to wait for it, when continuous mode is off.
    pub fn single_trigger(&self) -> (r: Option<(u8, u32)>)
        ensures
            self.spec_running() <==> r is None,
            r matches Some(t) ==> t.0 == (MeasurementTriggerControl {
                tm_m: true,
                ..self.spec_config().spec_to_registers().1
            }).spec_to_u8() && t.1 == self.spec_config().bandwidth.spec_delay_us(),
    {
        if self.running {
            None
        } else {
            let (_, measctrl, _) = self.config.to_registers();
            let trig = MeasurementTriggerControl { tm_m: true, ..measctrl };
            Some((trig.to_u8(), self.config.bandwidth.delay_us()))
        }
    }

    /// Writes that enter continuous mode: nothing when it already runs,
    /// control 2 with Cmm_en set when a frequency is configured, and
    /// `InvalidConfig` without one.
    pub fn start_writes<E>(&self) -> (r: Result<ModeWrites, Mmc5983Error<E>>)
        ensures
            self.spec_running() ==> r matches Ok(ModeWrites::Nothing),
            !self.spec_running() && self.spec_config().frequency == ContinuousMeasurementFreq::Off
                ==> r == Err::<ModeWrites, Mmc5983Error<E>>(Mmc5983Error::InvalidConfig),
            !self.spec_running() && self.spec_config().frequency != ContinuousMeasurementFreq::Off
                ==> (r matches Ok(ModeWrites::One(v)) && v == (DigitalControl {
                cmm_en: true,
                ..self.spec_config().spec_to_registers().2
            }).spec_to_u8()),
    {
        if self.running {
            return Ok(ModeWrites::Nothing);
        }
        if self.config.frequency != ContinuousMeasurementFreq::Off {
            let (_, _, digitalctrl) = self.config.to_registers();
            let on = DigitalControl { cmm_en: true, ..digitalctrl };
            Ok(ModeWrites::One(on.to_u8()))
        } else {
            Err(Mmc5983Error::InvalidConfig)
        }
    }

    /// Writes that leave continuous mode: nothing when it does not run;
    /// with a frequency configured, control 2 with Cmm_en set and then with
    /// Cmm_en and the frequency cleared; `InvalidConfig` without one.
    pub fn stop_writes<E>(&self) -> (r: Result<ModeWrites, Mmc5983Error<E>>)
        ensures
            !self.spec_running() ==> r matches Ok(ModeWrites::Nothing),
            self.spec_running() && self.spec_config().frequency == ContinuousMeasurementFreq::Off
                ==> r == Err::<ModeWrites, Mmc5983Error<E>>(Mmc5983Error::InvalidConfig),
            self.spec_running() && self.spec_config().frequency != ContinuousMeasurementFreq::Off
                ==> (r matches Ok(ModeWrites::Two(a, b)) && a == (DigitalControl {
                cmm_en: true,
                ..self.spec_config().spec_to_registers().2
            }).spec_to_u8() && b == (DigitalControl {
                cmm_en: false,
                cm_freq: 0,
                ..self.spec_config().spec_to_registers().2
            }).spec_to_u8()),
    {
        if !self.running {
            return Ok(ModeWrites::Nothing);
        }
        if self.config.frequency != ContinuousMeasurementFreq::Off {
            let (_, _, digitalctrl) = self.config.to_registers();
            let on = DigitalControl { cmm_en: true, ..digitalctrl };
            let off = DigitalControl { cmm_en: false, cm_freq: 0, ..digitalctrl };
            Ok(ModeWrites::Two(on.to_u8(), off.to_u8()))
        } else {
            Err(Mmc5983Error::InvalidConfig)
        }
    }

    /// Register images written by a reset: control 1 with the software reset
    /// bit, control 1 without it, then (after the offset is measured)
    /// control 2 with continuous mode and frequency cleared and control 0.
    pub fn reset_writes(&self) -> (r: (u8, u8, u8, u8))
        ensures
            r.0 == (AnalogControl {
                sw_rst: true,
                ..self.spec_config().spec_to_registers().0
            }).spec_to_u8(),
            r.1 == self.spec_config().spec_to_registers().0.spec_to_u8(),
            r.2 == (DigitalControl {
                cm_freq: 0,
                cmm_en: false,
                ..self.spec_config().spec_to_registers().2
            }).spec_to_u8(),
            r.3 == self.spec_config().spec_to_registers().1.spec_to_u8(),
    {
        let (analogctrl, measctrl, digitalctrl) = self.config.to_registers();
        let with_rst = AnalogControl { sw_rst: true, ..analogctrl };
        let cleared = DigitalControl { cm_freq: 0, cmm_en: false, ..digitalctrl };
        (with_rst.to_u8(), analogctrl.to_u8(), cleared.to_u8(), measctrl.to_u8())
    }

    /// Control 0 value that starts a temperature measurement.
    pub fn temperature_trigger(&self) -> (r: u8)
        ensures
            r == (MeasurementTriggerControl {
                tm_t: true,
                ..self.spec_config().spec_to_registers().1
            }).spec_to_u8(),
    {
        let (_, measctrl, _) = self.config.to_registers();
        MeasurementTriggerControl { tm_t: true, ..measctrl }.to_u8()
    }

    /// Control 0 values of the SET/RESET offset measurement, in the order
    /// written: the SET pulse, SET with a magnetic measurement, RESET with a
    /// magnetic measurement, and the end of the sequence (measurement bit
    /// only).
    pub fn offset_writes(&self) -> (r: [u8; 4])
        ensures
            ({
                let m = self.spec_config().spec_to_registers().1;
                &&& r[0] == (MeasurementTriggerControl { m_set: true, ..m }).spec_to_u8()
                &&& r[1] == (MeasurementTriggerControl { m_set: true, tm_m: true, ..m }).spec_to_u8()
                &&& r[2] == (MeasurementTriggerControl { m_reset: true, tm_m: true, ..m }).spec_to_u8()
                &&& r[3] == (MeasurementTriggerControl { tm_m: true, ..m }).spec_to_u8()
            }),
    {
        let (_, measctrl, _) = self.config.to_registers();
        let set = MeasurementTriggerControl { m_set: true, ..measctrl };
        let set_meas = MeasurementTriggerControl { tm_m: true, ..set };
        let reset_meas = MeasurementTriggerControl { m_set: false, m_reset: true, ..set_meas };
        let done = MeasurementTriggerControl { m_reset: false, ..reset_meas };
        [set.to_u8(), set_meas.to_u8(), reset_meas.to_u8(), done.to_u8()]
    }

    /// End of the offset measurement: the bridge offset is stored when both
    /// the SET and the RESET reading were taken, and kept otherwise.
    pub fn finish_offset(
        &mut self,
        mag_set: Option<MagMeasurementRaw>,
        mag_reset: Option<MagMeasurementRaw>,
    )
        requires
            mag_set matches Some(s) ==> s.wf(),
            mag_reset matches Some(r) ==> r.wf(),
        ensures
            match (mag_set, mag_reset) {
                (Some(s), Some(r)) => final(self).spec_ofst() matches Some(o) && o.wf() && (
                o.spec_x(),
                o.spec_y(),
                o.spec_z(),
            ) == spec_offset(s, r),
                _ => final(self).spec_ofst() == old(self).spec_ofst(),
            },
            final(self).spec_running() == old(self).spec_running(),
            final(self).spec_config() == old(self).spec_config(),
            final(self).spec_iface() == old(self).spec_iface(),
            final(self).spec_delay() == old(self).spec_delay(),
    {
        if let (Some(s), Some(r)) = (mag_set, mag_reset) {
            self.update_offsets(s, r);
        }
    }
}

impl<I2C, D> Mmc5983Sync<I2cInterface<I2C>, D> {
    /// Create a new instance on an I2C bus.
    pub fn new_with_i2c(i2c: I2C, address: u8, config: Mmc5983Config, delay: D) -> (r: Self)
        ensures
            r.spec_iface().i2c == i2c,
            r.spec_iface().address == address,
            r.spec_delay() == delay,
            r.spec_config() == config,
            r.spec_ofst() is None,
            !r.spec_running(),
    {
        Mmc5983Sync {
            iface: I2cInterface { i2c, address },
            delay,
            config,
            ofst: None,
            running: false,
        }
    }
}

impl<SPI, D> Mmc5983Sync<SpiInterface<SPI>, D> {
    /// Create a new instance on an SPI device.
    pub fn new_with_spi(spi: SPI, config: Mmc5983Config, delay: D) -> (r: Self)
        ensures
            r.spec_iface().spi == spi,
            r.spec_delay() == delay,
            r.spec_config() == config,
            r.spec_ofst() is None,
            !r.spec_running(),
    {
        Mmc5983Sync { iface: SpiInterface { spi }, delay, config, ofst: None, running: false }
    }
}

/// The stored bridge offset is the midpoint of the SET and RESET readings:
/// the two readings come out as opposite values once it is removed (their
/// sum is 0, or 1 when the two readings differ by an odd count).
pub proof fn lemma_offset_cancels(set: MagMeasurementRaw, reset: MagMeasurementRaw)
    requires
        set.wf(),
        reset.wf(),
    ensures
        ({
            let (ox, oy, oz) = spec_offset(set, reset);
            &&& (set.spec_x() - ox) + (reset.spec_x() - ox) == (set.spec_x() + reset.spec_x()) % 2
            &&& (set.spec_y() - oy) + (reset.spec_y() - oy) == (set.spec_y() + reset.spec_y()) % 2
            &&& (set.spec_z() - oz) + (reset.spec_z() - oz) == (set.spec_z() + reset.spec_z()) % 2
        }),
{
}

/// A built configuration uses at least 200 Hz bandwidth from 200 Hz output
/// rate on and 800 Hz at 1000 Hz output rate; below 200 Hz it keeps the
/// requested bandwidth.
pub proof fn lemma_build_bandwidth(f: ContinuousMeasurementFreq, bw: DecimationBw)
    ensures
        f == ContinuousMeasurementFreq::Hz1000 ==> effective_bandwidth(f, bw) == DecimationBw::Hz800,
        f == ContinuousMeasurementFreq::Hz200 ==> effective_bandwidth(f, bw) != DecimationBw::Hz100,
        f != ContinuousMeasurementFreq::Hz1000 && f != ContinuousMeasurementFreq::Hz200 ==> effective_bandwidth(f, bw) == bw,
{
}

} // verus!
