//! BMI323 register fields: addresses, sensor configuration words,
//! measurement ranges, output data rates and the status, saturation and
//! error flags.
use vstd::prelude::*;

use crate::bitfield::{get16, set16};

verus! {

/// Error register.
pub const ERR_REG_ADDR: u8 = 0x01;

/// Status register.
pub const STATUS_ADDR: u8 = 0x02;

/// First data register (accelerometer x); gyroscope, temperature and the
/// timestamp follow.
pub const ACCEL_DATA_ADDR: u8 = 0x03;

/// Saturation flags register.
pub const SAT_FLAGS_ADDR: u8 = 0x0C;

/// Chip identifier register (low byte 0x43).
pub const CHIP_ID_ADDR: u8 = 0x00;

/// Expected low byte of the chip identifier.
pub const CHIP_ID: u8 = 0x43;

/// Feature engine status register (FEATURE_IO1): error status in bits
/// 3:0, self-calibration complete in bit 4.
pub const FEATURE_IO1_ADDR: u8 = 0x11;

/// Accelerometer configuration register.
pub const ACC_CONF_ADDR: u8 = 0x20;

/// Gyroscope configuration register.
pub const GYR_CONF_ADDR: u8 = 0x21;

/// Gyroscope self-calibration selection: sensitivity bit 0, offset bit 1,
/// apply the correction bit 2.
pub const GYR_SC_SELECT_ADDR: u8 = 0x26;

/// FIFO configuration.
pub const FIFO_CONF_ADDR: u8 = 0x36;

/// Interrupt pin control: INT1 output enable bit 2, INT2 output enable
/// bit 10.
pub const IO_INT_CTRL_ADDR: u8 = 0x38;

/// Interrupt map of the data-ready, FIFO and error interrupts.
pub const INT_MAP2_ADDR: u8 = 0x3B;

/// Feature engine control: enable in bit 0.
pub const FEATURE_CTRL_ADDR: u8 = 0x40;

/// I2C interface settings: watchdog selection bit 0, enable bit 1.
pub const IO_I2C_IF_ADDR: u8 = 0x52;

/// Pin a interrupt is routed to (two bits of an interrupt map).
#[derive(Debug, Clone, Copy, PartialEq, Eq, Structural)]
pub enum IrqMap {
    /// Not routed
    Disabled,
    /// INT1 pin
    Int1,
    /// INT2 pin
    Int2,
    /// I3C in-band interrupt
    Ibi,
}

impl IrqMap {
    /// Two-bit code.
    pub open spec fn spec_bits(self) -> u16 {
        match self {
            IrqMap::Disabled => 0,
            IrqMap::Int1 => 1,
            IrqMap::Int2 => 2,
            IrqMap::Ibi => 3,
        }
    }

    /// Two-bit code.
    pub fn bits(self) -> (r: u16)
        ensures
            r == self.spec_bits(),
            r <= 3,
    {
        match self {
            IrqMap::Disabled => 0,
            IrqMap::Int1 => 1,
            IrqMap::Int2 => 2,
            IrqMap::Ibi => 3,
        }
    }
}

/// INT_MAP2 word routing the data-ready interrupts: temperature in bits
/// 11:10, gyroscope in bits 13:12, accelerometer in bits 15:14; the other
/// interrupts not routed.
pub open spec fn data_ready_map(acc: IrqMap, gyr: IrqMap, temp: IrqMap) -> u16 {
    (temp.spec_bits() * 1024 + gyr.spec_bits() * 4096 + acc.spec_bits() * 16384) as u16
}

/// Build the INT_MAP2 word that routes the data-ready interrupts.
pub fn make_data_ready_map(acc: IrqMap, gyr: IrqMap, temp: IrqMap) -> (r: u16)
    ensures
        r == data_ready_map(acc, gyr, temp),
{
    temp.bits() * 1024 + gyr.bits() * 4096 + acc.bits() * 16384
}

/// Command register.
pub const CMD_ADDR: u8 = 0x7E;

/// Command: soft reset.
pub const CMD_SOFT_RESET: u16 = 0xDEAF;

/// Command: start the gyroscope self-calibration.
pub const CMD_GYRO_SELF_CALIB: u16 = 0x0101;

/// A sensor configuration word: data rate code in bits 3:0, range code in
/// bits 6:4, mode code in bits 14:12, filter and averaging bits zero.
pub open spec fn conf_word(odr: u8, range: u8, mode: u8) -> u16 {
    (odr + range * 16 + mode * 4096) as u16
}

/// Build a sensor configuration word.
pub fn make_conf_word(odr: u8, range: u8, mode: u8) -> (r: u16)
    requires
        odr <= 15,
        range <= 7,
        mode <= 7,
    ensures
        r == conf_word(odr, range, mode),
        get16(r, 0, 15) == odr,
        get16(r, 4, 7) == range,
        get16(r, 12, 7) == mode,
{
    let r: u16 = (odr as u16) + (range as u16) * 16 + (mode as u16) * 4096;
    let o: u16 = odr as u16;
    let g: u16 = range as u16;
    let m: u16 = mode as u16;
    assert(get16(r, 0, 15) == o && get16(r, 4, 7) == g && get16(r, 12, 7) == m) by (bit_vector)
        requires
            r == o + g * 16 + m * 4096,
            o <= 15,
            g <= 7,
            m <= 7,
    ;
    r
}

/// Gyroscope self-calibration selection word.
pub open spec fn sc_select_word(sensitivity: bool, offset: bool, apply: bool) -> u16 {
    ((if sensitivity { 1int } else { 0int }) + (if offset { 2int } else { 0int }) + (if apply {
        4int
    } else {
        0int
    })) as u16
}

/// Build the gyroscope self-calibration selection word.
pub fn make_sc_select_word(sensitivity: bool, offset: bool, apply: bool) -> (r: u16)
    ensures
        r == sc_select_word(sensitivity, offset, apply),
        bit16(r, 0) == sensitivity,
        bit16(r, 1) == offset,
        bit16(r, 2) == apply,
{
    let a: u16 = if sensitivity { 1 } else { 0 };
    let b: u16 = if offset { 2 } else { 0 };
    let c: u16 = if apply { 4 } else { 0 };
    a + b + c
}

/// Error status of the feature engine (FEATURE_IO1 bits 3:0).
#[derive(Debug, Clone, Copy, PartialEq, Eq, Structural)]
pub enum FeatureIo1Error {
    /// Feature engine still inactive (0x0)
    Inactive,
    /// Feature engine active (0x1)
    Active,
    /// Feature engine activated (0x2)
    Activated,
    /// Configuration download failed (0x3)
    InitCrcError,
    /// Running without error (0x5)
    NoError,
    /// Any other status code
    Other(u8),
}

/// Error status for a status code.
pub open spec fn spec_feature_error(code: int) -> FeatureIo1Error {
    if code == 0 {
        FeatureIo1Error::Inactive
    } else if code == 1 {
        FeatureIo1Error::Active
    } else if code == 2 {
        FeatureIo1Error::Activated
    } else if code == 3 {
        FeatureIo1Error::InitCrcError
    } else if code == 5 {
        FeatureIo1Error::NoError
    } else {
        FeatureIo1Error::Other(code as u8)
    }
}

/// Error status of a FEATURE_IO1 value.
pub open spec fn feature_errors(v: u16) -> FeatureIo1Error {
    spec_feature_error((v % 16) as int)
}

/// Self-calibration finished (FEATURE_IO1 bit 4).
pub open spec fn self_proc_done(v: u16) -> bool {
    bit16(v, 4)
}

/// Decode the error status of a FEATURE_IO1 value.
pub fn feature_error_of(v: u16) -> (r: FeatureIo1Error)
    ensures
        r == feature_errors(v),
{
    let code: u16 = v % 16;
    if code == 0 {
        FeatureIo1Error::Inactive
    } else if code == 1 {
        FeatureIo1Error::Active
    } else if code == 2 {
        FeatureIo1Error::Activated
    } else if code == 3 {
        FeatureIo1Error::InitCrcError
    } else if code == 5 {
        FeatureIo1Error::NoError
    } else {
        FeatureIo1Error::Other(code as u8)
    }
}

/// A sensor configuration word (ACC_CONF or GYR_CONF) with a new range
/// code in bits 6:4; the data rate (bits 3:0), filter and averaging (bits
/// 10:7) and mode (bits 14:12) are kept.
pub fn conf_with_range(conf: u16, code: u8) -> (r: u16)
    requires
        code <= 7,
    ensures
        r == set16(conf, 4, 7, code as u16),
        get16(r, 4, 7) == code,
        get16(r, 0, 15) == get16(conf, 0, 15),
        get16(r, 7, 15) == get16(conf, 7, 15),
        get16(r, 12, 7) == get16(conf, 12, 7),
{
    let c: u16 = code as u16;
    let r: u16 = (conf & !(7u16 << 4u16)) | ((c & 7) << 4u16);
    assert(get16(r, 4, 7) == c && get16(r, 0, 15) == get16(conf, 0, 15) && get16(r, 7, 15) == get16(conf, 7, 15) && get16(r, 12, 7) == get16(conf, 12, 7)) by (bit_vector)
        requires
            r == (conf & !(7u16 << 4u16)) | ((c & 7) << 4u16),
            c <= 7,
    ;
    r
}

/// A sensor configuration word with a new mode code in bits 14:12; the
/// other fields are kept.
pub fn conf_with_mode(conf: u16, mode: u8) -> (r: u16)
    requires
        mode <= 7,
    ensures
        r == set16(conf, 12, 7, mode as u16),
        get16(r, 12, 7) == mode,
        get16(r, 0, 0xff) == get16(conf, 0, 0xff),
        get16(r, 8, 15) == get16(conf, 8, 15),
        (r >> 15u16) == (conf >> 15u16),
{
    let m: u16 = mode as u16;
    let r: u16 = (conf & !(7u16 << 12u16)) | ((m & 7) << 12u16);
    assert(get16(r, 12, 7) == m && get16(r, 0, 0xff) == get16(conf, 0, 0xff) && get16(r, 8, 15) == get16(conf, 8, 15) && (r >> 15u16) == (conf >> 15u16)) by (bit_vector)
        requires
            r == (conf & !(7u16 << 12u16)) | ((m & 7) << 12u16),
            m <= 7,
    ;
    r
}

/// Operating mode of a sensor (bits 14:12 of its configuration word).
#[derive(Debug, Clone, Copy, PartialEq, Eq, Structural)]
pub enum SensorMode {
    /// Sensor disabled
    Off,
    /// Low power mode (duty cycling)
    LowPower,
    /// Normal mode
    Normal,
    /// High performance mode
    HighPerformance,
}

impl SensorMode {
    /// Mode code.
    pub open spec fn spec_bits(self) -> u8 {
        match self {
            SensorMode::Off => 0,
            SensorMode::LowPower => 3,
            SensorMode::Normal => 4,
            SensorMode::HighPerformance => 7,
        }
    }

    /// Mode code.
    pub fn bits(self) -> (r: u8)
        ensures
            r == self.spec_bits(),
            r <= 7,
    {
        match self {
            SensorMode::Off => 0,
            SensorMode::LowPower => 3,
            SensorMode::Normal => 4,
            SensorMode::HighPerformance => 7,
        }
    }
}

/// Accelerometer full-scale range (ACC_CONF bits 6:4).
#[derive(Debug, Clone, Copy, PartialEq, Eq, Structural)]
pub enum RawAccelRange {
    /// +/- 2 g
    G2,
    /// +/- 4 g
    G4,
    /// +/- 8 g
    G8,
    /// +/- 16 g
    G16,
}

impl RawAccelRange {
    /// Register code of the range.
    pub open spec fn spec_bits(self) -> u8 {
        match self {
            RawAccelRange::G2 => 0,
            RawAccelRange::G4 => 1,
            RawAccelRange::G8 => 2,
            RawAccelRange::G16 => 3,
        }
    }

    /// Range of a register code; larger codes stand for the widest range.
    pub open spec fn spec_from_u8(v: u8) -> RawAccelRange {
        if v == 0 {
            RawAccelRange::G2
        } else if v == 1 {
            RawAccelRange::G4
        } else if v == 2 {
            RawAccelRange::G8
        } else {
            RawAccelRange::G16
        }
    }

    /// The next wider range, if any.
    pub open spec fn spec_step_up(self) -> Option<RawAccelRange> {
        match self {
            RawAccelRange::G2 => Some(RawAccelRange::G4),
            RawAccelRange::G4 => Some(RawAccelRange::G8),
            RawAccelRange::G8 => Some(RawAccelRange::G16),
            RawAccelRange::G16 => None,
        }
    }

    /// The next narrower range, if any.
    pub open spec fn spec_step_down(self) -> Option<RawAccelRange> {
        match self {
            RawAccelRange::G2 => None,
            RawAccelRange::G4 => Some(RawAccelRange::G2),
            RawAccelRange::G8 => Some(RawAccelRange::G4),
            RawAccelRange::G16 => Some(RawAccelRange::G8),
        }
    }

    /// Register code of the range.
    pub fn into_bits(self) -> (r: u8)
        ensures
            r == self.spec_bits(),
            r <= 3,
    {
        match self {
            RawAccelRange::G2 => 0,
            RawAccelRange::G4 => 1,
            RawAccelRange::G8 => 2,
            RawAccelRange::G16 => 3,
        }
    }

    /// Range of a register code; larger codes stand for the widest range.
    pub fn from_u8(v: u8) -> (r: RawAccelRange)
        ensures
            r == RawAccelRange::spec_from_u8(v),
    {
        if v == 0 {
            RawAccelRange::G2
        } else if v == 1 {
            RawAccelRange::G4
        } else if v == 2 {
            RawAccelRange::G8
        } else {
            RawAccelRange::G16
        }
    }

    /// The next wider range, if any.
    pub fn step_up(self) -> (r: Option<RawAccelRange>)
        ensures
            r == self.spec_step_up(),
    {
        match self {
            RawAccelRange::G2 => Some(RawAccelRange::G4),
            RawAccelRange::G4 => Some(RawAccelRange::G8),
            RawAccelRange::G8 => Some(RawAccelRange::G16),
            RawAccelRange::G16 => None,
        }
    }

    /// The next narrower range, if any.
    pub fn step_down(self) -> (r: Option<RawAccelRange>)
        ensures
            r == self.spec_step_down(),
    {
        match self {
            RawAccelRange::G2 => None,
            RawAccelRange::G4 => Some(RawAccelRange::G2),
            RawAccelRange::G8 => Some(RawAccelRange::G4),
            RawAccelRange::G16 => Some(RawAccelRange::G8),
        }
    }
}

/// Decoding the code of a range gives it back; stepping up then down
/// returns to the same range.
pub proof fn lemma_accel_range_roundtrip(r: RawAccelRange)
    ensures
        RawAccelRange::spec_from_u8(r.spec_bits()) == r,
        r.spec_step_up() matches Some(u) ==> u.spec_step_down() == Some(r),
        r.spec_step_down() matches Some(d) ==> d.spec_step_up() == Some(r),
{
}

/// Gyroscope full-scale range (GYR_CONF bits 6:4).
#[derive(Debug, Clone, Copy, PartialEq, Eq, Structural)]
pub enum RawGyroRange {
    /// +/- 125 dps
    Dps125,
    /// +/- 250 dps
    Dps250,
    /// +/- 500 dps
    Dps500,
    /// +/- 1000 dps
    Dps1000,
    /// +/- 2000 dps
    Dps2000,
}

impl RawGyroRange {
    /// Register code of the range.
    pub open spec fn spec_bits(self) -> u8 {
        match self {
            RawGyroRange::Dps125 => 0,
            RawGyroRange::Dps250 => 1,
            RawGyroRange::Dps500 => 2,
            RawGyroRange::Dps1000 => 3,
            RawGyroRange::Dps2000 => 4,
        }
    }

    /// Range of a register code; larger codes stand for the widest range.
    pub open spec fn spec_from_u8(v: u8) -> RawGyroRange {
        if v == 0 {
            RawGyroRange::Dps125
        } else if v == 1 {
            RawGyroRange::Dps250
        } else if v == 2 {
            RawGyroRange::Dps500
        } else if v == 3 {
            RawGyroRange::Dps1000
        } else {
            RawGyroRange::Dps2000
        }
    }

    /// The next wider range, if any.
    pub open spec fn spec_step_up(self) -> Option<RawGyroRange> {
        match self {
            RawGyroRange::Dps125 => Some(RawGyroRange::Dps250),
            RawGyroRange::Dps250 => Some(RawGyroRange::Dps500),
            RawGyroRange::Dps500 => Some(RawGyroRange::Dps1000),
            RawGyroRange::Dps1000 => Some(RawGyroRange::Dps2000),
            RawGyroRange::Dps2000 => None,
        }
    }

    /// The next narrower range, if any.
    pub open spec fn spec_step_down(self) -> Option<RawGyroRange> {
        match self {
            RawGyroRange::Dps125 => None,
            RawGyroRange::Dps250 => Some(RawGyroRange::Dps125),
            RawGyroRange::Dps500 => Some(RawGyroRange::Dps250),
            RawGyroRange::Dps1000 => Some(RawGyroRange::Dps500),
            RawGyroRange::Dps2000 => Some(RawGyroRange::Dps1000),
        }
    }

    /// Register code of the range.
    pub fn into_bits(self) -> (r: u8)
        ensures
            r == self.spec_bits(),
            r <= 4,
    {
        match self {
            RawGyroRange::Dps125 => 0,
            RawGyroRange::Dps250 => 1,
            RawGyroRange::Dps500 => 2,
            RawGyroRange::Dps1000 => 3,
            RawGyroRange::Dps2000 => 4,
        }
    }

    /// Range of a register code; larger codes stand for the widest range.
    pub fn from_u8(v: u8) -> (r: RawGyroRange)
        ensures
            r == RawGyroRange::spec_from_u8(v),
    {
        if v == 0 {
            RawGyroRange::Dps125
        } else if v == 1 {
            RawGyroRange::Dps250
        } else if v == 2 {
            RawGyroRange::Dps500
        } else if v == 3 {
            RawGyroRange::Dps1000
        } else {
            RawGyroRange::Dps2000
        }
    }

    /// The next wider range, if any.
    pub fn step_up(self) -> (r: Option<RawGyroRange>)
        ensures
            r == self.spec_step_up(),
    {
        match self {
            RawGyroRange::Dps125 => Some(RawGyroRange::Dps250),
            RawGyroRange::Dps250 => Some(RawGyroRange::Dps500),
            RawGyroRange::Dps500 => Some(RawGyroRange::Dps1000),
            RawGyroRange::Dps1000 => Some(RawGyroRange::Dps2000),
            RawGyroRange::Dps2000 => None,
        }
    }

    /// The next narrower range, if any.
    pub fn step_down(self) -> (r: Option<RawGyroRange>)
        ensures
            r == self.spec_step_down(),
    {
        match self {
            RawGyroRange::Dps125 => None,
            RawGyroRange::Dps250 => Some(RawGyroRange::Dps125),
            RawGyroRange::Dps500 => Some(RawGyroRange::Dps250),
            RawGyroRange::Dps1000 => Some(RawGyroRange::Dps500),
            RawGyroRange::Dps2000 => Some(RawGyroRange::Dps1000),
        }
    }
}

/// Decoding the code of a range gives it back; stepping up then down
/// returns to the same range.
pub proof fn lemma_gyro_range_roundtrip(r: RawGyroRange)
    ensures
        RawGyroRange::spec_from_u8(r.spec_bits()) == r,
        r.spec_step_up() matches Some(u) ==> u.spec_step_down() == Some(r),
        r.spec_step_down() matches Some(d) ==> d.spec_step_up() == Some(r),
{
}

/// Output data rate of a sensor.
#[derive(Debug, Clone, Copy, PartialEq, Eq, Structural)]
pub enum OutputDataRate {
    /// 0.78125 Hz
    Hz0_78125,
    /// 1.5625 Hz
    Hz1_5625,
    /// 3.125 Hz
    Hz3_125,
    /// 6.25 Hz
    Hz6_25,
    /// 12.5 Hz
    Hz12_5,
    /// 25 Hz
    Hz25,
    /// 50 Hz
    Hz50,
    /// 100 Hz
    Hz100,
    /// 200 Hz
    Hz200,
    /// 400 Hz
    Hz400,
    /// 800 Hz
    Hz800,
    /// 1600 Hz
    Hz1600,
    /// 3200 Hz
    Hz3200,
    /// 6400 Hz
    Hz6400,
}

impl OutputDataRate {
    /// Data rate code (bits 3:0 of a configuration word).
    pub open spec fn spec_bits(self) -> u8 {
        match self {
            OutputDataRate::Hz0_78125 => 1,
            OutputDataRate::Hz1_5625 => 2,
            OutputDataRate::Hz3_125 => 3,
            OutputDataRate::Hz6_25 => 4,
            OutputDataRate::Hz12_5 => 5,
            OutputDataRate::Hz25 => 6,
            OutputDataRate::Hz50 => 7,
            OutputDataRate::Hz100 => 8,
            OutputDataRate::Hz200 => 9,
            OutputDataRate::Hz400 => 10,
            OutputDataRate::Hz800 => 11,
            OutputDataRate::Hz1600 => 12,
            OutputDataRate::Hz3200 => 13,
            OutputDataRate::Hz6400 => 14,
        }
    }

    /// Data rate code (bits 3:0 of a configuration word).
    pub fn bits(self) -> (r: u8)
        ensures
            r == self.spec_bits(),
            r <= 15,
    {
        match self {
            OutputDataRate::Hz0_78125 => 1,
            OutputDataRate::Hz1_5625 => 2,
            OutputDataRate::Hz3_125 => 3,
            OutputDataRate::Hz6_25 => 4,
            OutputDataRate::Hz12_5 => 5,
            OutputDataRate::Hz25 => 6,
            OutputDataRate::Hz50 => 7,
            OutputDataRate::Hz100 => 8,
            OutputDataRate::Hz200 => 9,
            OutputDataRate::Hz400 => 10,
            OutputDataRate::Hz800 => 11,
            OutputDataRate::Hz1600 => 12,
            OutputDataRate::Hz3200 => 13,
            OutputDataRate::Hz6400 => 14,
        }
    }

    /// Sample period in whole microseconds (rounded down).
    pub open spec fn spec_period_us(self) -> u32 {
        match self {
            OutputDataRate::Hz0_78125 => 1_280_000,
            OutputDataRate::Hz1_5625 => 640_000,
            OutputDataRate::Hz3_125 => 320_000,
            OutputDataRate::Hz6_25 => 160_000,
            OutputDataRate::Hz12_5 => 80_000,
            OutputDataRate::Hz25 => 40_000,
            OutputDataRate::Hz50 => 20_000,
            OutputDataRate::Hz100 => 10_000,
            OutputDataRate::Hz200 => 5_000,
            OutputDataRate::Hz400 => 2_500,
            OutputDataRate::Hz800 => 1_250,
            OutputDataRate::Hz1600 => 625,
            OutputDataRate::Hz3200 => 312,
            OutputDataRate::Hz6400 => 156,
        }
    }

    /// Sample period in whole microseconds (rounded down).
    pub fn period_us(self) -> (r: u32)
        ensures
            r == self.spec_period_us(),
            r > 0,
    {
        match self {
            OutputDataRate::Hz0_78125 => 1_280_000,
            OutputDataRate::Hz1_5625 => 640_000,
            OutputDataRate::Hz3_125 => 320_000,
            OutputDataRate::Hz6_25 => 160_000,
            OutputDataRate::Hz12_5 => 80_000,
            OutputDataRate::Hz25 => 40_000,
            OutputDataRate::Hz50 => 20_000,
            OutputDataRate::Hz100 => 10_000,
            OutputDataRate::Hz200 => 5_000,
            OutputDataRate::Hz400 => 2_500,
            OutputDataRate::Hz800 => 1_250,
            OutputDataRate::Hz1600 => 625,
            OutputDataRate::Hz3200 => 312,
            OutputDataRate::Hz6400 => 156,
        }
    }
}

/// Bit `n` of a 16-bit register value.
pub open spec fn bit16(v: u16, n: u16) -> bool {
    (v / pow2_16(n)) % 2 == 1
}

/// Two to the power `n`, for bit positions of a 16-bit word.
pub open spec fn pow2_16(n: u16) -> u16 {
    if n == 0 {
        1
    } else if n == 1 {
        2
    } else if n == 2 {
        4
    } else if n == 3 {
        8
    } else if n == 4 {
        16
    } else if n == 5 {
        32
    } else if n == 6 {
        64
    } else {
        128
    }
}

/// Data-ready flags of STATUS (0x02): temperature bit 5, gyroscope bit 6,
/// accelerometer bit 7.
#[derive(Debug, Clone, Copy, PartialEq, Eq, Structural)]
pub struct StatusReg {
    /// New temperature data
    pub drdy_temp: bool,
    /// New gyroscope data
    pub drdy_gyr: bool,
    /// New accelerometer data
    pub drdy_acc: bool,
}

impl StatusReg {
    /// Decode the register value.
    pub fn from_u16(v: u16) -> (r: Self)
        ensures
            r.drdy_temp == bit16(v, 5),
            r.drdy_gyr == bit16(v, 6),
            r.drdy_acc == bit16(v, 7),
    {
        StatusReg {
            drdy_temp: (v / 32) % 2 == 1,
            drdy_gyr: (v / 64) % 2 == 1,
            drdy_acc: (v / 128) % 2 == 1,
        }
    }
}

/// Saturation flags of SAT_FLAGS (0x0C): accelerometer x, y, z in bits
/// 0..2, gyroscope x, y, z in bits 3..5.
#[derive(Debug, Clone, Copy, PartialEq, Eq, Structural)]
pub struct SaturationReg {
    /// Accelerometer x saturated
    pub acc_x: bool,
    /// Accelerometer y saturated
    pub acc_y: bool,
    /// Accelerometer z saturated
    pub acc_z: bool,
    /// Gyroscope x saturated
    pub gyr_x: bool,
    /// Gyroscope y saturated
    pub gyr_y: bool,
    /// Gyroscope z saturated
    pub gyr_z: bool,
}

impl SaturationReg {
    /// Decode the register value.
    pub fn from_u16(v: u16) -> (r: Self)
        ensures
            r.acc_x == bit16(v, 0),
            r.acc_y == bit16(v, 1),
            r.acc_z == bit16(v, 2),
            r.gyr_x == bit16(v, 3),
            r.gyr_y == bit16(v, 4),
            r.gyr_z == bit16(v, 5),
    {
        SaturationReg {
            acc_x: v % 2 == 1,
            acc_y: (v / 2) % 2 == 1,
            acc_z: (v / 4) % 2 == 1,
            gyr_x: (v / 8) % 2 == 1,
            gyr_y: (v / 16) % 2 == 1,
            gyr_z: (v / 32) % 2 == 1,
        }
    }
}

/// Error flags of ERR_REG (0x01): fatal bit 0, accelerometer configuration
/// bit 5, gyroscope configuration bit 6.
#[derive(Debug, Clone, Copy, PartialEq, Eq, Structural)]
pub struct ErrorReg {
    /// Fatal error
    pub fatal: bool,
    /// Invalid accelerometer configuration
    pub accel_conf: bool,
    /// Invalid gyroscope configuration
    pub gyro_conf: bool,
}

impl ErrorReg {
    /// Decode the register value.
    pub fn from_u16(v: u16) -> (r: Self)
        ensures
            r.fatal == bit16(v, 0),
            r.accel_conf == bit16(v, 5),
            r.gyro_conf == bit16(v, 6),
    {
        ErrorReg { fatal: v % 2 == 1, accel_conf: (v / 32) % 2 == 1, gyro_conf: (v / 64) % 2 == 1 }
    }
}

} // verus!
