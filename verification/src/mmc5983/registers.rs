//! MMC5983MA register map and configuration encoding.
use vstd::prelude::*;

verus! {

/// Product identifier register.
pub const PRODUCT_ID_ADDR: u8 = 0x2F;
/// Expected product identifier.
pub const MMC5983_DEVICE_ID: u8 = 0x30;
/// Status register.
pub const STATUS_ADDR: u8 = 0x08;
/// Internal control 0: measurement triggers.
pub const CONTROL0_ADDR: u8 = 0x09;
/// Internal control 1: bandwidth, axis inhibit, software reset.
pub const CONTROL1_ADDR: u8 = 0x0A;
/// Internal control 2: continuous mode and periodic set.
pub const CONTROL2_ADDR: u8 = 0x0B;
/// Temperature output register.
pub const TEMP_OUT_ADDR: u8 = 0x07;
/// First magnetic output register.
pub const XOUT0_ADDR: u8 = 0x00;

/// Continuous measurement frequency.
#[derive(Debug, Clone, Copy, PartialEq, Eq, Structural)]
pub enum ContinuousMeasurementFreq {
    /// Continuous mode off
    Off,
    /// 1 Hz
    Hz1,
    /// 10 Hz
    Hz10,
    /// 20 Hz
    Hz20,
    /// 50 Hz
    Hz50,
    /// 100 Hz
    Hz100,
    /// 200 Hz
    Hz200,
    /// 1000 Hz
    Hz1000,
}

impl ContinuousMeasurementFreq {
    /// Cm_freq field code (control 2 bits 2:0).
    pub open spec fn spec_bits(self) -> u8 {
        match self {
            ContinuousMeasurementFreq::Off => 0,
            ContinuousMeasurementFreq::Hz1 => 1,
            ContinuousMeasurementFreq::Hz10 => 2,
            ContinuousMeasurementFreq::Hz20 => 3,
            ContinuousMeasurementFreq::Hz50 => 4,
            ContinuousMeasurementFreq::Hz100 => 5,
            ContinuousMeasurementFreq::Hz200 => 6,
            ContinuousMeasurementFreq::Hz1000 => 7,
        }
    }

    /// Cm_freq field code (control 2 bits 2:0).
    pub fn bits(self) -> (r: u8)
        ensures
            r == self.spec_bits(),
            r <= 7,
    {
        match self {
            ContinuousMeasurementFreq::Off => 0,
            ContinuousMeasurementFreq::Hz1 => 1,
            ContinuousMeasurementFreq::Hz10 => 2,
            ContinuousMeasurementFreq::Hz20 => 3,
            ContinuousMeasurementFreq::Hz50 => 4,
            ContinuousMeasurementFreq::Hz100 => 5,
            ContinuousMeasurementFreq::Hz200 => 6,
            ContinuousMeasurementFreq::Hz1000 => 7,
        }
    }
}

/// Decimation filter bandwidth.
#[derive(Debug, Clone, Copy, PartialEq, Eq, Structural)]
pub enum DecimationBw {
    /// 100 Hz, 8 ms measurement
    Hz100,
    /// 200 Hz, 4 ms measurement
    Hz200,
    /// 400 Hz, 2 ms measurement
    Hz400,
    /// 800 Hz, 0.5 ms measurement
    Hz800,
}

impl DecimationBw {
    /// BW field code (control 1 bits 1:0).
    pub open spec fn spec_bits(self) -> u8 {
        match self {
            DecimationBw::Hz100 => 0,
            DecimationBw::Hz200 => 1,
            DecimationBw::Hz400 => 2,
            DecimationBw::Hz800 => 3,
        }
    }

    /// Measurement time in microseconds.
    pub open spec fn spec_delay_us(self) -> u32 {
        match self {
            DecimationBw::Hz100 => 8000,
            DecimationBw::Hz200 => 4000,
            DecimationBw::Hz400 => 2000,
            DecimationBw::Hz800 => 500,
        }
    }

    /// BW field code (control 1 bits 1:0).
    pub fn bits(self) -> (r: u8)
        ensures
            r == self.spec_bits(),
            r <= 3,
    {
        match self {
            DecimationBw::Hz100 => 0,
            DecimationBw::Hz200 => 1,
            DecimationBw::Hz400 => 2,
            DecimationBw::Hz800 => 3,
        }
    }

    /// Measurement time in microseconds.
    pub fn delay_us(self) -> (r: u32)
        ensures
            r == self.spec_delay_us(),
    {
        match self {
            DecimationBw::Hz100 => 8000,
            DecimationBw::Hz200 => 4000,
            DecimationBw::Hz400 => 2000,
            DecimationBw::Hz800 => 500,
        }
    }
}

/// Number of measurements between automatic SET operations.
#[derive(Debug, Clone, Copy, PartialEq, Eq, Structural)]
pub enum PeriodicSetInterval {
    /// Every measurement
    Per1,
    /// Every 25 measurements
    Per25,
    /// Every 75 measurements
    Per75,
    /// Every 100 measurements
    Per100,
    /// Every 250 measurements
    Per250,
    /// Every 500 measurements
    Per500,
    /// Every 1000 measurements
    Per1000,
    /// Every 2000 measurements
    Per2000,
    /// No periodic SET
    Off,
}

impl PeriodicSetInterval {
    /// Prd_set field code (control 2 bits 6:4) and the En_prd_set bit.
    pub open spec fn spec_bits(self) -> (u8, bool) {
        match self {
            PeriodicSetInterval::Per1 => (0, true),
            PeriodicSetInterval::Per25 => (1, true),
            PeriodicSetInterval::Per75 => (2, true),
            PeriodicSetInterval::Per100 => (3, true),
            PeriodicSetInterval::Per250 => (4, true),
            PeriodicSetInterval::Per500 => (5, true),
            PeriodicSetInterval::Per1000 => (6, true),
            PeriodicSetInterval::Per2000 => (7, true),
            PeriodicSetInterval::Off => (0, false),
        }
    }

    /// Prd_set field code (control 2 bits 6:4) and the En_prd_set bit.
    pub fn bits(self) -> (r: (u8, bool))
        ensures
            r == self.spec_bits(),
            r.0 <= 7,
    {
        match self {
            PeriodicSetInterval::Per1 => (0, true),
            PeriodicSetInterval::Per25 => (1, true),
            PeriodicSetInterval::Per75 => (2, true),
            PeriodicSetInterval::Per100 => (3, true),
            PeriodicSetInterval::Per250 => (4, true),
            PeriodicSetInterval::Per500 => (5, true),
            PeriodicSetInterval::Per1000 => (6, true),
            PeriodicSetInterval::Per2000 => (7, true),
            PeriodicSetInterval::Off => (0, false),
        }
    }
}

/// Axes excluded from measurement.
#[derive(Debug, Clone, Copy, PartialEq, Eq, Structural)]
pub enum AxisInhibit {
    /// All axes active
    NoAxis,
    /// X axis inhibited
    X,
    /// Y and Z axes inhibited
    YZ,
    /// All axes inhibited
    XYZ,
}

impl AxisInhibit {
    /// Inhibit bits of control 1: X in bit 2, Y and Z in bits 4:3.
    pub open spec fn spec_bits(self) -> u8 {
        match self {
            AxisInhibit::NoAxis => 0,
            AxisInhibit::X => 0x04,
            AxisInhibit::YZ => 0x18,
            AxisInhibit::XYZ => 0x1C,
        }
    }

    /// Inhibit bits of control 1: X in bit 2, Y and Z in bits 4:3.
    pub fn bits(self) -> (r: u8)
        ensures
            r == self.spec_bits(),
    {
        match self {
            AxisInhibit::NoAxis => 0,
            AxisInhibit::X => 0x04,
            AxisInhibit::YZ => 0x18,
            AxisInhibit::XYZ => 0x1C,
        }
    }
}

/// Status flags (register 0x08): magnetic measurement done (bit 0),
/// temperature measurement done (bit 1).
#[derive(Debug, Clone, Copy, PartialEq, Eq, Structural)]
pub struct StatusRegister {
    /// A magnetic measurement finished
    pub magmeas_done: bool,
    /// A temperature measurement finished
    pub tmeas_done: bool,
}

impl StatusRegister {
    /// Decode the register value.
    pub fn from_u8(v: u8) -> (r: Self)
        ensures
            r.magmeas_done == (v % 2 == 1),
            r.tmeas_done == ((v / 2) % 2 == 1),
    {
        StatusRegister { magmeas_done: v % 2 == 1, tmeas_done: (v / 2) % 2 == 1 }
    }

    /// Register value that clears the done flags that are set (writing 1 clears).
    pub fn to_u8(&self) -> (r: u8)
        ensures
            r == (if self.magmeas_done { 1u8 } else { 0u8 }) + (if self.tmeas_done {
                2u8
            } else {
                0u8
            }),
    {
        (if self.magmeas_done { 1u8 } else { 0u8 }) + (if self.tmeas_done { 2u8 } else { 0u8 })
    }
}

/// Measurement triggers of internal control 0.
#[derive(Debug, Clone, Copy, PartialEq, Eq, Structural)]
pub struct MeasurementTriggerControl {
    /// TM_M: start a magnetic measurement (bit 0)
    pub tm_m: bool,
    /// TM_T: start a temperature measurement (bit 1)
    pub tm_t: bool,
    /// INT_meas_done_en: interrupt at the end of a measurement (bit 2)
    pub int_meas_done_en: bool,
    /// Set: SET operation (bit 3)
    pub m_set: bool,
    /// Reset: RESET operation (bit 4)
    pub m_reset: bool,
    /// Auto_SR_en: automatic set/reset (bit 5)
    pub auto_sr_en: bool,
}

/// Contribution of a flag to a register value.
pub open spec fn flag(b: bool, weight: u8) -> int {
    if b {
        weight as int
    } else {
        0
    }
}

fn flag_exec(b: bool, weight: u8) -> (r: u8)
    ensures
        r == flag(b, weight),
{
    if b {
        weight
    } else {
        0
    }
}

impl MeasurementTriggerControl {
    /// Register value.
    pub open spec fn spec_to_u8(self) -> int {
        flag(self.tm_m, 1) + flag(self.tm_t, 2) + flag(self.int_meas_done_en, 4) + flag(
            self.m_set,
            8,
        ) + flag(self.m_reset, 16) + flag(self.auto_sr_en, 32)
    }

    /// Register value.
    pub fn to_u8(&self) -> (r: u8)
        ensures
            r == self.spec_to_u8(),
    {
        flag_exec(self.tm_m, 1) + flag_exec(self.tm_t, 2) + flag_exec(self.int_meas_done_en, 4)
            + flag_exec(self.m_set, 8) + flag_exec(self.m_reset, 16) + flag_exec(self.auto_sr_en, 32)
    }
}

/// Internal control 1: bandwidth, axis inhibit and software reset.
#[derive(Debug, Clone, Copy, PartialEq, Eq, Structural)]
pub struct AnalogControl {
    /// Bandwidth
    pub bw: DecimationBw,
    /// Inhibited axes
    pub inhibit: AxisInhibit,
    /// SW_RST: software reset (bit 7)
    pub sw_rst: bool,
}

impl AnalogControl {
    /// Register value.
    pub open spec fn spec_to_u8(self) -> int {
        self.bw.spec_bits() + self.inhibit.spec_bits() + flag(self.sw_rst, 128)
    }

    /// Register value.
    pub fn to_u8(&self) -> (r: u8)
        ensures
            r == self.spec_to_u8(),
    {
        self.bw.bits() + self.inhibit.bits() + flag_exec(self.sw_rst, 128)
    }
}

/// Internal control 2: continuous mode and periodic SET.
#[derive(Debug, Clone, Copy, PartialEq, Eq, Structural)]
pub struct DigitalControl {
    /// Cm_freq code (bits 2:0)
    pub cm_freq: u8,
    /// Cmm_en: continuous mode enabled (bit 3)
    pub cmm_en: bool,
    /// Prd_set code (bits 6:4)
    pub prd_set: u8,
    /// En_prd_set: periodic SET enabled (bit 7)
    pub en_prd_set: bool,
}

impl DigitalControl {
    /// Register value.
    pub open spec fn spec_to_u8(self) -> int {
        self.cm_freq + flag(self.cmm_en, 8) + self.prd_set * 16 + flag(self.en_prd_set, 128)
    }

    /// Register value.
    pub fn to_u8(&self) -> (r: u8)
        requires
            self.cm_freq <= 7,
            self.prd_set <= 7,
        ensures
            r == self.spec_to_u8(),
    {
        self.cm_freq + flag_exec(self.cmm_en, 8) + self.prd_set * 16 + flag_exec(
            self.en_prd_set,
            128,
        )
    }
}

} // verus!
