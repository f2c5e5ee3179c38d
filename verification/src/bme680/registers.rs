//! BME680 register map, register fields, calibration decoding and the
//! integer register encodings of the gas heater.
use vstd::prelude::*;

use crate::arith::{le16, tdiv};
use crate::bitfield::{get16, get8, set16, set8};

verus! {

/// Chip identifier register.
pub const CHIP_ID: u8 = 0xD0;
/// Soft reset register.
pub const RESET: u8 = 0xE0;
/// Variant identifier register.
pub const VARIANT_ID: u8 = 0xF0;
/// Calibration data, bank 1 (temperature and pressure): start.
pub const CALIB_BANK1_START: u8 = 0x89;
/// Calibration data, bank 1: length.
pub const CALIB_BANK1_LEN: u8 = 23;
/// Calibration data, bank 2 (humidity and gas): start.
pub const CALIB_BANK2_START: u8 = 0xE1;
/// Calibration data, bank 2: length.
pub const CALIB_BANK2_LEN: u8 = 14;
/// Humidity control register.
pub const CTRL_HUM: u8 = 0x72;
/// Temperature/pressure control register.
pub const CTRL_MEAS: u8 = 0x74;
/// Configuration register.
pub const CONFIG: u8 = 0x75;
/// Gas control register 0.
pub const CTRL_GAS_0: u8 = 0x70;
/// Gas control register 1.
pub const CTRL_GAS_1: u8 = 0x71;
/// Heater resistance set-point, profile 0.
pub const RES_HEAT_0: u8 = 0x5A;
/// Heater on-time, profile 0.
pub const GAS_WAIT_0: u8 = 0x64;
/// Measurement status register of field 0.
pub const MEAS_STATUS_0: u8 = 0x1D;
/// First data register of field 0.
pub const FIELD0_START: u8 = 0x1F;
/// Value written to the reset register to trigger a soft reset.
pub const RESET_VALUE: u8 = 0xB6;
/// Expected content of the chip identifier register.
pub const EXPECTED_CHIP_ID: u8 = 0x61;

/// Temperature calibration coefficients.
#[derive(Debug, Clone, Copy, PartialEq, Eq, Structural)]
pub struct TemperatureCalibration {
    /// par_t1
    pub t1: u16,
    /// par_t2
    pub t2: i16,
    /// par_t3
    pub t3: i8,
}

/// Pressure calibration coefficients.
#[derive(Debug, Clone, Copy, PartialEq, Eq, Structural)]
pub struct PressureCalibration {
    /// par_p1
    pub p1: u16,
    /// par_p2
    pub p2: i16,
    /// par_p3
    pub p3: i8,
    /// par_p4
    pub p4: i16,
    /// par_p5
    pub p5: i16,
    /// par_p6
    pub p6: i8,
    /// par_p7
    pub p7: i8,
    /// par_p8
    pub p8: i16,
    /// par_p9
    pub p9: i16,
    /// par_p10
    pub p10: u8,
}

/// Humidity calibration coefficients.
#[derive(Debug, Clone, Copy, PartialEq, Eq, Structural)]
pub struct HumidityCalibration {
    /// par_h1 (12 bits)
    pub h1: u16,
    /// par_h2 (12 bits)
    pub h2: u16,
    /// par_h3
    pub h3: i8,
    /// par_h4
    pub h4: i8,
    /// par_h5
    pub h5: i8,
    /// par_h6
    pub h6: u8,
    /// par_h7
    pub h7: i8,
}

/// Gas heater calibration coefficients.
#[derive(Debug, Clone, Copy, PartialEq, Eq, Structural)]
pub struct GasCalibration {
    /// par_g1
    pub g1: i8,
    /// par_g2
    pub g2: i16,
    /// par_g3
    pub g3: i8,
    /// Heater resistance range correction (bits 5:4 of register 0x02).
    pub res_heat_range: u8,
    /// Heater resistance value correction (register 0x00, signed).
    pub res_heat_val: i8,
    /// Range switching error (upper nibble of register 0x04, sign-extended and divided by 16).
    pub range_sw_err: i8,
}

/// All calibration coefficients of the sensor.
#[derive(Debug, Clone, Copy, PartialEq, Eq, Structural)]
pub struct Calibration {
    /// Temperature coefficients
    pub temp: TemperatureCalibration,
    /// Pressure coefficients
    pub press: PressureCalibration,
    /// Humidity coefficients
    pub hum: HumidityCalibration,
    /// Gas heater coefficients
    pub gas: GasCalibration,
}

/// A byte read as a two's-complement signed value.
pub open spec fn signed8(b: u8) -> int {
    if b >= 128 {
        b - 256
    } else {
        b as int
    }
}

/// A little-endian word read as a two's-complement signed value.
pub open spec fn signed16(lo: u8, hi: u8) -> int {
    if le16(lo, hi) >= 32768 {
        le16(lo, hi) - 65536
    } else {
        le16(lo, hi)
    }
}

fn i8_from_byte(b: u8) -> (r: i8)
    ensures
        r == signed8(b),
{
    if b >= 128 {
        ((b as i16) - 256) as i8
    } else {
        b as i8
    }
}

fn i16_from_le(lo: u8, hi: u8) -> (r: i16)
    ensures
        r == signed16(lo, hi),
{
    let v: u16 = (lo as u16) + (hi as u16) * 256;
    if v >= 32768 {
        ((v as i32) - 65536) as i16
    } else {
        v as i16
    }
}

fn u16_from_le(lo: u8, hi: u8) -> (r: u16)
    ensures
        r == le16(lo, hi),
{
    (lo as u16) + (hi as u16) * 256
}

impl Default for TemperatureCalibration {
    fn default() -> (r: Self)
        ensures
            r == (TemperatureCalibration { t1: 0, t2: 0, t3: 0 }),
    {
        TemperatureCalibration { t1: 0, t2: 0, t3: 0 }
    }
}

impl TemperatureCalibration {
    /// Decode the coefficients from registers 0xE9..0xEA (t1), 0x8A..0x8B (t2)
    /// and 0x8C (t3), each little-endian.
    pub fn from_registers(t1: [u8; 2], t2: [u8; 2], t3: u8) -> (r: Self)
        ensures
            r.t1 == le16(t1[0], t1[1]),
            r.t2 == signed16(t2[0], t2[1]),
            r.t3 == signed8(t3),
    {
        TemperatureCalibration {
            t1: u16_from_le(t1[0], t1[1]),
            t2: i16_from_le(t2[0], t2[1]),
            t3: i8_from_byte(t3),
        }
    }
}

impl Default for PressureCalibration {
    fn default() -> (r: Self)
        ensures
            r == (PressureCalibration {
                p1: 0,
                p2: 0,
                p3: 0,
                p4: 0,
                p5: 0,
                p6: 0,
                p7: 0,
                p8: 0,
                p9: 0,
                p10: 0,
            }),
    {
        PressureCalibration {
            p1: 0,
            p2: 0,
            p3: 0,
            p4: 0,
            p5: 0,
            p6: 0,
            p7: 0,
            p8: 0,
            p9: 0,
            p10: 0,
        }
    }
}

impl PressureCalibration {
    /// Decode the coefficients from the little-endian register contents at
    /// 0x8E (p1), 0x90 (p2), 0x92 (p3), 0x94 (p4), 0x96 (p5), 0x99 (p6),
    /// 0x98 (p7), 0x9C (p8), 0x9E (p9) and 0xA0 (p10).
    pub fn from_registers(
        p1: [u8; 2],
        p2: [u8; 2],
        p3: u8,
        p4: [u8; 2],
        p5: [u8; 2],
        p6: u8,
        p7: u8,
        p8: [u8; 2],
        p9: [u8; 2],
        p10: u8,
    ) -> (r: Self)
        ensures
            r.p1 == le16(p1[0], p1[1]),
            r.p2 == signed16(p2[0], p2[1]),
            r.p3 == signed8(p3),
            r.p4 == signed16(p4[0], p4[1]),
            r.p5 == signed16(p5[0], p5[1]),
            r.p6 == signed8(p6),
            r.p7 == signed8(p7),
            r.p8 == signed16(p8[0], p8[1]),
            r.p9 == signed16(p9[0], p9[1]),
            r.p10 == p10,
    {
        PressureCalibration {
            p1: u16_from_le(p1[0], p1[1]),
            p2: i16_from_le(p2[0], p2[1]),
            p3: i8_from_byte(p3),
            p4: i16_from_le(p4[0], p4[1]),
            p5: i16_from_le(p5[0], p5[1]),
            p6: i8_from_byte(p6),
            p7: i8_from_byte(p7),
            p8: i16_from_le(p8[0], p8[1]),
            p9: i16_from_le(p9[0], p9[1]),
            p10,
        }
    }
}

impl Default for HumidityCalibration {
    fn default() -> (r: Self)
        ensures
            r == (HumidityCalibration { h1: 0, h2: 0, h3: 0, h4: 0, h5: 0, h6: 0, h7: 0 }),
    {
        HumidityCalibration { h1: 0, h2: 0, h3: 0, h4: 0, h5: 0, h6: 0, h7: 0 }
    }
}

impl HumidityCalibration {
    /// Decode the coefficients from the eight registers starting at 0xE1.
    /// H1 and H2 are 12-bit values that share the nibbles of register 0xE2.
    pub fn from_registers(buf: [u8; 8]) -> (r: Self)
        ensures
            r.h1 == buf[2] * 16 + buf[1] % 16,
            r.h2 == buf[0] * 16 + buf[1] / 16,
            r.h3 == signed8(buf[3]),
            r.h4 == signed8(buf[4]),
            r.h5 == signed8(buf[5]),
            r.h6 == buf[6],
            r.h7 == signed8(buf[7]),
    {
        let b1: u8 = buf[1];
        assert(b1 & 0x0f == b1 % 16) by (bit_vector);
        assert(b1 >> 4u8 == b1 / 16) by (bit_vector);
        let h1: u16 = (buf[2] as u16) * 16 + ((b1 & 0x0F) as u16);
        let h2: u16 = (buf[0] as u16) * 16 + ((b1 >> 4u8) as u16);
        HumidityCalibration {
            h1,
            h2,
            h3: i8_from_byte(buf[3]),
            h4: i8_from_byte(buf[4]),
            h5: i8_from_byte(buf[5]),
            h6: buf[6],
            h7: i8_from_byte(buf[7]),
        }
    }
}

impl Default for GasCalibration {
    fn default() -> (r: Self)
        ensures
            r == (GasCalibration {
                g1: 0,
                g2: 0,
                g3: 0,
                res_heat_range: 0,
                res_heat_val: 0,
                range_sw_err: 0,
            }),
    {
        GasCalibration { g1: 0, g2: 0, g3: 0, res_heat_range: 0, res_heat_val: 0, range_sw_err: 0 }
    }
}

impl GasCalibration {
    /// Decode the coefficients from registers 0xED (g1), 0xEB..0xEC (g2,
    /// little-endian), 0xEE (g3) and the five registers 0x00..0x04.
    pub fn from_registers(g1: u8, g2: [u8; 2], g3: u8, coeff3: [u8; 5]) -> (r: Self)
        ensures
            r.g1 == signed8(g1),
            r.g2 == signed16(g2[0], g2[1]),
            r.g3 == signed8(g3),
            r.res_heat_val == signed8(coeff3[0]),
            r.res_heat_range == (coeff3[2] / 16) % 4,
            r.range_sw_err == tdiv(signed8(((coeff3[4] / 16) * 16) as u8), 16),
    {
        let c2: u8 = coeff3[2];
        let c4: u8 = coeff3[4];
        assert((c2 & 0x30) >> 4u8 == (c2 / 16) % 4) by (bit_vector);
        assert(c4 & 0xF0 == (c4 / 16) * 16) by (bit_vector);
        let range: u8 = (c2 & 0x30) >> 4u8;
        let upper: i8 = i8_from_byte(c4 & 0xF0);
        GasCalibration {
            g1: i8_from_byte(g1),
            g2: i16_from_le(g2[0], g2[1]),
            g3: i8_from_byte(g3),
            res_heat_range: range,
            res_heat_val: i8_from_byte(coeff3[0]),
            range_sw_err: upper / 16,
        }
    }
}

impl Default for Calibration {
    fn default() -> (r: Self)
        ensures
            r.temp == (TemperatureCalibration { t1: 0, t2: 0, t3: 0 }),
            r.hum == (HumidityCalibration { h1: 0, h2: 0, h3: 0, h4: 0, h5: 0, h6: 0, h7: 0 }),
            r.gas == (GasCalibration {
                g1: 0,
                g2: 0,
                g3: 0,
                res_heat_range: 0,
                res_heat_val: 0,
                range_sw_err: 0,
            }),
            r.press.p1 == 0 && r.press.p2 == 0 && r.press.p3 == 0 && r.press.p4 == 0 && r.press.p5
                == 0 && r.press.p6 == 0 && r.press.p7 == 0 && r.press.p8 == 0 && r.press.p9 == 0
                && r.press.p10 == 0,
    {
        Calibration {
            temp: TemperatureCalibration::default(),
            press: PressureCalibration::default(),
            hum: HumidityCalibration::default(),
            gas: GasCalibration::default(),
        }
    }
}

/// Soft reset of the sensor.
pub struct Reset {}

impl Reset {
    /// Register and value written to trigger a soft reset.
    pub fn reset() -> (r: (u8, u8))
        ensures
            r == (RESET, RESET_VALUE),
    {
        (RESET, RESET_VALUE)
    }
}

/// Chip identification.
pub struct ChipId {}

impl ChipId {
    /// Check the content of the chip identifier register.
    pub fn read<E>(id: u8) -> (r: Result<(), crate::bme680::Error<E>>)
        ensures
            id == EXPECTED_CHIP_ID <==> r is Ok,
            r is Err ==> r == Err::<(), crate::bme680::Error<E>>(crate::bme680::Error::InvalidChipId),
    {
        if id != EXPECTED_CHIP_ID {
            return Err(crate::bme680::Error::InvalidChipId);
        }
        Ok(())
    }
}

/// Oversampling settings for temperature, pressure, and humidity measurements.
#[derive(Debug, Clone, Copy, PartialEq, Eq, Structural)]
pub enum Oversampling {
    /// No measurement (output is zero); also stands for unknown field values.
    Disabled,
    /// Oversampling x1
    X1,
    /// Oversampling x2
    X2,
    /// Oversampling x4
    X4,
    /// Oversampling x8
    X8,
    /// Oversampling x16
    X16,
}

impl Oversampling {
    /// Field value of the setting.
    pub open spec fn spec_into_bits(self) -> u8 {
        match self {
            Oversampling::Disabled => 0,
            Oversampling::X1 => 1,
            Oversampling::X2 => 2,
            Oversampling::X4 => 3,
            Oversampling::X8 => 4,
            Oversampling::X16 => 5,
        }
    }

    /// Setting of a field value; values 6 and 7 fall back to `Disabled`.
    pub open spec fn spec_from_bits(bits: u8) -> Oversampling {
        if bits == 1 {
            Oversampling::X1
        } else if bits == 2 {
            Oversampling::X2
        } else if bits == 3 {
            Oversampling::X4
        } else if bits == 4 {
            Oversampling::X8
        } else if bits == 5 {
            Oversampling::X16
        } else {
            Oversampling::Disabled
        }
    }

    /// Number of samples taken.
    pub open spec fn spec_samples(self) -> u32 {
        match self {
            Oversampling::Disabled => 0,
            Oversampling::X1 => 1,
            Oversampling::X2 => 2,
            Oversampling::X4 => 4,
            Oversampling::X8 => 8,
            Oversampling::X16 => 16,
        }
    }

    /// Field value of the setting.
    pub fn into_bits(self) -> (r: u8)
        ensures
            r == self.spec_into_bits(),
            r <= 5,
    {
        match self {
            Oversampling::Disabled => 0,
            Oversampling::X1 => 1,
            Oversampling::X2 => 2,
            Oversampling::X4 => 3,
            Oversampling::X8 => 4,
            Oversampling::X16 => 5,
        }
    }

    /// Setting of a field value; unknown values fall back to `Disabled`.
    pub fn from_bits(bits: u8) -> (r: Oversampling)
        ensures
            r == Oversampling::spec_from_bits(bits),
    {
        if bits == 1 {
            Oversampling::X1
        } else if bits == 2 {
            Oversampling::X2
        } else if bits == 3 {
            Oversampling::X4
        } else if bits == 4 {
            Oversampling::X8
        } else if bits == 5 {
            Oversampling::X16
        } else {
            Oversampling::Disabled
        }
    }

    /// Returns the number of samples taken (0 when disabled).
    pub fn samples(self) -> (r: u32)
        ensures
            r == self.spec_samples(),
    {
        match self {
            Oversampling::Disabled => 0,
            Oversampling::X1 => 1,
            Oversampling::X2 => 2,
            Oversampling::X4 => 4,
            Oversampling::X8 => 8,
            Oversampling::X16 => 16,
        }
    }
}

/// Decoding the field value of a setting gives the setting back.
pub proof fn lemma_oversampling_roundtrip(o: Oversampling)
    ensures
        Oversampling::spec_from_bits(o.spec_into_bits()) == o,
{
}

/// Measurement modes of the BME680.
#[derive(Debug, Clone, Copy, PartialEq, Eq, Structural)]
pub enum MeasurementMode {
    /// Sleep mode: no measurement; also stands for unknown field values.
    Sleep,
    /// Forced mode: one measurement, then back to sleep.
    Forced,
}

impl MeasurementMode {
    /// Field value of the mode.
    pub open spec fn spec_into_bits(self) -> u8 {
        match self {
            MeasurementMode::Sleep => 0,
            MeasurementMode::Forced => 1,
        }
    }

    /// Mode of a field value; values other than 1 fall back to `Sleep`.
    pub open spec fn spec_from_bits(bits: u8) -> MeasurementMode {
        if bits == 1 {
            MeasurementMode::Forced
        } else {
            MeasurementMode::Sleep
        }
    }

    /// Field value of the mode.
    pub fn into_bits(self) -> (r: u8)
        ensures
            r == self.spec_into_bits(),
            r <= 1,
    {
        match self {
            MeasurementMode::Sleep => 0,
            MeasurementMode::Forced => 1,
        }
    }

    /// Mode of a field value.
    pub fn from_bits(bits: u8) -> (r: MeasurementMode)
        ensures
            r == MeasurementMode::spec_from_bits(bits),
    {
        if bits == 1 {
            MeasurementMode::Forced
        } else {
            MeasurementMode::Sleep
        }
    }
}

/// Temperature/pressure control register: mode (bits 1:0), pressure
/// oversampling (bits 4:2), temperature oversampling (bits 7:5).
#[derive(Debug, Clone, Copy, PartialEq, Eq, Structural)]
pub struct CtrlTempPres {
    /// Raw register value
    pub bits: u8,
}

impl CtrlTempPres {
    /// All fields zero.
    pub fn new() -> (r: Self)
        ensures
            r.bits == 0,
    {
        CtrlTempPres { bits: 0 }
    }

    /// Register value as read from the device.
    pub fn from_bits(bits: u8) -> (r: Self)
        ensures
            r.bits == bits,
    {
        CtrlTempPres { bits }
    }

    /// Register value to write to the device.
    pub fn into_bits(self) -> (r: u8)
        ensures
            r == self.bits,
    {
        self.bits
    }

    /// Measurement mode field.
    pub fn mode(&self) -> (r: MeasurementMode)
        ensures
            r == MeasurementMode::spec_from_bits(get8(self.bits, 0, 3)),
    {
        MeasurementMode::from_bits((self.bits >> 0u8) & 3)
    }

    /// Pressure oversampling field.
    pub fn pressure(&self) -> (r: Oversampling)
        ensures
            r == Oversampling::spec_from_bits(get8(self.bits, 2, 7)),
    {
        Oversampling::from_bits((self.bits >> 2u8) & 7)
    }

    /// Temperature oversampling field.
    pub fn temperature(&self) -> (r: Oversampling)
        ensures
            r == Oversampling::spec_from_bits(get8(self.bits, 5, 7)),
    {
        Oversampling::from_bits((self.bits >> 5u8) & 7)
    }

    /// Replace the mode field.
    pub fn with_mode(self, m: MeasurementMode) -> (r: Self)
        ensures
            r.bits == set8(self.bits, 0, 3, m.spec_into_bits()),
    {
        let v: u8 = m.into_bits();
        CtrlTempPres { bits: (self.bits & !(3u8 << 0u8)) | ((v & 3) << 0u8) }
    }

    /// Replace the pressure oversampling field.
    pub fn with_pressure(self, o: Oversampling) -> (r: Self)
        ensures
            r.bits == set8(self.bits, 2, 7, o.spec_into_bits()),
    {
        let v: u8 = o.into_bits();
        CtrlTempPres { bits: (self.bits & !(7u8 << 2u8)) | ((v & 7) << 2u8) }
    }

    /// Replace the temperature oversampling field.
    pub fn with_temperature(self, o: Oversampling) -> (r: Self)
        ensures
            r.bits == set8(self.bits, 5, 7, o.spec_into_bits()),
    {
        let v: u8 = o.into_bits();
        CtrlTempPres { bits: (self.bits & !(7u8 << 5u8)) | ((v & 7) << 5u8) }
    }
}

/// Humidity control register: humidity oversampling (bits 2:0).
#[derive(Debug, Clone, Copy, PartialEq, Eq, Structural)]
pub struct CtrlHumGas {
    /// Raw register value
    pub bits: u8,
}

impl CtrlHumGas {
    /// All fields zero.
    pub fn new() -> (r: Self)
        ensures
            r.bits == 0,
    {
        CtrlHumGas { bits: 0 }
    }

    /// Register value to write to the device.
    pub fn into_bits(self) -> (r: u8)
        ensures
            r == self.bits,
    {
        self.bits
    }

    /// Humidity oversampling field.
    pub fn humidity(&self) -> (r: Oversampling)
        ensures
            r == Oversampling::spec_from_bits(get8(self.bits, 0, 7)),
    {
        Oversampling::from_bits((self.bits >> 0u8) & 7)
    }

    /// Replace the humidity oversampling field.
    pub fn with_humidity(self, o: Oversampling) -> (r: Self)
        ensures
            r.bits == set8(self.bits, 0, 7, o.spec_into_bits()),
    {
        let v: u8 = o.into_bits();
        CtrlHumGas { bits: (self.bits & !(7u8 << 0u8)) | ((v & 7) << 0u8) }
    }
}

/// Gas control register 1: heater profile index (bits 3:0), run_gas (bit 4).
#[derive(Debug, Clone, Copy, PartialEq, Eq, Structural)]
pub struct CtrlGas1 {
    /// Raw register value
    pub bits: u8,
}

impl CtrlGas1 {
    /// All fields zero.
    pub fn new() -> (r: Self)
        ensures
            r.bits == 0,
    {
        CtrlGas1 { bits: 0 }
    }

    /// Register value to write to the device.
    pub fn into_bits(self) -> (r: u8)
        ensures
            r == self.bits,
    {
        self.bits
    }

    /// Heater profile index.
    pub fn index(&self) -> (r: u8)
        ensures
            r == get8(self.bits, 0, 15),
    {
        (self.bits >> 0u8) & 15
    }

    /// Whether gas conversions run.
    pub fn run_gas(&self) -> (r: bool)
        ensures
            r == (get8(self.bits, 4, 1) == 1),
    {
        (self.bits >> 4u8) & 1 == 1
    }

    /// Replace the heater profile index; it must fit in four bits.
    pub fn with_index(self, index: u8) -> (r: Self)
        requires
            index <= 15,
        ensures
            r.bits == set8(self.bits, 0, 15, index),
    {
        CtrlGas1 { bits: (self.bits & !(15u8 << 0u8)) | ((index & 15) << 0u8) }
    }

    /// Replace the run_gas flag.
    pub fn with_run_gas(self, run: bool) -> (r: Self)
        ensures
            r.bits == set8(self.bits, 4, 1, if run { 1 } else { 0 }),
    {
        let v: u8 = if run { 1 } else { 0 };
        CtrlGas1 { bits: (self.bits & !(1u8 << 4u8)) | ((v & 1) << 4u8) }
    }
}

/// Gas control register 0: heat_off (bit 3).
#[derive(Debug, Clone, Copy, PartialEq, Eq, Structural)]
pub struct CtrlGas0 {
    /// Raw register value
    pub bits: u8,
}

impl CtrlGas0 {
    /// All fields zero.
    pub fn new() -> (r: Self)
        ensures
            r.bits == 0,
    {
        CtrlGas0 { bits: 0 }
    }

    /// Register value to write to the device.
    pub fn into_bits(self) -> (r: u8)
        ensures
            r == self.bits,
    {
        self.bits
    }

    /// Whether the heater is switched off.
    pub fn heat_off(&self) -> (r: bool)
        ensures
            r == (get8(self.bits, 3, 1) == 1),
    {
        (self.bits >> 3u8) & 1 == 1
    }

    /// Replace the heat_off flag.
    pub fn with_heat_off(self, off: bool) -> (r: Self)
        ensures
            r.bits == set8(self.bits, 3, 1, if off { 1 } else { 0 }),
    {
        let v: u8 = if off { 1 } else { 0 };
        CtrlGas0 { bits: (self.bits & !(1u8 << 3u8)) | ((v & 1) << 3u8) }
    }
}

/// Gas ADC word: range (bits 3:0), heater stable (bit 4), reading valid
/// (bit 5), ADC value (bits 15:6).
#[derive(Debug, Clone, Copy, PartialEq, Eq, Structural)]
pub struct GasValue {
    /// Raw register value
    pub bits: u16,
}

impl GasValue {
    /// Register value as read from the device.
    pub fn from_bits(bits: u16) -> (r: Self)
        ensures
            r.bits == bits,
    {
        GasValue { bits }
    }

    /// Gas range.
    pub fn range(&self) -> (r: u8)
        ensures
            r == get16(self.bits, 0, 15),
    {
        let b: u16 = self.bits;
        let v: u16 = (b >> 0u16) & 15;
        assert(v <= 15) by (bit_vector)
            requires
                v == (b >> 0u16) & 15,
        ;
        v as u8
    }

    /// Whether the heater temperature was stable.
    pub fn stable(&self) -> (r: bool)
        ensures
            r == (get16(self.bits, 4, 1) == 1),
    {
        (self.bits >> 4u16) & 1 == 1
    }

    /// Whether the gas reading is valid.
    pub fn valid(&self) -> (r: bool)
        ensures
            r == (get16(self.bits, 5, 1) == 1),
    {
        (self.bits >> 5u16) & 1 == 1
    }

    /// 10-bit gas ADC value.
    pub fn value(&self) -> (r: u16)
        ensures
            r == get16(self.bits, 6, 0x3ff),
    {
        (self.bits >> 6u16) & 0x3ff
    }

    /// Replace the 10-bit gas ADC value; it must fit in ten bits.
    pub fn with_value(self, v: u16) -> (r: Self)
        requires
            v <= 0x3ff,
        ensures
            r.bits == set16(self.bits, 6, 0x3ff, v),
    {
        GasValue { bits: (self.bits & !(0x3ffu16 << 6u16)) | ((v & 0x3ff) << 6u16) }
    }
}

/// Measurement status: profile index (bits 3:0), measuring (bit 5),
/// gas measuring (bit 6), new data (bit 7).
#[derive(Debug, Clone, Copy, PartialEq, Eq, Structural)]
pub struct Status {
    /// Raw register value
    pub bits: u8,
}

impl Status {
    /// Register value as read from the device.
    pub fn from_bits(bits: u8) -> (r: Self)
        ensures
            r.bits == bits,
    {
        Status { bits }
    }

    /// Index of the heater profile used.
    pub fn index(&self) -> (r: u8)
        ensures
            r == get8(self.bits, 0, 15),
    {
        (self.bits >> 0u8) & 15
    }

    /// A conversion is running.
    pub fn measuring(&self) -> (r: bool)
        ensures
            r == (get8(self.bits, 5, 1) == 1),
    {
        (self.bits >> 5u8) & 1 == 1
    }

    /// A gas conversion is running.
    pub fn gas_measuring(&self) -> (r: bool)
        ensures
            r == (get8(self.bits, 6, 1) == 1),
    {
        (self.bits >> 6u8) & 1 == 1
    }

    /// New data is available.
    pub fn new_data(&self) -> (r: bool)
        ensures
            r == (get8(self.bits, 7, 1) == 1),
    {
        (self.bits >> 7u8) & 1 == 1
    }
}

/// GAS_WAIT encoding of a heater on-time: a 6-bit mantissa and a 2-bit
/// multiplier exponent (x1, x4, x16, x64); 0xFF when the time does not fit.
pub open spec fn spec_gas_wait(dur_ms: u16) -> u8 {
    if dur_ms >= 0xfc0 {
        0xff
    } else {
        gas_wait_from(dur_ms as nat, 0)
    }
}

/// Divide by four until the mantissa fits in six bits, counting the steps.
pub open spec fn gas_wait_from(dur: nat, factor: nat) -> u8
    decreases dur,
{
    if dur > 0x3f {
        gas_wait_from(dur / 4, factor + 1)
    } else {
        (dur + factor * 64) as u8
    }
}

/// Encode a heater on-time in milliseconds into the GAS_WAIT register format.
pub fn calc_gas_wait(dur_ms: u16) -> (r: u8)
    ensures
        r == spec_gas_wait(dur_ms),
{
    if dur_ms >= 0xfc0 {
        return 0xff;
    }
    let mut dur = dur_ms;
    let mut factor: u8 = 0;
    while dur > 0x3f
        invariant
            dur < 0xfc0,
            factor <= 3,
            factor >= 1 ==> dur <= 1007,
            factor >= 2 ==> dur <= 251,
            factor == 3 ==> dur <= 62,
            gas_wait_from(dur as nat, factor as nat) == gas_wait_from(dur_ms as nat, 0),
        decreases dur,
    {
        dur = dur / 4;
        factor = factor + 1;
    }
    dur as u8 + factor * 64
}

/// The encoded on-time decodes (mantissa times 4^exponent) to at most the
/// requested time and to more than the requested time minus one step, for
/// every time that fits.
pub proof fn lemma_gas_wait_bounds(dur_ms: u16)
    requires
        dur_ms < 0xfc0,
    ensures
        ({
            let w = spec_gas_wait(dur_ms);
            let m = (w % 64) as nat;
            let e = (w / 64) as nat;
            &&& e <= 3
            &&& m <= 0x3f
            &&& m * pow4(e) <= dur_ms
            &&& dur_ms < (m + 1) * pow4(e)
        }),
{
    assert(pow4(0) == 1);
    lemma_gas_wait_from(dur_ms as nat, 0, dur_ms as nat);
}

/// Four to the power `e`.
pub open spec fn pow4(e: nat) -> nat
    decreases e,
{
    if e == 0 {
        1
    } else {
        4 * pow4((e - 1) as nat)
    }
}

proof fn lemma_gas_wait_from(dur: nat, factor: nat, orig: nat)
    requires
        orig < 0xfc0,
        factor <= 3,
        dur * pow4(factor) <= orig < (dur + 1) * pow4(factor),
        factor == 3 ==> dur <= 0x3f,
    ensures
        ({
            let w = gas_wait_from(dur, factor);
            let m = (w % 64) as nat;
            let e = (w / 64) as nat;
            &&& e <= 3
            &&& m <= 0x3f
            &&& m * pow4(e) <= orig
            &&& orig < (m + 1) * pow4(e)
        }),
    decreases dur,
{
    reveal_with_fuel(pow4, 4);
    if dur > 0x3f {
        let q = dur / 4;
        assert(q * pow4(factor + 1) <= orig < (q + 1) * pow4(factor + 1)) by (nonlinear_arith)
            requires
                q == dur / 4,
                dur * pow4(factor) <= orig < (dur + 1) * pow4(factor),
                pow4(factor + 1) == 4 * pow4(factor),
                pow4(factor) >= 1,
        ;
        if factor + 1 == 3 {
            assert(q <= 0x3f) by (nonlinear_arith)
                requires
                    q * pow4(3) <= orig,
                    orig < 0xfc0,
                    pow4(3) == 64,
            ;
        }
        lemma_gas_wait_from(q, factor + 1, orig);
    } else {
        let w = (dur + factor * 64) as u8;
        assert(w % 64 == dur && w / 64 == factor);
    }
}

/// Oversampling ratio named by an oversampling field code: none for code 0,
/// one sample for code 1, and twice as many for each code above.
pub open spec fn ratio_of_code(code: u8) -> int
    decreases code,
{
    if code == 0 {
        0
    } else if code == 1 {
        1
    } else {
        2 * ratio_of_code((code - 1) as u8)
    }
}

/// The samples of every setting are the ratio its register field code
/// names (x1, x2, x4, x8, x16; none when disabled), and each step of the
/// field doubles them.
pub proof fn lemma_samples_follow_field(o: Oversampling, code: u8)
    ensures
        o.spec_samples() == ratio_of_code(o.spec_into_bits()),
        1 <= code < 5 ==> Oversampling::spec_from_bits((code + 1) as u8).spec_samples() == 2
            * Oversampling::spec_from_bits(code).spec_samples(),
        o != Oversampling::Disabled ==> o.spec_samples() >= 1,
{
    reveal_with_fuel(ratio_of_code, 6);
}

} // verus!
