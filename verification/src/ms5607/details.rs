//! MS5607 factory calibration: PROM CRC-4 check, coefficient decoding and
//! first/second order compensation.
use vstd::prelude::*;

use crate::arith::{be16, tdiv};

verus! {

/// Factory calibration of the device.
#[derive(Debug, Clone, Copy, PartialEq, Eq, Structural)]
pub struct Calibration {
    /// Pressure sensitivity at reference temperature (C1)
    pub sens_tref: u16,
    /// Pressure offset at reference temperature (C2)
    pub ofst_tref: u16,
    /// Temperature coefficient of pressure sensitivity (C3)
    pub tcs_p: u16,
    /// Temperature coefficient of pressure offset (C4)
    pub tco_p: u16,
    /// Reference temperature (C5)
    pub tref: u16,
    /// Temperature coefficient of the temperature (C6)
    pub tcs_t: u16,
}

/// Measured pressure and temperature values.
#[derive(Debug, Clone, Copy, PartialEq, Eq, Structural)]
pub struct MeasurementRaw {
    /// Compensated temperature in hundredths of a degree Celsius
    pub temperature: i32,
    /// Compensated pressure in hundredths of a millibar
    pub pressure: i32,
}

/// One step of the CRC-4 shift register of the PROM check.
pub open spec fn crc4_step(c: u32) -> u32 {
    if c & 0x8000 != 0 {
        (c << 1u32) ^ 0x3000
    } else {
        c << 1u32
    }
}

/// `n` steps of the CRC-4 shift register.
pub open spec fn crc4_shift(c: u32, n: nat) -> u32
    decreases n,
{
    if n == 0 {
        c
    } else {
        crc4_shift(crc4_step(c), (n - 1) as nat)
    }
}

/// Shift register state after feeding `bytes`, each byte XORed in and then
/// shifted eight times.
pub open spec fn crc4_acc(bytes: Seq<u8>) -> u32
    decreases bytes.len(),
{
    if bytes.len() == 0 {
        0
    } else {
        crc4_shift(crc4_acc(bytes.drop_last()) ^ (bytes.last() as u32), 8)
    }
}

/// CRC-4 of the PROM as the data sheet defines it: the whole last byte is
/// zeroed before the 16 bytes are fed through, and bits 15..12 of the
/// register are the checksum.
pub open spec fn prom_crc4(prom: Seq<u8>) -> u8 {
    ((crc4_acc(prom.update(15, 0u8)) >> 12u32) & 0xf) as u8
}

/// The stored checksum (low nibble of the last byte) matches the computed one.
pub open spec fn prom_crc_ok(prom: Seq<u8>) -> bool {
    prom_crc4(prom) == prom[15] & 0xf
}

/// Coefficients C1..C6 as big-endian words at byte offsets 2..13.
pub open spec fn spec_calibration(prom: Seq<u8>) -> Calibration {
    Calibration {
        sens_tref: be16(prom[2], prom[3]) as u16,
        ofst_tref: be16(prom[4], prom[5]) as u16,
        tcs_p: be16(prom[6], prom[7]) as u16,
        tco_p: be16(prom[8], prom[9]) as u16,
        tref: be16(prom[10], prom[11]) as u16,
        tcs_t: be16(prom[12], prom[13]) as u16,
    }
}

/// 24-bit ADC result transferred as three big-endian bytes.
pub open spec fn adc24(b: Seq<u8>) -> u32 {
    (b[0] * 65536 + b[1] * 256 + b[2]) as u32
}

/// Assemble the 24-bit ADC result from its three big-endian bytes.
pub fn adc_value(b: [u8; 3]) -> (r: u32)
    ensures
        r == adc24(b@),
        r < 0x100_0000,
{
    (b[0] as u32) * 65536 + (b[1] as u32) * 256 + (b[2] as u32)
}

/// Difference between the actual and the reference temperature (dT).
pub open spec fn spec_dt(c: Calibration, temp: u32) -> int {
    temp - c.tref * 256
}

/// First order temperature (TEMP) in hundredths of a degree.
pub open spec fn spec_temp1(c: Calibration, temp: u32) -> int {
    2000 + tdiv(spec_dt(c, temp) * c.tcs_t, 8388608)
}

/// Offset at actual temperature (OFF).
pub open spec fn spec_off1(c: Calibration, temp: u32) -> int {
    c.ofst_tref * 131072 + tdiv(c.tco_p * spec_dt(c, temp), 64)
}

/// Sensitivity at actual temperature (SENS).
pub open spec fn spec_sens1(c: Calibration, temp: u32) -> int {
    c.sens_tref * 65536 + tdiv(c.tcs_p * spec_dt(c, temp), 128)
}

/// Second order offset correction (OFF2), non-zero below 20 degrees.
pub open spec fn spec_off2(t: int) -> int {
    let t2000 = t - 2000;
    tdiv(61 * t2000 * t2000, 16) + if t < -1500 {
        15 * (t + 1500) * (t + 1500)
    } else {
        0
    }
}

/// Second order sensitivity correction (SENS2), non-zero below 20 degrees.
pub open spec fn spec_sens2(t: int) -> int {
    let t2000 = t - 2000;
    2 * t2000 * t2000 + if t < -1500 {
        8 * (t + 1500) * (t + 1500)
    } else {
        0
    }
}

/// Second order temperature correction (T2).
pub open spec fn spec_t2(c: Calibration, temp: u32) -> int {
    tdiv(spec_dt(c, temp) * spec_dt(c, temp), 2147483648)
}

/// Temperature compensated pressure (P) for given SENS and OFF.
pub open spec fn spec_pressure(pres: u32, sens: int, off: int) -> int {
    tdiv(tdiv(pres * sens, 2097152) - off, 32768)
}

/// Compensated temperature in hundredths of a degree, following the data
/// sheet: the first order value, and below 20 degrees minus T2.
pub open spec fn spec_temperature(c: Calibration, temp: u32) -> int {
    let t = spec_temp1(c, temp);
    if t >= 2000 {
        t
    } else {
        t - spec_t2(c, temp)
    }
}

/// Compensated pressure in hundredths of a millibar, following the data
/// sheet: first order SENS and OFF, and below 20 degrees minus SENS2 and
/// OFF2.
pub open spec fn spec_pressure_value(c: Calibration, pres: u32, temp: u32) -> int {
    let t = spec_temp1(c, temp);
    if t >= 2000 {
        spec_pressure(pres, spec_sens1(c, temp), spec_off1(c, temp))
    } else {
        spec_pressure(
            pres,
            spec_sens1(c, temp) - spec_sens2(t),
            spec_off1(c, temp) - spec_off2(t),
        )
    }
}

/// Compensated measurement of two 24-bit readings.
pub open spec fn spec_compensate(c: Calibration, pres: u32, temp: u32) -> MeasurementRaw {
    MeasurementRaw {
        temperature: spec_temperature(c, temp) as i32,
        pressure: spec_pressure_value(c, pres, temp) as i32,
    }
}

/// The CRC-4 shift register of AN520: each step shifts left by one bit and,
/// exactly when bit 15 (the top bit of the 16-bit register) was set, XORs in
/// the polynomial 0x3000; every other bit comes from the shift alone.
pub proof fn lemma_crc4_step_polynomial(c: u32)
    ensures
        crc4_step(c) ^ (c << 1u32) == (if (c >> 15u32) & 1 == 1 {
            0x3000u32
        } else {
            0u32
        }),
        (c >> 15u32) & 1 == 0 ==> crc4_step(c) == c << 1u32,
        (c >> 15u32) & 1 == 1 ==> crc4_step(c) == (c << 1u32) ^ 0x3000u32,
{
    assert(crc4_step(c) ^ (c << 1u32) == (if (c >> 15u32) & 1 == 1 {
        0x3000u32
    } else {
        0u32
    })) by (bit_vector);
    assert((c >> 15u32) & 1 == 0 ==> crc4_step(c) == c << 1u32) by (bit_vector);
    assert((c >> 15u32) & 1 == 1 ==> crc4_step(c) == (c << 1u32) ^ 0x3000u32) by (bit_vector);
}

/// The checksum covers bytes 0 to 14 only: changing byte 15 (where the
/// checksum itself is stored) leaves it as it was.
pub proof fn lemma_prom_crc_ignores_last_byte(prom: Seq<u8>, b: u8)
    requires
        prom.len() == 16,
    ensures
        prom_crc4(prom.update(15, b)) == prom_crc4(prom),
{
    assert(prom.update(15, b).update(15, 0u8) =~= prom.update(15, 0u8));
}

/// One step of the CRC-4 shift register.
fn crc4_step_exec(c: u32) -> (r: u32)
    ensures
        r == crc4_step(c),
{
    if c & 0x8000 != 0 {
        (c << 1u32) ^ 0x3000
    } else {
        c << 1u32
    }
}

/// CRC-4 of the PROM contents (the last byte counts as zero).
pub fn prom_crc(prom: [u8; 16]) -> (r: u8)
    ensures
        r == prom_crc4(prom@),
{
    let mut value = prom;
    value[15] = 0;
    let ghost zeroed = prom@.update(15, 0u8);
    assert(value@ == zeroed);
    let mut crc_out: u32 = 0;
    let mut i: usize = 0;
    while i < 16
        invariant
            i <= 16,
            value@ == zeroed,
            zeroed.len() == 16,
            crc_out == crc4_acc(zeroed.take(i as int)),
        decreases 16 - i,
    {
        let ghost before = crc_out;
        crc_out = crc_out ^ (value[i] as u32);
        let ghost start = crc_out;
        let mut j: usize = 0;
        while j < 8
            invariant
                j <= 8,
                crc_out == crc4_shift(start, j as nat),
            decreases 8 - j,
        {
            proof {
                lemma_crc4_shift_step(start, j as nat);
            }
            crc_out = crc4_step_exec(crc_out);
            j = j + 1;
        }
        proof {
            let t = zeroed.take(i + 1);
            assert(t.drop_last() == zeroed.take(i as int));
            assert(t.last() == zeroed[i as int]);
        }
        i = i + 1;
    }
    assert(zeroed.take(16) == zeroed);
    ((crc_out >> 12u32) & 0xf) as u8
}

proof fn lemma_crc4_shift_step(c: u32, n: nat)
    ensures
        crc4_shift(c, n + 1) == crc4_step(crc4_shift(c, n)),
    decreases n,
{
    if n > 0 {
        lemma_crc4_shift_step(crc4_step(c), (n - 1) as nat);
    } else {
        reveal_with_fuel(crc4_shift, 2);
    }
}

fn be16_exec(hi: u8, lo: u8) -> (r: u16)
    ensures
        r == be16(hi, lo),
{
    (hi as u16) * 256 + (lo as u16)
}

/// Truncating division by a positive divisor stays within the dividend's
/// magnitude divided by the divisor.
proof fn lemma_tdiv_bound(a: int, b: int, m: int)
    requires
        b > 0,
        -m <= a <= m,
    ensures
        -(m / b) <= tdiv(a, b) <= m / b,
{
    if a >= 0 {
        assert(a / b <= m / b) by (nonlinear_arith)
            requires
                b > 0,
                0 <= a <= m,
        ;
        assert(a / b >= 0) by (nonlinear_arith)
            requires
                b > 0,
                0 <= a,
        ;
    } else {
        assert((-a) / b <= m / b) by (nonlinear_arith)
            requires
                b > 0,
                0 <= -a <= m,
        ;
        assert((-a) / b >= 0) by (nonlinear_arith)
            requires
                b > 0,
                0 <= -a,
        ;
    }
}

/// Magnitudes of the intermediate values of the compensation of 24-bit
/// readings.
proof fn lemma_compensation_bounds(c: Calibration, pres: u32, temp: u32)
    requires
        pres < 0x100_0000,
        temp < 0x100_0000,
    ensures
        -0x100_0000 < spec_dt(c, temp) < 0x100_0000,
        -0x100_0000_0000 <= spec_dt(c, temp) * c.tcs_t <= 0x100_0000_0000,
        -0x100_0000_0000 <= c.tco_p * spec_dt(c, temp) <= 0x100_0000_0000,
        -0x100_0000_0000 <= c.tcs_p * spec_dt(c, temp) <= 0x100_0000_0000,
        -0x2_0000 + 2000 <= spec_temp1(c, temp) <= 0x2_0000 + 2000,
        -0x8_0000_0000 <= spec_off1(c, temp) <= 0x8_0000_0000,
        -0x8_0000_0000 <= spec_sens1(c, temp) <= 0x8_0000_0000,
        0 <= spec_dt(c, temp) * spec_dt(c, temp) <= 0x1_0000_0000_0000,
        0 <= spec_t2(c, temp) <= 0x2_0000,
        spec_temp1(c, temp) < 2000 ==> 0 <= spec_off2(spec_temp1(c, temp)) <= 0x80_0000_0000,
        spec_temp1(c, temp) < 2000 ==> 0 <= spec_sens2(spec_temp1(c, temp)) <= 0x80_0000_0000,
{
    let dt = spec_dt(c, temp);
    assert(-0x100_0000_0000 <= dt * c.tcs_t <= 0x100_0000_0000) by (nonlinear_arith)
        requires
            -0x100_0000 < dt < 0x100_0000,
            0 <= c.tcs_t <= 0xffff,
    ;
    assert(-0x100_0000_0000 <= c.tco_p * dt <= 0x100_0000_0000) by (nonlinear_arith)
        requires
            -0x100_0000 < dt < 0x100_0000,
            0 <= c.tco_p <= 0xffff,
    ;
    assert(-0x100_0000_0000 <= c.tcs_p * dt <= 0x100_0000_0000) by (nonlinear_arith)
        requires
            -0x100_0000 < dt < 0x100_0000,
            0 <= c.tcs_p <= 0xffff,
    ;
    assert(0 <= dt * dt <= 0x1_0000_0000_0000) by (nonlinear_arith)
        requires
            -0x100_0000 < dt < 0x100_0000,
    ;
    lemma_tdiv_bound(dt * c.tcs_t, 8388608, 0x100_0000_0000);
    lemma_tdiv_bound(c.tco_p * dt, 64, 0x100_0000_0000);
    lemma_tdiv_bound(c.tcs_p * dt, 128, 0x100_0000_0000);
    lemma_tdiv_bound(dt * dt, 2147483648, 0x1_0000_0000_0000);
    assert(tdiv(dt * dt, 2147483648) >= 0) by (nonlinear_arith)
        requires
            dt * dt >= 0,
    ;
    let t = spec_temp1(c, temp);
    if t < 2000 {
        let t2000 = t - 2000;
        assert(0 <= 61 * t2000 * t2000 <= 61 * 0x4_0000_0000) by (nonlinear_arith)
            requires
                -0x2_0000 <= t2000 <= 0,
        ;
        assert(0 <= 2 * t2000 * t2000 <= 2 * 0x4_0000_0000) by (nonlinear_arith)
            requires
                -0x2_0000 <= t2000 <= 0,
        ;
        assert(0 <= 15 * (t + 1500) * (t + 1500) <= 15 * 0x4_0000_0000) by (nonlinear_arith)
            requires
                -0x2_0000 <= t + 1500 <= 0x2_0000,
        ;
        assert(0 <= 8 * (t + 1500) * (t + 1500) <= 8 * 0x4_0000_0000) by (nonlinear_arith)
            requires
                -0x2_0000 <= t + 1500 <= 0x2_0000,
        ;
        lemma_tdiv_bound(61 * t2000 * t2000, 16, 61 * 0x4_0000_0000int);
    }
}

/// The pressure formula of 24-bit readings fits a 32-bit result.
proof fn lemma_pressure_bounds(pres: u32, sens: int, off: int)
    requires
        0 <= pres < 0x100_0000,
        -0x100_0000_0000 <= sens <= 0x100_0000_0000,
        -0x100_0000_0000 <= off <= 0x100_0000_0000,
    ensures
        -0x1_0000_0000_0000_0000 <= pres * sens <= 0x1_0000_0000_0000_0000,
        -0x2000_0000 <= spec_pressure(pres, sens, off) <= 0x2000_0000,
{
    assert(-0x1_0000_0000_0000_0000 <= pres * sens <= 0x1_0000_0000_0000_0000) by (nonlinear_arith)
        requires
            0 <= pres < 0x100_0000,
            -0x100_0000_0000 <= sens <= 0x100_0000_0000,
    ;
    lemma_tdiv_bound(pres * sens, 2097152, 0x1_0000_0000_0000_0000);
    let q = tdiv(pres * sens, 2097152);
    lemma_tdiv_bound(q - off, 32768, 0x1_0000_0000_0000_0000int / 2097152 + 0x100_0000_0000);
}

impl Calibration {
    /// Check the PROM checksum and decode the six coefficients.
    pub fn try_from(value: [u8; 16]) -> (r: Result<Calibration, &'static str>)
        ensures
            prom_crc_ok(value@) <==> r is Ok,
            r is Ok ==> r->Ok_0 == spec_calibration(value@),
            r is Err ==> r == Err::<Calibration, &'static str>("CRC check failed"),
    {
        let crc: u8 = prom_crc(value);
        if crc != value[15] & 0xf {
            return Err("CRC check failed");
        }
        Ok(Calibration {
            sens_tref: be16_exec(value[2], value[3]),
            ofst_tref: be16_exec(value[4], value[5]),
            tcs_p: be16_exec(value[6], value[7]),
            tco_p: be16_exec(value[8], value[9]),
            tref: be16_exec(value[10], value[11]),
            tcs_t: be16_exec(value[12], value[13]),
        })
    }

    /// Compensate the raw 24-bit pressure and temperature readings using
    /// the factory calibration data. The arithmetic is wide enough for every
    /// pair of 24-bit readings and every calibration, so the results are the
    /// data sheet's integer formulas exactly.
    pub fn compensate(&self, pres: u32, temp: u32) -> (r: MeasurementRaw)
        requires
            pres < 0x100_0000,
            temp < 0x100_0000,
        ensures
            r == spec_compensate(*self, pres, temp),
            r.temperature == spec_temperature(*self, temp),
            r.pressure == spec_pressure_value(*self, pres, temp),
    {
        let ghost c = *self;
        proof {
            lemma_compensation_bounds(c, pres, temp);
        }
        let d_t: i128 = (temp as i128) - (self.tref as i128) * 256;
        assert(d_t == spec_dt(c, temp));
        let prod: i128 = d_t * (self.tcs_t as i128);
        let temp1: i128 = 2000 + prod / 8388608;
        assert(temp1 == spec_temp1(c, temp));
        let tco: i128 = (self.tco_p as i128) * d_t;
        let tcs: i128 = (self.tcs_p as i128) * d_t;
        let off: i128 = (self.ofst_tref as i128) * 131072 + tco / 64;
        let sens: i128 = (self.sens_tref as i128) * 65536 + tcs / 128;
        assert(off == spec_off1(c, temp));
        assert(sens == spec_sens1(c, temp));
        let mut temp_c: i128 = temp1;
        let mut off_c: i128 = off;
        let mut sens_c: i128 = sens;
        if temp1 < 2000 {
            let t_2000: i128 = temp1 - 2000;
            assert(0 <= t_2000 * t_2000 <= 0x4_0000_0000) by (nonlinear_arith)
                requires
                    -0x2_0000 <= t_2000 <= 0,
            ;
            let sq: i128 = t_2000 * t_2000;
            let dd: i128 = d_t * d_t;
            let dt2: i128 = dd / 2147483648;
            let mut off2: i128 = (61 * sq) / 16;
            let mut sens2: i128 = 2 * sq;
            proof {
                assert(61 * t_2000 * t_2000 == 61 * sq) by (nonlinear_arith)
                    requires
                        sq == t_2000 * t_2000,
                ;
                assert(2 * t_2000 * t_2000 == 2 * sq) by (nonlinear_arith)
                    requires
                        sq == t_2000 * t_2000,
                ;
            }
            if temp1 < -1500 {
                let t_1500: i128 = temp1 + 1500;
                assert(0 <= t_1500 * t_1500 <= 0x4_0000_0000) by (nonlinear_arith)
                    requires
                        -0x2_0000 <= t_1500 <= 0,
                ;
                let sq2: i128 = t_1500 * t_1500;
                proof {
                    assert(15 * t_1500 * t_1500 == 15 * sq2 && 8 * t_1500 * t_1500 == 8 * sq2)
                        by (nonlinear_arith)
                        requires
                            sq2 == t_1500 * t_1500,
                    ;
                }
                off2 = off2 + 15 * sq2;
                sens2 = sens2 + 8 * sq2;
            }
            assert(dt2 == spec_t2(c, temp));
            assert(off2 == spec_off2(temp1 as int));
            assert(sens2 == spec_sens2(temp1 as int));
            temp_c = temp1 - dt2;
            off_c = off - off2;
            sens_c = sens - sens2;
        }
        assert(temp_c == spec_temperature(c, temp));
        proof {
            lemma_pressure_bounds(pres, sens_c as int, off_c as int);
        }
        let ps: i128 = (pres as i128) * sens_c;
        let press: i128 = (ps / 2097152 - off_c) / 32768;
        MeasurementRaw { temperature: temp_c as i32, pressure: press as i32 }
    }
}

} // verus!
