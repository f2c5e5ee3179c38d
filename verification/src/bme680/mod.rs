//! BME680 environmental sensor: configuration, measurement timing, register
//! programming and raw data parsing.
use vstd::prelude::*;

pub mod registers;

use registers::{
    calc_gas_wait, spec_gas_wait, Calibration, CtrlGas0, CtrlGas1, CtrlHumGas, CtrlTempPres,
    MeasurementMode, Oversampling, CTRL_GAS_0, CTRL_GAS_1, CTRL_HUM, CTRL_MEAS, GAS_WAIT_0,
    RES_HEAT_0,
};

use crate::bitfield::{get8, set8};

verus! {

/// Reads of the status after the measurement duration before a measurement
/// times out.
pub const NEW_DATA_POLLS: usize = 30;

/// Delay between two status reads, in milliseconds.
pub const NEW_DATA_POLL_MS: u32 = 10;

/// I2C address of the BME680.
#[derive(Clone, Copy, Debug, PartialEq, Eq, Structural)]
pub enum Bme680Address {
    /// Address pin tied low: 0x76
    AddrLow,
    /// Address pin tied high: 0x77
    AddrHigh,
}

impl Bme680Address {
    /// The 7-bit bus address.
    pub open spec fn spec_bits(self) -> u8 {
        match self {
            Bme680Address::AddrLow => 0x76,
            Bme680Address::AddrHigh => 0x77,
        }
    }

    /// The 7-bit bus address.
    pub fn bits(self) -> (r: u8)
        ensures
            r == self.spec_bits(),
    {
        match self {
            Bme680Address::AddrLow => 0x76,
            Bme680Address::AddrHigh => 0x77,
        }
    }
}

/// Driver errors.
#[derive(Debug, PartialEq, Eq, Structural)]
pub enum Error<E> {
    /// Underlying I2C bus error.
    I2c(E),
    /// CHIP_ID register did not return 0x61.
    InvalidChipId,
    /// Forced-mode measurement timed out (no `new_data` flag after many polls).
    MeasurementTimedOut,
}

impl<E> From<E> for Error<E> {
    fn from(err: E) -> (r: Self) {
        Error::I2c(err)
    }
}

impl<E> vstd::std_specs::convert::FromSpecImpl<E> for Error<E> {
    open spec fn obeys_from_spec() -> bool {
        true
    }

    open spec fn from_spec(err: E) -> Self {
        Error::I2c(err)
    }
}

/// Sensor configuration.
#[derive(Clone, Copy, Debug, PartialEq, Eq, Structural)]
pub struct Config {
    /// Temperature oversampling.
    pub os_temperature: Oversampling,
    /// Pressure oversampling.
    pub os_pressure: Oversampling,
    /// Humidity oversampling.
    pub os_humidity: Oversampling,
    /// Gas heater target temperature in degrees Celsius (capped at 400).
    pub heater_temperature: u16,
    /// Gas heater on-time in milliseconds.
    pub heater_duration_ms: u16,
    /// Approximate ambient temperature in degrees Celsius, used to calculate
    /// the heater resistance register value.
    pub ambient_temperature: i8,
}

/// Duration of one measured quantity, in hundredths of a millisecond: 2.3 ms
/// per sample plus 0.575 ms (rounded to 0.58) when the quantity is measured.
pub open spec fn quantity_hundredths(o: Oversampling) -> int {
    if o == Oversampling::Disabled {
        0
    } else {
        230 * o.spec_samples() + 58
    }
}

impl Config {
    /// The default settings: x2 temperature, x16 pressure, x1 humidity,
    /// heater at 320 degrees for 100 ms, ambient 25 degrees.
    pub open spec fn spec_default() -> Config {
        Config {
            os_temperature: Oversampling::X2,
            os_pressure: Oversampling::X16,
            os_humidity: Oversampling::X1,
            heater_temperature: 320,
            heater_duration_ms: 100,
            ambient_temperature: 25,
        }
    }

    /// Worst-case measurement duration in ms (data sheet 3.2.1):
    /// `1.25 + 2.3 T + (2.3 P + 0.575) + (2.3 H + 0.575) + t_gas`, where a
    /// disabled pressure or humidity measurement contributes nothing,
    /// rounded up to whole milliseconds.
    pub open spec fn spec_measure_duration_ms(self) -> int {
        let total = 125 + 230 * self.os_temperature.spec_samples() + quantity_hundredths(
            self.os_pressure,
        ) + quantity_hundredths(self.os_humidity) + self.heater_duration_ms * 100;
        (total + 99) / 100
    }

    /// Default configuration.
    pub fn default() -> (r: Self)
        ensures
            r == Config::spec_default(),
    {
        Config {
            os_temperature: Oversampling::X2,
            os_pressure: Oversampling::X16,
            os_humidity: Oversampling::X1,
            heater_temperature: 320,
            heater_duration_ms: 100,
            ambient_temperature: 25,
        }
    }

    /// Worst-case measurement duration in milliseconds for the oversampling
    /// and heater settings.
    pub fn measure_duration_ms(&self) -> (r: u32)
        ensures
            r == self.spec_measure_duration_ms(),
    {
        let base: u32 = 125;
        let t_temp: u32 = 230 * self.os_temperature.samples();
        let t_pres: u32 = if self.os_pressure != Oversampling::Disabled {
            230 * self.os_pressure.samples() + 58
        } else {
            0
        };
        let t_hum: u32 = if self.os_humidity != Oversampling::Disabled {
            230 * self.os_humidity.samples() + 58
        } else {
            0
        };
        let t_gas: u32 = self.heater_duration_ms as u32 * 100;
        let total_hundredths: u32 = base + t_temp + t_pres + t_hum + t_gas;
        (total_hundredths + 99) / 100
    }

    /// Register writes that apply this configuration in sleep mode, given
    /// the heater resistance code: CTRL_MEAS, CTRL_HUM, RES_HEAT_0,
    /// GAS_WAIT_0, CTRL_GAS_0 (heater on) and CTRL_GAS_1 (gas run, profile 0).
    pub fn register_writes(&self, res_heat: u8) -> (r: [(u8, u8); 6])
        ensures
            r[0] == (CTRL_MEAS, set8(
                set8(set8(0, 0, 3, 0), 2, 7, self.os_pressure.spec_into_bits()),
                5,
                7,
                self.os_temperature.spec_into_bits(),
            )),
            r[1] == (CTRL_HUM, set8(0, 0, 7, self.os_humidity.spec_into_bits())),
            r[2] == (RES_HEAT_0, res_heat),
            r[3] == (GAS_WAIT_0, spec_gas_wait(self.heater_duration_ms)),
            r[4] == (CTRL_GAS_0, set8(0, 3, 1, 0)),
            r[5] == (CTRL_GAS_1, set8(set8(0, 4, 1, 1), 0, 15, 0)),
    {
        let ctrl = CtrlTempPres::new().with_mode(MeasurementMode::Sleep).with_pressure(
            self.os_pressure,
        ).with_temperature(self.os_temperature);
        let ctrl_hum = CtrlHumGas::new().with_humidity(self.os_humidity);
        let gas_wait = calc_gas_wait(self.heater_duration_ms);
        let ctrl_gas0 = CtrlGas0::new().with_heat_off(false);
        let ctrl_gas1 = CtrlGas1::new().with_run_gas(true).with_index(0);
        [
            (CTRL_MEAS, ctrl.into_bits()),
            (CTRL_HUM, ctrl_hum.into_bits()),
            (RES_HEAT_0, res_heat),
            (GAS_WAIT_0, gas_wait),
            (CTRL_GAS_0, ctrl_gas0.into_bits()),
            (CTRL_GAS_1, ctrl_gas1.into_bits()),
        ]
    }
}

/// Raw conversion results of field 0.
#[derive(Clone, Copy, Debug, PartialEq, Eq, Structural)]
pub struct RawFields {
    /// 20-bit pressure ADC value
    pub adc_pres: u32,
    /// 20-bit temperature ADC value
    pub adc_temp: u32,
    /// 16-bit humidity ADC value
    pub adc_hum: u16,
    /// 10-bit gas ADC value
    pub adc_gas: u16,
    /// Gas range
    pub gas_range: u8,
    /// The heater temperature was stable
    pub heat_stab: bool,
    /// The gas reading is valid
    pub gasm_valid: bool,
}

impl RawFields {
    /// Parse the 17 bytes read from MEAS_STATUS_0: pressure in bytes 2..4
    /// and temperature in bytes 5..7 (20 bits, MSB first), humidity in
    /// bytes 8..9, gas ADC in bytes 13..14 (10 bits), gas range in the low
    /// nibble of byte 14, heater stability in bit 4 and validity in bit 5.
    pub fn parse(buf: [u8; 17]) -> (r: RawFields)
        ensures
            r.adc_pres == buf[2] * 4096 + buf[3] * 16 + buf[4] / 16,
            r.adc_temp == buf[5] * 4096 + buf[6] * 16 + buf[7] / 16,
            r.adc_hum == buf[8] * 256 + buf[9],
            r.adc_gas == buf[13] * 4 + buf[14] / 64,
            r.gas_range == buf[14] % 16,
            r.heat_stab == ((buf[14] / 16) % 2 == 1),
            r.gasm_valid == ((buf[14] / 32) % 2 == 1),
    {
        RawFields {
            adc_pres: (buf[2] as u32) * 4096 + (buf[3] as u32) * 16 + (buf[4] as u32) / 16,
            adc_temp: (buf[5] as u32) * 4096 + (buf[6] as u32) * 16 + (buf[7] as u32) / 16,
            adc_hum: (buf[8] as u16) * 256 + (buf[9] as u16),
            adc_gas: (buf[13] as u16) * 4 + (buf[14] as u16) / 64,
            gas_range: buf[14] % 16,
            heat_stab: (buf[14] / 16) % 2 == 1,
            gasm_valid: (buf[14] / 32) % 2 == 1,
        }
    }

    /// The gas reading counts when the heater was stable and the reading is valid.
    pub fn gas_valid(&self) -> (r: bool)
        ensures
            r == (self.heat_stab && self.gasm_valid),
    {
        self.heat_stab && self.gasm_valid
    }
}

/// Register writes that start a forced-mode measurement, given the current
/// CTRL_MEAS value: a write back to sleep mode when the sensor is not
/// asleep, then the trigger.
pub fn forced_trigger(ctrl_meas: u8) -> (r: (Option<u8>, u8))
    ensures
        get8(ctrl_meas, 0, 3) == 1 <==> r.0 is Some,
        r.0 is Some ==> r.0 == Some(set8(ctrl_meas, 0, 3, 0)),
        r.1 == set8(set8(ctrl_meas, 0, 3, 0), 0, 3, 1),
{
    let ctrl = CtrlTempPres::from_bits(ctrl_meas);
    let asleep = ctrl.with_mode(MeasurementMode::Sleep);
    let sleep_write = if ctrl.mode() != MeasurementMode::Sleep {
        Some(asleep.into_bits())
    } else {
        None
    };
    (sleep_write, asleep.with_mode(MeasurementMode::Forced).into_bits())
}

/// I2C bus with the device address.
pub struct I2cInterface<I2C> {
    /// The bus
    pub i2c: I2C,
    /// 7-bit device address
    pub address: u8,
}

/// BME680 driver state.
pub struct Bme680<I2C, D> {
    iface: I2cInterface<I2C>,
    delay: D,
    calib: Calibration,
    meas_duration_ms: u32,
}

impl<I2C, D> Bme680<I2C, D> {
    /// The bus interface.
    pub closed spec fn spec_iface(&self) -> I2cInterface<I2C> {
        self.iface
    }

    /// The delay provider.
    pub closed spec fn spec_delay(&self) -> D {
        self.delay
    }

    /// Calibration in use.
    pub closed spec fn spec_calib(&self) -> Calibration {
        self.calib
    }

    /// Worst-case measurement duration in ms of the applied configuration.
    pub closed spec fn spec_meas_duration_ms(&self) -> u32 {
        self.meas_duration_ms
    }

    /// Create a new driver instance; the measurement duration is that of the
    /// default configuration until a configuration is applied.
    pub fn new(i2c: I2C, addr: Bme680Address, delay: D) -> (r: Self)
        ensures
            r.spec_iface().i2c == i2c,
            r.spec_iface().address == addr.spec_bits(),
            r.spec_delay() == delay,
            r.spec_meas_duration_ms() == Config::spec_default().spec_measure_duration_ms(),
    {
        let default_cfg = Config::default();
        Bme680 {
            iface: I2cInterface { i2c, address: addr.bits() },
            delay,
            calib: Calibration::default(),
            meas_duration_ms: default_cfg.measure_duration_ms(),
        }
    }

    /// Calibration in use.
    pub fn calibration(&self) -> (r: Calibration)
        ensures
            r == self.spec_calib(),
    {
        self.calib
    }

    /// Worst-case measurement duration in ms of the applied configuration.
    pub fn meas_duration_ms(&self) -> (r: u32)
        ensures
            r == self.spec_meas_duration_ms(),
    {
        self.meas_duration_ms
    }

    /// Keep the calibration read from the sensor and the duration of
    /// `config`; return the register writes that apply `config`.
    pub fn configure(&mut self, config: Config, calib: Calibration, res_heat: u8) -> (r: [(
        u8,
        u8,
    ); 6])
        ensures
            final(self).spec_calib() == calib,
            final(self).spec_meas_duration_ms() == config.spec_measure_duration_ms(),
            final(self).spec_iface() == old(self).spec_iface(),
            final(self).spec_delay() == old(self).spec_delay(),
            r@ == config.register_writes_spec(res_heat),
    {
        self.calib = calib;
        self.meas_duration_ms = config.measure_duration_ms();
        let w = config.register_writes(res_heat);
        proof {
            config.lemma_register_writes(res_heat, w);
        }
        w
    }

    /// Mutable access to the bus interface and the delay provider, for the
    /// code that performs the transfers.
    pub fn io_mut(&mut self) -> (r: (&mut I2cInterface<I2C>, &mut D))
        ensures
            *r.0 == old(self).spec_iface(),
            *r.1 == old(self).spec_delay(),
            final(self).spec_iface() == *final(r.0),
            final(self).spec_delay() == *final(r.1),
            final(self).spec_calib() == old(self).spec_calib(),
            final(self).spec_meas_duration_ms() == old(self).spec_meas_duration_ms(),
    {
        (&mut self.iface, &mut self.delay)
    }
}

impl Config {
    /// The register writes of [`Config::register_writes`] as a sequence.
    pub open spec fn register_writes_spec(self, res_heat: u8) -> Seq<(u8, u8)> {
        seq![
            (CTRL_MEAS, set8(
                set8(set8(0, 0, 3, 0), 2, 7, self.os_pressure.spec_into_bits()),
                5,
                7,
                self.os_temperature.spec_into_bits(),
            )),
            (CTRL_HUM, set8(0, 0, 7, self.os_humidity.spec_into_bits())),
            (RES_HEAT_0, res_heat),
            (GAS_WAIT_0, spec_gas_wait(self.heater_duration_ms)),
            (CTRL_GAS_0, set8(0, 3, 1, 0)),
            (CTRL_GAS_1, set8(set8(0, 4, 1, 1), 0, 15, 0)),
        ]
    }

    proof fn lemma_register_writes(self, res_heat: u8, w: [(u8, u8); 6])
        requires
            w[0] == self.register_writes_spec(res_heat)[0],
            w[1] == self.register_writes_spec(res_heat)[1],
            w[2] == self.register_writes_spec(res_heat)[2],
            w[3] == self.register_writes_spec(res_heat)[3],
            w[4] == self.register_writes_spec(res_heat)[4],
            w[5] == self.register_writes_spec(res_heat)[5],
        ensures
            w@ == self.register_writes_spec(res_heat),
    {
        assert(w@ =~= self.register_writes_spec(res_heat));
    }
}

/// The mode field (bits 1:0) and the oversampling fields (bits 4:2 and 7:5)
/// of CTRL_MEAS, and the humidity field (bits 2:0) of CTRL_HUM, occupy the
/// places the register map gives them.
proof fn lemma_ctrl_fields()
    ensures
        crate::bitfield::field_fits8(0, 3),
        crate::bitfield::field_fits8(2, 7),
        crate::bitfield::field_fits8(5, 7),
        crate::bitfield::field_fits8(0, 7),
        crate::bitfield::field_fits8(0, 15),
        crate::bitfield::field_fits8(4, 1),
        crate::bitfield::field_fits8(3, 1),
        (3u8 << 0u8) & (7u8 << 2u8) == 0,
        (3u8 << 0u8) & (7u8 << 5u8) == 0,
        (7u8 << 2u8) & (7u8 << 5u8) == 0,
        (7u8 << 2u8) & (3u8 << 0u8) == 0,
        (7u8 << 5u8) & (3u8 << 0u8) == 0,
        (7u8 << 5u8) & (7u8 << 2u8) == 0,
        (15u8 << 0u8) & (1u8 << 4u8) == 0,
        (1u8 << 4u8) & (15u8 << 0u8) == 0,
        get8(0, 0, 3) == 0,
        get8(0, 2, 7) == 0,
        get8(0, 5, 7) == 0,
        get8(0, 4, 1) == 0,
        get8(0, 3, 1) == 0,
{
    assert({
        &&& (3u8 << 0u8) >> 0u8 == 3u8
        &&& (7u8 << 2u8) >> 2u8 == 7u8
        &&& (7u8 << 5u8) >> 5u8 == 7u8
        &&& (7u8 << 0u8) >> 0u8 == 7u8
        &&& (15u8 << 0u8) >> 0u8 == 15u8
        &&& (1u8 << 4u8) >> 4u8 == 1u8
        &&& (1u8 << 3u8) >> 3u8 == 1u8
        &&& (3u8 << 0u8) & (7u8 << 2u8) == 0
        &&& (3u8 << 0u8) & (7u8 << 5u8) == 0
        &&& (7u8 << 2u8) & (7u8 << 5u8) == 0
        &&& (7u8 << 2u8) & (3u8 << 0u8) == 0
        &&& (7u8 << 5u8) & (3u8 << 0u8) == 0
        &&& (7u8 << 5u8) & (7u8 << 2u8) == 0
        &&& (15u8 << 0u8) & (1u8 << 4u8) == 0
        &&& (1u8 << 4u8) & (15u8 << 0u8) == 0
        &&& (0u8 >> 0u8) & 3u8 == 0
        &&& (0u8 >> 2u8) & 7u8 == 0
        &&& (0u8 >> 5u8) & 7u8 == 0
        &&& (0u8 >> 4u8) & 1u8 == 0
        &&& (0u8 >> 3u8) & 1u8 == 0
    }) by (bit_vector);
}

/// The registers written by [`Config::register_writes`] read back as the
/// configuration: sleep mode and the three oversampling settings, the heater
/// switched on, gas conversions enabled with heater profile 0.
pub proof fn lemma_register_writes_decode(c: Config, res_heat: u8)
    ensures
        ({
            let w = c.register_writes_spec(res_heat);
            &&& MeasurementMode::spec_from_bits(get8(w[0].1, 0, 3)) == MeasurementMode::Sleep
            &&& Oversampling::spec_from_bits(get8(w[0].1, 2, 7)) == c.os_pressure
            &&& Oversampling::spec_from_bits(get8(w[0].1, 5, 7)) == c.os_temperature
            &&& Oversampling::spec_from_bits(get8(w[1].1, 0, 7)) == c.os_humidity
            &&& get8(w[4].1, 3, 1) == 0
            &&& get8(w[5].1, 4, 1) == 1
            &&& get8(w[5].1, 0, 15) == 0
        }),
{
    lemma_ctrl_fields();
    let p = c.os_pressure.spec_into_bits();
    let t = c.os_temperature.spec_into_bits();
    let h = c.os_humidity.spec_into_bits();
    registers::lemma_oversampling_roundtrip(c.os_pressure);
    registers::lemma_oversampling_roundtrip(c.os_temperature);
    registers::lemma_oversampling_roundtrip(c.os_humidity);
    let a = set8(0, 0, 3, 0);
    let b = set8(a, 2, 7, p);
    crate::bitfield::lemma_field8(0, 0, 0, 3, 2, 7);
    crate::bitfield::lemma_field8(a, p, 2, 7, 0, 3);
    crate::bitfield::lemma_field8(b, t, 5, 7, 0, 3);
    crate::bitfield::lemma_field8(b, t, 5, 7, 2, 7);
    crate::bitfield::lemma_field8(b, t, 5, 7, 5, 7);
    crate::bitfield::lemma_field8(0, h, 0, 7, 0, 7);
    crate::bitfield::lemma_field8(0, 0, 3, 1, 3, 1);
    let g = set8(0, 4, 1, 1);
    crate::bitfield::lemma_field8(0, 1, 4, 1, 4, 1);
    crate::bitfield::lemma_field8(g, 0, 0, 15, 4, 1);
    crate::bitfield::lemma_field8(g, 0, 0, 15, 0, 15);
}

/// The trigger written by [`forced_trigger`] selects forced mode and keeps
/// both oversampling fields of the current CTRL_MEAS value.
pub proof fn lemma_forced_trigger(ctrl_meas: u8)
    ensures
        ({
            let t = set8(set8(ctrl_meas, 0, 3, 0), 0, 3, 1);
            &&& MeasurementMode::spec_from_bits(get8(t, 0, 3)) == MeasurementMode::Forced
            &&& get8(t, 2, 7) == get8(ctrl_meas, 2, 7)
            &&& get8(t, 5, 7) == get8(ctrl_meas, 5, 7)
        }),
{
    lemma_ctrl_fields();
    let a = set8(ctrl_meas, 0, 3, 0);
    crate::bitfield::lemma_field8(ctrl_meas, 0, 0, 3, 2, 7);
    crate::bitfield::lemma_field8(ctrl_meas, 0, 0, 3, 5, 7);
    crate::bitfield::lemma_field8(a, 1, 0, 3, 0, 3);
    crate::bitfield::lemma_field8(a, 1, 0, 3, 2, 7);
    crate::bitfield::lemma_field8(a, 1, 0, 3, 5, 7);
}

/// Measurement duration in hundredths of a millisecond, with each
/// oversampling ratio taken from its register field code: 1.25 ms, 2.3 ms
/// per temperature sample, 2.3 ms per sample plus 0.58 ms for pressure and
/// humidity when measured, and the heater duration.
pub open spec fn duration_hundredths(c: Config) -> int {
    let t = registers::ratio_of_code(c.os_temperature.spec_into_bits());
    let p = registers::ratio_of_code(c.os_pressure.spec_into_bits());
    let h = registers::ratio_of_code(c.os_humidity.spec_into_bits());
    125 + 230 * t + (if p > 0 {
        230 * p + 58
    } else {
        0
    }) + (if h > 0 {
        230 * h + 58
    } else {
        0
    }) + 100 * c.heater_duration_ms
}

/// The measurement duration is the data sheet's worst-case time rounded up
/// to whole milliseconds: no less than it, and less than a millisecond more.
pub proof fn lemma_measure_duration_covers(c: Config)
    ensures
        100 * c.spec_measure_duration_ms() >= duration_hundredths(c),
        100 * c.spec_measure_duration_ms() < duration_hundredths(c) + 100,
{
    registers::lemma_samples_follow_field(c.os_temperature, 1);
    registers::lemma_samples_follow_field(c.os_pressure, 1);
    registers::lemma_samples_follow_field(c.os_humidity, 1);
}

} // verus!
