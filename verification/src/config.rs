use vstd::prelude::*;

use crate::constants::{
    CYCLE_DURATION_US, GAS_MEASUREMENT_DURATION_US, MAX_ABS_AMBIENT_TEMPERATURE,
    MAX_HEATER_TEMPERATURE, MAX_HEATER_WAIT_DURATION_MS, TPH_SWITCHING_DURATION_US,
    WAKEUP_DURATION_US,
};
use crate::data::CalibrationData;

verus! {

/// Truncating division (rounding towards zero) for a positive divisor, as
/// performed by the hardware reference formulas on signed integers.
pub open spec fn tdiv(a: int, b: int) -> int
    recommends
        b > 0,
{
    if a >= 0 {
        a / b
    } else {
        -((-a) / b)
    }
}

/// Bus address selected by the hardware strap on the SDO pin: `Primary`
/// when SDO is wired to ground, `Secondary` when wired to Vin.
#[derive(Clone, Copy, Debug, PartialEq, Eq, Structural)]
pub enum DeviceAddress {
    Primary,
    Secondary,
}

impl DeviceAddress {
    /// The 7-bit bus address this choice stands for.
    pub open spec fn spec_value(self) -> u8 {
        match self {
            DeviceAddress::Primary => 0x76,
            DeviceAddress::Secondary => 0x77,
        }
    }

    pub fn value(self) -> (r: u8)
        ensures
            r == self.spec_value(),
    {
        match self {
            DeviceAddress::Primary => 0x76,
            DeviceAddress::Secondary => 0x77,
        }
    }
}

impl Default for DeviceAddress {
    fn default() -> (r: Self)
        ensures
            r == DeviceAddress::Primary,
    {
        DeviceAddress::Primary
    }
}

/// Silicon revision identifier; selects which gas-resistance formula
/// applies to a raw gas reading.
#[derive(Clone, Copy, Debug, PartialEq, Eq, Structural)]
pub enum Variant {
    GasLow,
    GasHigh,
}

impl Variant {
    /// Decodes the variant-id register. Only bytes 0 and 1 name a variant;
    /// any other byte is an initialization error, not a panic.
    pub fn from_byte(value: u8) -> (r: Option<Variant>)
        ensures
            r == Variant::spec_from_byte(value),
    {
        match value {
            0 => Some(Variant::GasLow),
            1 => Some(Variant::GasHigh),
            _ => None,
        }
    }

    pub open spec fn spec_from_byte(value: u8) -> Option<Variant> {
        if value == 0 {
            Some(Variant::GasLow)
        } else if value == 1 {
            Some(Variant::GasHigh)
        } else {
            None
        }
    }

    /// The variant-id register byte this variant stands for.
    pub open spec fn spec_value(self) -> u8 {
        match self {
            Variant::GasLow => 0,
            Variant::GasHigh => 1,
        }
    }
}

/// Power/measurement mode of the device. The device itself only knows
/// Sleep and Forced; Forced triggers a single conversion cycle and falls
/// back to Sleep on its own.
#[derive(Clone, Copy, Debug, PartialEq, Eq, Structural)]
pub enum SensorMode {
    Sleep,
    Forced,
}

impl SensorMode {
    /// Decodes the two mode bits of the control register.
    pub fn from_byte(value: u8) -> (r: SensorMode)
        requires
            value < 2,
        ensures
            r == SensorMode::spec_from_byte(value),
    {
        if value == 0 {
            SensorMode::Sleep
        } else {
            SensorMode::Forced
        }
    }

    pub open spec fn spec_from_byte(value: u8) -> SensorMode {
        if value == 0 {
            SensorMode::Sleep
        } else {
            SensorMode::Forced
        }
    }

    pub open spec fn spec_value(self) -> u8 {
        match self {
            SensorMode::Sleep => 0,
            SensorMode::Forced => 1,
        }
    }

    pub fn value(self) -> (r: u8)
        ensures
            r == self.spec_value(),
    {
        match self {
            SensorMode::Sleep => 0,
            SensorMode::Forced => 1,
        }
    }

    /// Whether a control-register byte reports the device asleep.
    pub fn is_sleep_byte(control_register: u8) -> (r: bool)
        ensures
            r == (control_register & 3 == 0),
    {
        control_register & 0x03 == 0
    }

    /// The control-register byte that puts the device to sleep while
    /// keeping every other bit as it was read.
    pub fn sleep_byte(control_register: u8) -> (r: u8)
        ensures
            r == control_register & 0xFC,
    {
        control_register & 0xFC
    }

    /// The control-register byte that triggers a forced measurement while
    /// keeping every other bit as it was read.
    pub fn forced_byte(control_register: u8) -> (r: u8)
        ensures
            r == (control_register & 0xFC) | 1,
    {
        (control_register & 0xFC) | 1
    }
}

/// Oversampling settings for temperature, humidity and pressure.
#[derive(Clone, Copy, Debug, Eq, PartialEq, Structural)]
pub enum Oversampling {
    Skipped,
    By1,
    By2,
    By4,
    By8,
    By16,
}

impl Oversampling {
    pub open spec fn spec_cycles(self) -> u32 {
        match self {
            Oversampling::Skipped => 0,
            Oversampling::By1 => 1,
            Oversampling::By2 => 2,
            Oversampling::By4 => 4,
            Oversampling::By8 => 8,
            Oversampling::By16 => 16,
        }
    }

    /// Number of internal ADC conversion cycles this setting costs.
    pub fn cycles(&self) -> (r: u32)
        ensures
            r == self.spec_cycles(),
    {
        match self {
            Oversampling::Skipped => 0,
            Oversampling::By1 => 1,
            Oversampling::By2 => 2,
            Oversampling::By4 => 4,
            Oversampling::By8 => 8,
            Oversampling::By16 => 16,
        }
    }

    pub open spec fn spec_value(self) -> u8 {
        match self {
            Oversampling::Skipped => 0,
            Oversampling::By1 => 1,
            Oversampling::By2 => 2,
            Oversampling::By4 => 3,
            Oversampling::By8 => 4,
            Oversampling::By16 => 5,
        }
    }

    /// Register encoding of this setting.
    pub fn value(self) -> (r: u8)
        ensures
            r == self.spec_value(),
    {
        match self {
            Oversampling::Skipped => 0,
            Oversampling::By1 => 1,
            Oversampling::By2 => 2,
            Oversampling::By4 => 3,
            Oversampling::By8 => 4,
            Oversampling::By16 => 5,
        }
    }

    pub open spec fn spec_from_byte(value: u8) -> Oversampling {
        if value == 0 {
            Oversampling::Skipped
        } else if value == 1 {
            Oversampling::By1
        } else if value == 2 {
            Oversampling::By2
        } else if value == 3 {
            Oversampling::By4
        } else if value == 4 {
            Oversampling::By8
        } else {
            Oversampling::By16
        }
    }

    /// Decodes a register field; encodings past the last setting saturate
    /// to the highest rate, matching the device's own reading of them.
    pub fn from_byte(value: u8) -> (r: Oversampling)
        ensures
            r == Oversampling::spec_from_byte(value),
    {
        match value {
            0 => Oversampling::Skipped,
            1 => Oversampling::By1,
            2 => Oversampling::By2,
            3 => Oversampling::By4,
            4 => Oversampling::By8,
            _ => Oversampling::By16,
        }
    }
}

/// IIR filter coefficient applied by the device to temperature and
/// pressure readings across successive measurements.
#[derive(Clone, Copy, Debug, Eq, PartialEq, Structural)]
pub enum IIRFilter {
    Coeff0,
    Coeff1,
    Coeff3,
    Coeff7,
    Coeff15,
    Coeff31,
    Coeff63,
    Coeff127,
}

impl IIRFilter {
    pub open spec fn spec_value(self) -> u8 {
        match self {
            IIRFilter::Coeff0 => 0,
            IIRFilter::Coeff1 => 1,
            IIRFilter::Coeff3 => 2,
            IIRFilter::Coeff7 => 3,
            IIRFilter::Coeff15 => 4,
            IIRFilter::Coeff31 => 5,
            IIRFilter::Coeff63 => 6,
            IIRFilter::Coeff127 => 7,
        }
    }

    /// Register encoding of this coefficient.
    pub fn value(self) -> (r: u8)
        ensures
            r == self.spec_value(),
    {
        match self {
            IIRFilter::Coeff0 => 0,
            IIRFilter::Coeff1 => 1,
            IIRFilter::Coeff3 => 2,
            IIRFilter::Coeff7 => 3,
            IIRFilter::Coeff15 => 4,
            IIRFilter::Coeff31 => 5,
            IIRFilter::Coeff63 => 6,
            IIRFilter::Coeff127 => 7,
        }
    }

    pub open spec fn spec_from_byte(value: u8) -> IIRFilter {
        if value == 0 {
            IIRFilter::Coeff0
        } else if value == 1 {
            IIRFilter::Coeff1
        } else if value == 2 {
            IIRFilter::Coeff3
        } else if value == 3 {
            IIRFilter::Coeff7
        } else if value == 4 {
            IIRFilter::Coeff15
        } else if value == 5 {
            IIRFilter::Coeff31
        } else if value == 6 {
            IIRFilter::Coeff63
        } else {
            IIRFilter::Coeff127
        }
    }

    /// Decodes a register field; encodings past the last coefficient
    /// saturate to the strongest filter.
    pub fn from_byte(value: u8) -> (r: IIRFilter)
        ensures
            r == IIRFilter::spec_from_byte(value),
    {
        match value {
            0 => IIRFilter::Coeff0,
            1 => IIRFilter::Coeff1,
            2 => IIRFilter::Coeff3,
            3 => IIRFilter::Coeff7,
            4 => IIRFilter::Coeff15,
            5 => IIRFilter::Coeff31,
            6 => IIRFilter::Coeff63,
            _ => IIRFilter::Coeff127,
        }
    }
}

/// Stored heater profile slot. Only profile 0 is driven by this driver;
/// forced mode does not use the sequential profiles.
#[derive(Clone, Copy, Debug, Eq, PartialEq, Structural)]
pub enum HeaterProfile {
    Profile0,
    Profile1,
    Profile2,
    Profile3,
    Profile4,
    Profile5,
    Profile6,
    Profile7,
    Profile8,
    Profile9,
}

impl HeaterProfile {
    pub open spec fn spec_value(self) -> u8 {
        match self {
            HeaterProfile::Profile0 => 0,
            HeaterProfile::Profile1 => 1,
            HeaterProfile::Profile2 => 2,
            HeaterProfile::Profile3 => 3,
            HeaterProfile::Profile4 => 4,
            HeaterProfile::Profile5 => 5,
            HeaterProfile::Profile6 => 6,
            HeaterProfile::Profile7 => 7,
            HeaterProfile::Profile8 => 8,
            HeaterProfile::Profile9 => 9,
        }
    }

    /// Register encoding of this profile slot.
    pub fn value(self) -> (r: u8)
        ensures
            r == self.spec_value(),
    {
        match self {
            HeaterProfile::Profile0 => 0,
            HeaterProfile::Profile1 => 1,
            HeaterProfile::Profile2 => 2,
            HeaterProfile::Profile3 => 3,
            HeaterProfile::Profile4 => 4,
            HeaterProfile::Profile5 => 5,
            HeaterProfile::Profile6 => 6,
            HeaterProfile::Profile7 => 7,
            HeaterProfile::Profile8 => 8,
            HeaterProfile::Profile9 => 9,
        }
    }

    pub open spec fn spec_from_byte(value: u8) -> HeaterProfile {
        if value == 0 {
            HeaterProfile::Profile0
        } else if value == 1 {
            HeaterProfile::Profile1
        } else if value == 2 {
            HeaterProfile::Profile2
        } else if value == 3 {
            HeaterProfile::Profile3
        } else if value == 4 {
            HeaterProfile::Profile4
        } else if value == 5 {
            HeaterProfile::Profile5
        } else if value == 6 {
            HeaterProfile::Profile6
        } else if value == 7 {
            HeaterProfile::Profile7
        } else if value == 8 {
            HeaterProfile::Profile8
        } else {
            HeaterProfile::Profile9
        }
    }

    /// Decodes a register field; encodings past the last slot saturate to
    /// the last slot.
    pub fn from_byte(value: u8) -> (r: HeaterProfile)
        ensures
            r == HeaterProfile::spec_from_byte(value),
    {
        match value {
            0 => HeaterProfile::Profile0,
            1 => HeaterProfile::Profile1,
            2 => HeaterProfile::Profile2,
            3 => HeaterProfile::Profile3,
            4 => HeaterProfile::Profile4,
            5 => HeaterProfile::Profile5,
            6 => HeaterProfile::Profile6,
            7 => HeaterProfile::Profile7,
            8 => HeaterProfile::Profile8,
            _ => HeaterProfile::Profile9,
        }
    }
}

/// Gas heater settings: how long the heater runs before the gas
/// conversion, and which plate temperature it aims for. Used only to
/// derive the `gas_wait` and `res_heat` register bytes.
#[derive(Clone, Copy, Debug, PartialEq, Eq, Structural)]
pub struct GasConfig {
    /// Heater-on duration in milliseconds; durations at or above
    /// `MAX_HEATER_WAIT_DURATION_MS` saturate the encoded byte.
    pub heater_duration_ms: u16,
    /// Heater target temperature in degrees Celsius, capped at
    /// `MAX_HEATER_TEMPERATURE` when encoding.
    pub heater_target_temperature: u16,
}

impl Default for GasConfig {
    /// Defaults to a 150 ms heater duration and a 300 degree Celsius
    /// heater target temperature.
    fn default() -> (r: Self)
        ensures
            r.heater_duration_ms == 150,
            r.heater_target_temperature == 300,
    {
        Self { heater_duration_ms: 150, heater_target_temperature: 300 }
    }
}

/// Encoding of a heater-on duration into the `gas_wait` register byte:
/// a 6-bit mantissa and a 2-bit power-of-four multiplier. Durations at or
/// above `MAX_HEATER_WAIT_DURATION_MS` saturate to 0xFF.
pub open spec fn spec_gas_wait(duration_ms: u16) -> u8 {
    if duration_ms >= 0xFFF {
        0xFF
    } else if duration_ms <= 0x3F {
        duration_ms as u8
    } else if duration_ms <= 0xFF {
        (duration_ms / 4 + 64) as u8
    } else if duration_ms <= 0x3FF {
        (duration_ms / 16 + 128) as u8
    } else {
        (duration_ms / 64 + 192) as u8
    }
}

/// The intermediate fixed-point heater resistance value `heatr_res_x100`
/// of the vendor formula, over unbounded integers. All divisions truncate
/// towards zero as the hardware reference does.
pub open spec fn spec_heater_res_x100(cal: CalibrationData, ambient: int, target: int) -> int {
    let var1 = tdiv(ambient * cal.par_gh3, 1000) * 256;
    let var2 = (cal.par_gh1 + 784) * tdiv(tdiv((cal.par_gh2 + 154009) * target * 5, 100) + 3276800, 10);
    let var3 = var1 + tdiv(var2, 2);
    let var4 = tdiv(var3, cal.res_heat_range + 4);
    let var5 = 131 * cal.res_heat_val + 65536;
    (tdiv(var4, var5) - 250) * 34
}

/// Encoding of the heater target temperature into the `res_heat` register
/// byte: the target is capped at `MAX_HEATER_TEMPERATURE`, run through the
/// vendor's fixed-point chain, and the low byte of the rounded result is
/// written.
pub open spec fn spec_res_heat(gas: GasConfig, cal: CalibrationData, ambient: int) -> u8 {
    let target: int = if gas.heater_target_temperature > 400 {
        400
    } else {
        gas.heater_target_temperature as int
    };
    (tdiv(spec_heater_res_x100(cal, ambient, target) + 50, 100) % 256) as u8
}

proof fn lemma_mul_bounds(a: int, b: int, am: int, bm: int)
    by (nonlinear_arith)
    requires
        -am <= a <= am,
        -bm <= b <= bm,
        0 <= am,
        0 <= bm,
    ensures
        -(am * bm) <= a * b <= am * bm,
{
}

proof fn lemma_tdiv_bound(a: int, b: int, m: int, bmin: int)
    by (nonlinear_arith)
    requires
        b >= bmin,
        bmin > 0,
        0 <= m,
        -m <= a <= m,
    ensures
        -(m / bmin) <= tdiv(a, b) <= m / bmin,
{
}

proof fn lemma_i32_low_byte(v: i32)
    by (bit_vector)
    ensures
        (v as u8) == v % 256,
{
}

impl GasConfig {
    /// Encodes the heater-on duration into the `gas_wait` register byte.
    pub fn calc_gas_wait(&self) -> (r: u8)
        ensures
            r == spec_gas_wait(self.heater_duration_ms),
    {
        let duration = self.heater_duration_ms;
        if duration >= MAX_HEATER_WAIT_DURATION_MS {
            0xFF
        } else if duration <= 0x3F {
            duration as u8
        } else if duration <= 0xFF {
            (duration / 4) as u8 + 64
        } else if duration <= 0x3FF {
            (duration / 16) as u8 + 128
        } else {
            (duration / 64) as u8 + 192
        }
    }

    /// Encodes the capped heater target temperature into the `res_heat`
    /// register byte, using the calibration coefficients and the current
    /// ambient temperature.
    pub fn calc_res_heat(&self, calibration_data: &CalibrationData, ambient_temperature: i32) -> (r: u8)
        requires
            -MAX_ABS_AMBIENT_TEMPERATURE <= ambient_temperature <= MAX_ABS_AMBIENT_TEMPERATURE,
        ensures
            r == spec_res_heat(*self, *calibration_data, ambient_temperature as int),
    {
        let target_temperature: u16 = if self.heater_target_temperature > MAX_HEATER_TEMPERATURE {
            400
        } else {
            self.heater_target_temperature
        };
        proof {
            lemma_mul_bounds(
                ambient_temperature as int,
                calibration_data.par_gh3 as int,
                0x800000,
                128,
            );
        }
        let scaled_ambient: i32 = (ambient_temperature * calibration_data.par_gh3 as i32) / 1000;
        proof {
            lemma_tdiv_bound(
                ambient_temperature * calibration_data.par_gh3,
                1000,
                0x40000000,
                1000,
            );
        }
        let var1: i32 = scaled_ambient * 256;
        proof {
            lemma_mul_bounds(
                calibration_data.par_gh2 + 154009,
                target_temperature as int,
                186776,
                400,
            );
        }
        let scaled_target: i32 = ((((calibration_data.par_gh2 as i32 + 154009)
            * target_temperature as i32 * 5) / 100) + 3276800) / 10;
        proof {
            lemma_tdiv_bound(
                (calibration_data.par_gh2 + 154009) * target_temperature * 5,
                100,
                373552000,
                100,
            );
            lemma_tdiv_bound(
                tdiv((calibration_data.par_gh2 + 154009) * target_temperature * 5, 100) + 3276800,
                10,
                7012320,
                10,
            );
            lemma_mul_bounds(calibration_data.par_gh1 + 784, scaled_target as int, 911, 701232);
        }
        let var2: i32 = (calibration_data.par_gh1 as i32 + 784) * scaled_target;
        let var3: i32 = var1 + (var2 / 2);
        let var4: i32 = var3 / (calibration_data.res_heat_range as i32 + 4);
        let var5: i32 = (131 * calibration_data.res_heat_val as i32) + 65536;
        proof {
            lemma_tdiv_bound(var4 as int, var5 as int, 0x40000000, 48768);
        }
        let heatr_res_x100: i32 = ((var4 / var5) - 250) * 34;
        let rounded: i32 = (heatr_res_x100 + 50) / 100;
        proof {
            lemma_i32_low_byte(rounded);
        }
        #[verifier::truncate] (rounded as u8)
    }
}

/// User-facing device settings. Fields left as `None` keep whatever the
/// corresponding register bits already hold (merge-on-write).
#[derive(Debug, Clone, Copy, PartialEq, Eq)]
pub struct Configuration {
    pub temperature_oversampling: Option<Oversampling>,
    pub pressure_oversampling: Option<Oversampling>,
    pub humidity_oversampling: Option<Oversampling>,
    pub filter: Option<IIRFilter>,
    pub gas_config: Option<GasConfig>,
}

impl Default for Configuration {
    /// Sensible defaults, the set whose encoded register block is the
    /// documented default: temperature oversampling By2, pressure
    /// oversampling By1, humidity oversampling By16, filter coefficient 1,
    /// and the default gas configuration.
    fn default() -> (r: Self)
        ensures
            r == Configuration::default_spec(),
    {
        Self {
            temperature_oversampling: Some(Oversampling::By2),
            pressure_oversampling: Some(Oversampling::By1),
            humidity_oversampling: Some(Oversampling::By16),
            filter: Some(IIRFilter::Coeff1),
            gas_config: Some(GasConfig { heater_duration_ms: 150, heater_target_temperature: 300 }),
        }
    }
}

/// Conversion cycles an optional oversampling setting costs; an absent
/// setting schedules no cycles.
pub open spec fn spec_option_cycles(o: Option<Oversampling>) -> int {
    match o {
        Some(x) => x.spec_cycles() as int,
        None => 0,
    }
}

/// The waiting period, in microseconds, that one forced measurement under
/// this configuration needs: one fixed cycle duration per scheduled
/// conversion cycle, plus the fixed switching, gas-slot and wake-up
/// durations.
pub open spec fn spec_delay_period_us(c: Configuration) -> int {
    (spec_option_cycles(c.temperature_oversampling) + spec_option_cycles(c.pressure_oversampling)
        + spec_option_cycles(c.humidity_oversampling)) * CYCLE_DURATION_US
        + TPH_SWITCHING_DURATION_US + GAS_MEASUREMENT_DURATION_US + WAKEUP_DURATION_US
}

impl Configuration {
    pub fn builder() -> (r: ConfigBuilder)
        ensures
            r.config() == Configuration::default_spec(),
    {
        ConfigBuilder { config: Configuration::default() }
    }

    /// The value `Default::default` returns, for use in contracts.
    pub open spec fn default_spec() -> Configuration {
        Configuration {
            temperature_oversampling: Some(Oversampling::By2),
            pressure_oversampling: Some(Oversampling::By1),
            humidity_oversampling: Some(Oversampling::By16),
            filter: Some(IIRFilter::Coeff1),
            gas_config: Some(GasConfig { heater_duration_ms: 150, heater_target_temperature: 300 }),
        }
    }

    /// How long one forced measurement under this configuration takes, in
    /// microseconds.
    pub fn calculate_delay_period_us(&self) -> (r: u32)
        ensures
            r == spec_delay_period_us(*self),
    {
        let mut cycles: u32 = 0;
        if let Some(t) = &self.temperature_oversampling {
            cycles = cycles + t.cycles();
        }
        if let Some(p) = &self.pressure_oversampling {
            cycles = cycles + p.cycles();
        }
        if let Some(h) = &self.humidity_oversampling {
            cycles = cycles + h.cycles();
        }
        cycles * CYCLE_DURATION_US + TPH_SWITCHING_DURATION_US + GAS_MEASUREMENT_DURATION_US
            + WAKEUP_DURATION_US
    }
}

/// Builds a `Configuration` starting from the default values.
pub struct ConfigBuilder {
    config: Configuration,
}

impl ConfigBuilder {
    /// The configuration built so far.
    pub closed spec fn config(&self) -> Configuration {
        self.config
    }

    pub fn temperature_oversampling(self, oversampling: Oversampling) -> (r: Self)
        ensures
            r.config() == (Configuration { temperature_oversampling: Some(oversampling), ..self.config() }),
    {
        let mut config = self.config;
        config.temperature_oversampling = Some(oversampling);
        ConfigBuilder { config }
    }

    pub fn humidity_oversampling(self, oversampling: Oversampling) -> (r: Self)
        ensures
            r.config() == (Configuration { humidity_oversampling: Some(oversampling), ..self.config() }),
    {
        let mut config = self.config;
        config.humidity_oversampling = Some(oversampling);
        ConfigBuilder { config }
    }

    pub fn pressure_oversampling(self, oversampling: Oversampling) -> (r: Self)
        ensures
            r.config() == (Configuration { pressure_oversampling: Some(oversampling), ..self.config() }),
    {
        let mut config = self.config;
        config.pressure_oversampling = Some(oversampling);
        ConfigBuilder { config }
    }

    pub fn filter(self, filter: IIRFilter) -> (r: Self)
        ensures
            r.config() == (Configuration { filter: Some(filter), ..self.config() }),
    {
        let mut config = self.config;
        config.filter = Some(filter);
        ConfigBuilder { config }
    }

    pub fn gas_config(self, gas_config: Option<GasConfig>) -> (r: Self)
        ensures
            r.config() == (Configuration { gas_config: gas_config, ..self.config() }),
    {
        let mut config = self.config;
        config.gas_config = gas_config;
        ConfigBuilder { config }
    }

    pub fn build(self) -> (r: Configuration)
        ensures
            r == self.config(),
    {
        self.config
    }
}

} // verus!
