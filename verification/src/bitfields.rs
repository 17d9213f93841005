use vstd::prelude::*;

use crate::config::{Configuration, HeaterProfile, IIRFilter, Oversampling, SensorMode};

verus! {

/// Whether bit `i` of byte `b` is set.
pub open spec fn spec_bit(b: u8, i: u8) -> bool
    recommends
        i < 8,
{
    (b >> i) & 1 == 1
}

/// A 20-bit ADC value assembled from its three register bytes.
pub open spec fn spec_adc20(msb: u8, lsb: u8, xlsb: u8) -> u32 {
    ((msb as u32) << 12) | ((lsb as u32) << 4) | ((xlsb as u32) >> 4)
}

/// A 16-bit ADC value assembled from its two register bytes.
pub open spec fn spec_adc16(msb: u8, lsb: u8) -> u16 {
    ((msb as u16) << 8) | (lsb as u16)
}

/// A 10-bit gas ADC value: eight high bits in one byte, two low bits in
/// the top of the next.
pub open spec fn spec_adc10(msb: u8, lsb: u8) -> u16 {
    ((msb as u16) << 2) | ((lsb >> 6) as u16)
}

/// Temperature or pressure ADC value: 20 bits assembled from msb, lsb and
/// xlsb register bytes.
#[derive(Clone, Copy, Debug, PartialEq, Eq, Structural)]
pub struct Measurment(pub u32);

impl Measurment {
    pub fn from_bytes(msb: u8, lsb: u8, xlsb: u8) -> (r: Self)
        ensures
            r.0 == spec_adc20(msb, lsb, xlsb),
    {
        Measurment(((msb as u32) << 12) | ((lsb as u32) << 4) | ((xlsb as u32) >> 4))
    }
}

/// Humidity ADC value: 16 bits, big-endian on the wire.
#[derive(Clone, Copy, Debug, PartialEq, Eq, Structural)]
pub struct Humidity(pub u16);

impl Humidity {
    pub fn from_bytes(msb: u8, lsb: u8) -> (r: Self)
        ensures
            r.0 == spec_adc16(msb, lsb),
    {
        Humidity(((msb as u16) << 8) | (lsb as u16))
    }
}

/// Gas ADC value: 10 bits split over two register bytes.
#[derive(Clone, Copy, Debug, PartialEq, Eq, Structural)]
pub struct GasADC(pub u16);

impl GasADC {
    pub fn from_bytes(msb: u8, lsb: u8) -> (r: Self)
        ensures
            r.0 == spec_adc10(msb, lsb),
    {
        GasADC(((msb as u16) << 2) | ((lsb >> 6) as u16))
    }
}

/// Heater-wait register content read back as milliseconds (the mantissa
/// byte, as the reference decoded it).
#[derive(Clone, Copy, Debug, PartialEq, Eq, Structural)]
pub struct GasWaitDuration(pub u16);

impl GasWaitDuration {
    pub fn from_byte(value: u8) -> (r: Self)
        ensures
            r.0 == value,
    {
        GasWaitDuration(value as u16)
    }
}

// Field layout of the 5-byte configuration block, byte index = register - 0x71:
// byte 0 (0x71): heater profile <3:0>, run_gas <4>
// byte 1 (0x72): humidity oversampling <2:0>
// byte 2 (0x73): unused
// byte 3 (0x74): mode <1:0>, pressure oversampling <4:2>, temperature oversampling <7:5>
// byte 4 (0x75): filter <4:2>

pub open spec fn spec_set_heater_profile(b: u8, p: HeaterProfile) -> u8 {
    (b & 0xF0) | (p.spec_value() & 0x0F)
}

pub open spec fn spec_set_run_gas(b: u8, run: bool) -> u8 {
    (b & 0xEF) | (if run {
        0x10
    } else {
        0
    })
}

pub open spec fn spec_set_humidity_os(b: u8, o: Oversampling) -> u8 {
    (b & 0xF8) | (o.spec_value() & 0x07)
}

pub open spec fn spec_set_mode(b: u8, m: SensorMode) -> u8 {
    (b & 0xFC) | (m.spec_value() & 0x03)
}

pub open spec fn spec_set_pressure_os(b: u8, o: Oversampling) -> u8 {
    (b & 0xE3) | ((o.spec_value() << 2) & 0x1C)
}

pub open spec fn spec_set_temperature_os(b: u8, o: Oversampling) -> u8 {
    (b & 0x1F) | ((o.spec_value() << 5) & 0xE0)
}

pub open spec fn spec_set_filter(b: u8, f: IIRFilter) -> u8 {
    (b & 0xE3) | ((f.spec_value() << 2) & 0x1C)
}

/// The configuration block after all present fields of `c` were merged
/// into `bytes`, in the order the fields are applied: absent fields leave
/// their bits exactly as they were. A present gas configuration forces
/// `run_gas` on and selects heater profile 0.
pub open spec fn spec_apply_config(bytes: Seq<u8>, c: Configuration) -> Seq<u8>
    recommends
        bytes.len() == 5,
{
    let b1 = match c.temperature_oversampling {
        Some(o) => bytes.update(3, spec_set_temperature_os(bytes[3], o)),
        None => bytes,
    };
    let b2 = match c.pressure_oversampling {
        Some(o) => b1.update(3, spec_set_pressure_os(b1[3], o)),
        None => b1,
    };
    let b3 = match c.humidity_oversampling {
        Some(o) => b2.update(1, spec_set_humidity_os(b2[1], o)),
        None => b2,
    };
    let b4 = match c.filter {
        Some(f) => b3.update(4, spec_set_filter(b3[4], f)),
        None => b3,
    };
    match c.gas_config {
        Some(_) => {
            let b5 = b4.update(0, spec_set_run_gas(b4[0], true));
            b5.update(0, spec_set_heater_profile(b5[0], HeaterProfile::Profile0))
        },
        None => b4,
    }
}

proof fn lemma_byte3_bits(b: u8, v: u8)
    by (bit_vector)
    ensures
        (((b & 0x1F) | ((v << 5) & 0xE0)) >> 5) & 7 == v & 7,
        (((b & 0x1F) | ((v << 5) & 0xE0)) >> 2) & 7 == (b >> 2) & 7,
        ((b & 0x1F) | ((v << 5) & 0xE0)) & 3 == b & 3,
        (((b & 0xE3) | ((v << 2) & 0x1C)) >> 2) & 7 == v & 7,
        (((b & 0xE3) | ((v << 2) & 0x1C)) >> 5) & 7 == (b >> 5) & 7,
        ((b & 0xE3) | ((v << 2) & 0x1C)) & 3 == b & 3,
{
}

proof fn lemma_byte1_bits(b: u8, v: u8)
    by (bit_vector)
    ensures
        ((b & 0xF8) | (v & 0x07)) & 7 == v & 7,
        ((b & 0xF8) | (v & 0x07)) >> 3 == b >> 3,
{
}

proof fn lemma_byte0_bits(b: u8)
    by (bit_vector)
    ensures
        (((((b & 0xEF) | 0x10) & 0xF0) | (0u8 & 0x0F)) >> 4) & 1 == 1,
        ((((b & 0xEF) | 0x10) & 0xF0) | (0u8 & 0x0F)) & 0x0F == 0,
        (((((b & 0xEF) | 0x10) & 0xF0) | (0u8 & 0x0F)) >> 5) & 7 == (b >> 5) & 7,
{
}

/// Merge law of the configuration overlay. A field left `None` keeps its
/// register bits bit-for-bit as the device returned them, whatever the
/// other fields do; a field set to `Some` puts exactly its encoding into
/// its bits; and the mode bits and the unused middle byte are never
/// touched. A present gas configuration forces the `run_gas` bit on and
/// heater profile 0.
pub proof fn lemma_apply_config_merge(bytes: Seq<u8>, c: Configuration)
    requires
        bytes.len() == 5,
    ensures
        ({
            let r = spec_apply_config(bytes, c);
            &&& r.len() == 5
            &&& c.temperature_oversampling is None ==> (r[3] >> 5) & 7 == (bytes[3] >> 5) & 7
            &&& c.temperature_oversampling matches Some(o) ==> (r[3] >> 5) & 7 == o.spec_value()
                & 7
            &&& c.pressure_oversampling is None ==> (r[3] >> 2) & 7 == (bytes[3] >> 2) & 7
            &&& c.pressure_oversampling matches Some(o) ==> (r[3] >> 2) & 7 == o.spec_value() & 7
            &&& c.humidity_oversampling is None ==> r[1] & 7 == bytes[1] & 7
            &&& c.humidity_oversampling matches Some(o) ==> r[1] & 7 == o.spec_value() & 7
            &&& r[1] >> 3 == bytes[1] >> 3
            &&& c.filter is None ==> (r[4] >> 2) & 7 == (bytes[4] >> 2) & 7
            &&& c.filter matches Some(f) ==> (r[4] >> 2) & 7 == f.spec_value() & 7
            &&& c.gas_config is None ==> r[0] == bytes[0]
            &&& c.gas_config is Some ==> (r[0] >> 4) & 1 == 1 && r[0] & 0x0F == 0
            &&& r[3] & 3 == bytes[3] & 3
            &&& r[2] == bytes[2]
        }),
{
    let b1 = match c.temperature_oversampling {
        Some(o) => bytes.update(3, spec_set_temperature_os(bytes[3], o)),
        None => bytes,
    };
    let b2 = match c.pressure_oversampling {
        Some(o) => b1.update(3, spec_set_pressure_os(b1[3], o)),
        None => b1,
    };
    let b3 = match c.humidity_oversampling {
        Some(o) => b2.update(1, spec_set_humidity_os(b2[1], o)),
        None => b2,
    };
    let b4 = match c.filter {
        Some(f) => b3.update(4, spec_set_filter(b3[4], f)),
        None => b3,
    };
    if let Some(o) = c.temperature_oversampling {
        lemma_byte3_bits(bytes[3], o.spec_value());
    }
    if let Some(o) = c.pressure_oversampling {
        lemma_byte3_bits(b1[3], o.spec_value());
    }
    if let Some(o) = c.humidity_oversampling {
        lemma_byte1_bits(b2[1], o.spec_value());
    }
    if let Some(f) = c.filter {
        lemma_byte3_bits(b3[4], f.spec_value());
    }
    if c.gas_config is Some {
        lemma_byte0_bits(b4[0]);
    }
}

/// Byte-level view of the device's 5-byte configuration register block.
#[derive(Clone, Copy, Debug, PartialEq, Eq)]
pub struct RawConfig(pub [u8; 5]);

impl RawConfig {
    pub fn set_temperature_oversampling(&mut self, o: Oversampling)
        ensures
            final(self).0@ == old(self).0@.update(3, spec_set_temperature_os(old(self).0@[3], o)),
    {
        self.0[3] = (self.0[3] & 0x1F) | ((o.value() << 5) & 0xE0);
    }

    pub fn set_pressure_oversampling(&mut self, o: Oversampling)
        ensures
            final(self).0@ == old(self).0@.update(3, spec_set_pressure_os(old(self).0@[3], o)),
    {
        self.0[3] = (self.0[3] & 0xE3) | ((o.value() << 2) & 0x1C);
    }

    pub fn set_humidity_oversampling(&mut self, o: Oversampling)
        ensures
            final(self).0@ == old(self).0@.update(1, spec_set_humidity_os(old(self).0@[1], o)),
    {
        self.0[1] = (self.0[1] & 0xF8) | (o.value() & 0x07);
    }

    pub fn set_filter(&mut self, f: IIRFilter)
        ensures
            final(self).0@ == old(self).0@.update(4, spec_set_filter(old(self).0@[4], f)),
    {
        self.0[4] = (self.0[4] & 0xE3) | ((f.value() << 2) & 0x1C);
    }

    pub fn set_mode(&mut self, m: SensorMode)
        ensures
            final(self).0@ == old(self).0@.update(3, spec_set_mode(old(self).0@[3], m)),
    {
        self.0[3] = (self.0[3] & 0xFC) | (m.value() & 0x03);
    }

    pub fn set_run_gas(&mut self, run: bool)
        ensures
            final(self).0@ == old(self).0@.update(0, spec_set_run_gas(old(self).0@[0], run)),
    {
        self.0[0] = (self.0[0] & 0xEF) | (if run {
            0x10
        } else {
            0
        });
    }

    pub fn set_heater_profile(&mut self, p: HeaterProfile)
        ensures
            final(self).0@ == old(self).0@.update(0, spec_set_heater_profile(old(self).0@[0], p)),
    {
        self.0[0] = (self.0[0] & 0xF0) | (p.value() & 0x0F);
    }

    pub fn temperature_oversampling(&self) -> (r: Oversampling)
        ensures
            r == Oversampling::spec_from_byte((self.0@[3] >> 5) & 0x07),
    {
        Oversampling::from_byte((self.0[3] >> 5) & 0x07)
    }

    pub fn pressure_oversampling(&self) -> (r: Oversampling)
        ensures
            r == Oversampling::spec_from_byte((self.0@[3] >> 2) & 0x07),
    {
        Oversampling::from_byte((self.0[3] >> 2) & 0x07)
    }

    pub fn humidity_oversampling(&self) -> (r: Oversampling)
        ensures
            r == Oversampling::spec_from_byte(self.0@[1] & 0x07),
    {
        Oversampling::from_byte(self.0[1] & 0x07)
    }

    pub fn filter(&self) -> (r: IIRFilter)
        ensures
            r == IIRFilter::spec_from_byte((self.0@[4] >> 2) & 0x07),
    {
        IIRFilter::from_byte((self.0[4] >> 2) & 0x07)
    }

    pub fn heater_profile(&self) -> (r: HeaterProfile)
        ensures
            r == HeaterProfile::spec_from_byte(self.0@[0] & 0x0F),
    {
        HeaterProfile::from_byte(self.0[0] & 0x0F)
    }

    pub fn run_gas(&self) -> (r: bool)
        ensures
            r == spec_bit(self.0@[0], 4),
    {
        (self.0[0] >> 4) & 1 == 1
    }

    pub fn mode(&self) -> (r: u8)
        ensures
            r == self.0@[3] & 0x03,
    {
        self.0[3] & 0x03
    }

    /// Merges every present field of the configuration into the block,
    /// leaving the bits of absent fields untouched. A present gas
    /// configuration also forces `run_gas` on and selects heater
    /// profile 0, since only the forced-mode profile-0 path is driven.
    pub fn apply_config(&mut self, config: &Configuration)
        ensures
            final(self).0@ == spec_apply_config(old(self).0@, *config),
    {
        if let Some(temperature_oversampling) = config.temperature_oversampling {
            self.set_temperature_oversampling(temperature_oversampling);
        }
        if let Some(pressure_oversampling) = config.pressure_oversampling {
            self.set_pressure_oversampling(pressure_oversampling);
        }
        if let Some(humidity_oversampling) = config.humidity_oversampling {
            self.set_humidity_oversampling(humidity_oversampling);
        }
        if let Some(filter) = config.filter {
            self.set_filter(filter);
        }
        if config.gas_config.is_some() {
            self.set_run_gas(true);
            // Only heater profile 0 is used: sequential multi-profile
            // heating is outside this driver's scope.
            self.set_heater_profile(HeaterProfile::Profile0);
        }
        proof {
            assert(self.0@ =~= spec_apply_config(old(self).0@, *config));
        }
    }
}

/// Byte-level view of the device's 15-byte measurement result block.
#[derive(Clone, Copy, Debug, PartialEq, Eq)]
pub struct RawData(pub [u8; 15]);

impl RawData {
    /// Whether a fresh conversion result is available.
    pub fn new_data(&self) -> (r: bool)
        ensures
            r == spec_bit(self.0@[0], 7),
    {
        (self.0[0] >> 7) & 1 == 1
    }

    /// Whether a gas conversion is still in progress.
    pub fn gas_measuring(&self) -> (r: bool)
        ensures
            r == spec_bit(self.0@[0], 6),
    {
        (self.0[0] >> 6) & 1 == 1
    }

    /// Whether a conversion is still in progress.
    pub fn measuring(&self) -> (r: bool)
        ensures
            r == spec_bit(self.0@[0], 5),
    {
        (self.0[0] >> 5) & 1 == 1
    }

    /// Index of the gas conversion slot this frame reports.
    pub fn gas_meas_index(&self) -> (r: u8)
        ensures
            r == self.0@[0] & 0x0F,
    {
        self.0[0] & 0x0F
    }

    /// 20-bit pressure ADC value.
    pub fn pressure_adc(&self) -> (r: Measurment)
        ensures
            r.0 == spec_adc20(self.0@[2], self.0@[3], self.0@[4]),
    {
        Measurment::from_bytes(self.0[2], self.0[3], self.0[4])
    }

    /// 20-bit temperature ADC value.
    pub fn temperature_adc(&self) -> (r: Measurment)
        ensures
            r.0 == spec_adc20(self.0@[5], self.0@[6], self.0@[7]),
    {
        Measurment::from_bytes(self.0[5], self.0[6], self.0[7])
    }

    /// 16-bit humidity ADC value.
    pub fn humidity_adc(&self) -> (r: Humidity)
        ensures
            r.0 == spec_adc16(self.0@[8], self.0@[9]),
    {
        Humidity::from_bytes(self.0[8], self.0[9])
    }

    /// 10-bit gas ADC value.
    pub fn gas_adc(&self) -> (r: GasADC)
        ensures
            r.0 == spec_adc10(self.0@[13], self.0@[14]),
    {
        GasADC::from_bytes(self.0[13], self.0[14])
    }

    /// 4-bit gas range index.
    pub fn gas_range(&self) -> (r: u8)
        ensures
            r == self.0@[14] & 0x0F,
    {
        self.0[14] & 0x0F
    }

    /// Whether the gas conversion slot holds a real conversion rather
    /// than a dummy one.
    pub fn gas_valid(&self) -> (r: bool)
        ensures
            r == spec_bit(self.0@[14], 5),
    {
        (self.0[14] >> 5) & 1 == 1
    }

    /// Whether the heater reached its target temperature.
    pub fn heater_stable(&self) -> (r: bool)
        ensures
            r == spec_bit(self.0@[14], 4),
    {
        (self.0[14] >> 4) & 1 == 1
    }
}

} // verus!
