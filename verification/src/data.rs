use vstd::prelude::*;

use crate::bitfields::RawData;

verus! {

/// The big-endian 16-bit word formed by a high and a low byte.
pub open spec fn word_be(hi: u8, lo: u8) -> int {
    hi * 256 + lo
}

/// The big-endian 16-bit word of two bytes, read as a signed value.
pub open spec fn signed_word_be(hi: u8, lo: u8) -> int {
    if word_be(hi, lo) >= 0x8000 {
        word_be(hi, lo) - 0x10000
    } else {
        word_be(hi, lo)
    }
}

/// A byte read as a signed value.
pub open spec fn signed_byte(b: u8) -> int {
    if b >= 0x80 {
        b - 0x100
    } else {
        b as int
    }
}

/// Calibration coefficients burnt into the device, read once during
/// initialization and fixed for the life of a driver instance.
#[derive(Clone, Copy, Debug, PartialEq, Eq, Structural)]
pub struct CalibrationData {
    // Temperature coefficients
    pub par_t1: u16,
    pub par_t2: i16,
    pub par_t3: i8,
    // Pressure coefficients
    pub par_p1: u16,
    pub par_p2: i16,
    pub par_p3: i8,
    pub par_p4: i16,
    pub par_p5: i16,
    pub par_p6: i8,
    pub par_p7: i8,
    pub par_p8: i16,
    pub par_p9: i16,
    pub par_p10: u8,
    // Humidity coefficients
    pub par_h1: u16,
    pub par_h2: u16,
    pub par_h3: i8,
    pub par_h4: i8,
    pub par_h5: i8,
    pub par_h6: u8,
    pub par_h7: i8,
    // Gas heater coefficients
    pub par_gh1: i8,
    pub par_gh2: i16,
    pub par_gh3: i8,
    // Other corrections
    pub res_heat_range: u8,
    pub res_heat_val: i8,
    pub range_sw_err: i8,
}

/// The coefficients named by the documented byte offsets within the
/// 42-byte concatenation of the three calibration register ranges.
pub open spec fn spec_calibration(b: Seq<u8>) -> CalibrationData
    recommends
        b.len() == 42,
{
    CalibrationData {
        par_t1: word_be(b[32], b[31]) as u16,
        par_t2: signed_word_be(b[1], b[0]) as i16,
        par_t3: signed_byte(b[2]) as i8,
        par_p1: word_be(b[5], b[4]) as u16,
        par_p2: signed_word_be(b[7], b[6]) as i16,
        par_p3: signed_byte(b[8]) as i8,
        par_p4: signed_word_be(b[11], b[10]) as i16,
        par_p5: signed_word_be(b[13], b[12]) as i16,
        // p6 and p7 are stored swapped relative to their numbering
        par_p6: signed_byte(b[15]) as i8,
        par_p7: signed_byte(b[14]) as i8,
        par_p8: signed_word_be(b[19], b[18]) as i16,
        par_p9: signed_word_be(b[21], b[20]) as i16,
        par_p10: b[22],
        // h1 and h2 share byte 24: h1 takes its low nibble, h2 its high one
        par_h1: (b[25] * 16 + b[24] % 16) as u16,
        par_h2: (b[23] * 16 + b[24] / 16) as u16,
        par_h3: signed_byte(b[26]) as i8,
        par_h4: signed_byte(b[27]) as i8,
        par_h5: signed_byte(b[28]) as i8,
        par_h6: b[29],
        par_h7: signed_byte(b[30]) as i8,
        par_gh1: signed_byte(b[35]) as i8,
        par_gh2: signed_word_be(b[34], b[33]) as i16,
        par_gh3: signed_byte(b[36]) as i8,
        res_heat_range: (b[39] / 16) % 4,
        res_heat_val: signed_byte(b[37]) as i8,
        range_sw_err: (signed_byte(b[41]) / 16) as i8,
    }
}

proof fn lemma_word_be_shl(hi: u8, lo: u8)
    by (bit_vector)
    ensures
        (((hi as u16) << 8) | (lo as u16)) == hi * 256 + lo,
{
}

proof fn lemma_u16_as_i16(w: u16)
    by (bit_vector)
    ensures
        w >= 0x8000 ==> (w as i16) == w - 0x10000,
        w < 0x8000 ==> (w as i16) == w as int,
{
}

proof fn lemma_u8_as_i8(b: u8)
    by (bit_vector)
    ensures
        b >= 0x80 ==> (b as i8) == b - 0x100,
        b < 0x80 ==> (b as i8) == b as int,
{
}

proof fn lemma_h1_nibbles(hi: u8, lo: u8)
    by (bit_vector)
    ensures
        (((hi as u16) << 4) | ((lo as u16) & 0x0F)) == hi * 16 + lo % 16,
        (((hi as u16) << 4) | ((lo as u16) >> 4)) == hi * 16 + lo / 16,
{
}

proof fn lemma_heat_range_mask(b: u8)
    by (bit_vector)
    ensures
        (b & 0x30) / 16 == (b / 16) % 4,
{
}

proof fn lemma_top_nibble_shift(b: u8)
    by (bit_vector)
    ensures
        b >> 4 == b / 16,
        b >> 4 < 16,
{
}

/// The signed top nibble of a byte equals the floor division of its
/// signed value by 16.
proof fn lemma_signed_top_nibble(b: u8)
    ensures
        b / 16 < 8 ==> signed_byte(b) / 16 == b / 16,
        b / 16 >= 8 ==> signed_byte(b) / 16 == b / 16 - 16,
{
    if b >= 0x80 {
        assert(signed_byte(b) == b - 0x100);
        assert((b - 0x100) / 16 == b / 16 - 16) by (nonlinear_arith);
        assert(b / 16 >= 8) by (nonlinear_arith)
            requires
                b >= 0x80,
        ;
    } else {
        assert(b / 16 < 8) by (nonlinear_arith)
            requires
                b < 0x80,
        ;
    }
}

/// Builds a signed 16-bit coefficient from its high and low byte.
fn signed_word(hi: u8, lo: u8) -> (r: i16)
    ensures
        r == signed_word_be(hi, lo),
{
    let w: u16 = ((hi as u16) << 8) | (lo as u16);
    proof {
        lemma_word_be_shl(hi, lo);
        lemma_u16_as_i16(w);
    }
    w as i16
}

/// Builds an unsigned 16-bit coefficient from its high and low byte.
fn unsigned_word(hi: u8, lo: u8) -> (r: u16)
    ensures
        r == word_be(hi, lo),
{
    proof {
        lemma_word_be_shl(hi, lo);
    }
    ((hi as u16) << 8) | (lo as u16)
}

/// Builds a signed 8-bit coefficient from its byte.
fn signed(b: u8) -> (r: i8)
    ensures
        r == signed_byte(b),
{
    proof {
        lemma_u8_as_i8(b);
    }
    b as i8
}

/// Slices the named calibration coefficients out of the 42-byte
/// concatenation of the three calibration register ranges, at their
/// documented byte offsets.
pub fn extract_calibration_data(coeff_buffer: [u8; 42]) -> (r: CalibrationData)
    ensures
        r == spec_calibration(coeff_buffer@),
{
    let par_t1 = unsigned_word(coeff_buffer[32], coeff_buffer[31]);
    let par_t2 = signed_word(coeff_buffer[1], coeff_buffer[0]);
    let par_t3 = signed(coeff_buffer[2]);

    let par_p1 = unsigned_word(coeff_buffer[5], coeff_buffer[4]);
    let par_p2 = signed_word(coeff_buffer[7], coeff_buffer[6]);
    let par_p3 = signed(coeff_buffer[8]);
    let par_p4 = signed_word(coeff_buffer[11], coeff_buffer[10]);
    let par_p5 = signed_word(coeff_buffer[13], coeff_buffer[12]);

    // p6 and p7 are stored swapped relative to their numbering
    let par_p6 = signed(coeff_buffer[15]);
    let par_p7 = signed(coeff_buffer[14]);

    let par_p8 = signed_word(coeff_buffer[19], coeff_buffer[18]);
    let par_p9 = signed_word(coeff_buffer[21], coeff_buffer[20]);
    let par_p10 = coeff_buffer[22];

    // h1 and h2 share byte 24 with different masks
    let par_h1: u16 = ((coeff_buffer[25] as u16) << 4) | ((coeff_buffer[24] as u16) & 0x0F);
    let par_h2: u16 = ((coeff_buffer[23] as u16) << 4) | ((coeff_buffer[24] as u16) >> 4);
    proof {
        lemma_h1_nibbles(coeff_buffer@[25], coeff_buffer@[24]);
        lemma_h1_nibbles(coeff_buffer@[23], coeff_buffer@[24]);
    }
    let par_h3 = signed(coeff_buffer[26]);
    let par_h4 = signed(coeff_buffer[27]);
    let par_h5 = signed(coeff_buffer[28]);
    let par_h6 = coeff_buffer[29];
    let par_h7 = signed(coeff_buffer[30]);

    let par_gh1 = signed(coeff_buffer[35]);
    let par_gh2 = signed_word(coeff_buffer[34], coeff_buffer[33]);
    let par_gh3 = signed(coeff_buffer[36]);

    let res_heat_range = (coeff_buffer[39] & 0x30) / 16;
    proof {
        lemma_heat_range_mask(coeff_buffer@[39]);
    }
    let res_heat_val = signed(coeff_buffer[37]);
    let top_nibble = coeff_buffer[41] >> 4;
    proof {
        lemma_top_nibble_shift(coeff_buffer@[41]);
        lemma_signed_top_nibble(coeff_buffer@[41]);
    }
    let range_sw_err: i8 = if top_nibble >= 8 {
        (top_nibble as i8) - 16
    } else {
        top_nibble as i8
    };

    CalibrationData {
        par_t1,
        par_t2,
        par_t3,
        par_p1,
        par_p2,
        par_p3,
        par_p4,
        par_p5,
        par_p6,
        par_p7,
        par_p8,
        par_p9,
        par_p10,
        par_h1,
        par_h2,
        par_h3,
        par_h4,
        par_h5,
        par_h6,
        par_h7,
        par_gh1,
        par_gh2,
        par_gh3,
        res_heat_range,
        res_heat_val,
        range_sw_err,
    }
}

/// One gas conversion slot of a measurement frame that was marked valid.
#[derive(Clone, Copy, Debug, PartialEq, Eq, Structural)]
pub struct GasRawData {
    /// 10-bit gas resistance ADC value.
    pub gas_adc: u16,
    /// 4-bit gas range index.
    pub gas_range: u8,
}

/// The integer content of one fresh measurement frame: the raw ADC values
/// that the calibration formulas turn into physical quantities.
#[derive(Clone, Copy, Debug, PartialEq, Eq, Structural)]
pub struct RawMeasurement {
    /// 20-bit temperature ADC value.
    pub temperature_adc: u32,
    /// 20-bit pressure ADC value.
    pub pressure_adc: u32,
    /// 16-bit humidity ADC value.
    pub humidity_adc: u16,
    /// The gas slot, present only when the frame marked it valid and not
    /// still converting.
    pub gas: Option<GasRawData>,
}

/// A frame offers data when it is not in the middle of a conversion
/// without fresh data.
pub open spec fn spec_frame_fresh(b: Seq<u8>) -> bool
    recommends
        b.len() == 15,
{
    !(crate::bitfields::spec_bit(b[0], 5) && !crate::bitfields::spec_bit(b[0], 7))
}

/// The gas slot counts only when the frame marks it valid and the gas
/// conversion is over.
pub open spec fn spec_gas_present(b: Seq<u8>) -> bool
    recommends
        b.len() == 15,
{
    crate::bitfields::spec_bit(b[14], 5) && !crate::bitfields::spec_bit(b[0], 6)
}

/// The raw ADC content of a measurement frame.
pub open spec fn spec_raw_measurement(b: Seq<u8>) -> RawMeasurement
    recommends
        b.len() == 15,
{
    RawMeasurement {
        temperature_adc: crate::bitfields::spec_adc20(b[5], b[6], b[7]),
        pressure_adc: crate::bitfields::spec_adc20(b[2], b[3], b[4]),
        humidity_adc: crate::bitfields::spec_adc16(b[8], b[9]),
        gas: if spec_gas_present(b) {
            Some(
                GasRawData {
                    gas_adc: crate::bitfields::spec_adc10(b[13], b[14]),
                    gas_range: (b[14] & 0x0F) as u8,
                },
            )
        } else {
            None
        },
    }
}

impl RawMeasurement {
    /// Reads the raw ADC values out of a measurement frame, or nothing if
    /// the frame reports a conversion still in progress without fresh
    /// data.
    pub fn from_raw(raw_data: &RawData) -> (r: Option<RawMeasurement>)
        ensures
            spec_frame_fresh(raw_data.0@) ==> r == Some(spec_raw_measurement(raw_data.0@)),
            !spec_frame_fresh(raw_data.0@) ==> r is None,
    {
        if raw_data.measuring() && !raw_data.new_data() {
            return None;
        }
        let gas = if raw_data.gas_valid() && !raw_data.gas_measuring() {
            Some(GasRawData { gas_adc: raw_data.gas_adc().0, gas_range: raw_data.gas_range() })
        } else {
            None
        };
        Some(
            RawMeasurement {
                temperature_adc: raw_data.temperature_adc().0,
                pressure_adc: raw_data.pressure_adc().0,
                humidity_adc: raw_data.humidity_adc().0,
                gas,
            },
        )
    }
}

} // verus!
