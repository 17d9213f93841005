use vstd::prelude::*;

verus! {

/// Register that triggers a soft reset when written with `CMD_SOFT_RESET`.
pub const ADDR_SOFT_RESET: u8 = 0xE0;

/// Command byte that performs a soft reset.
pub const CMD_SOFT_RESET: u8 = 0xB6;

/// Read-only register holding the chip identifier.
pub const ADDR_CHIP_ID: u8 = 0xD0;

/// Expected chip identifier.
pub const CHIP_ID: u8 = 0x61;

/// Read-only register holding the silicon variant identifier.
pub const ADDR_VARIANT_ID: u8 = 0xF0;

/// First register of the 5-byte configuration block (0x71..=0x75).
pub const ADDR_CONFIG: u8 = 0x71;

/// Length of the configuration block in bytes.
pub const LEN_CONFIG: usize = 5;

/// Control register holding the mode bits (last byte but one of the block).
pub const ADDR_CONTROL_MODE: u8 = 0x74;

/// Heater-on duration register for heater profile 0.
pub const ADDR_GAS_WAIT_0: u8 = 0x64;

/// Heater resistance register for heater profile 0.
pub const ADDR_RES_HEAT_0: u8 = 0x5A;

/// First register of the 15-byte measurement result block.
pub const ADDR_SENSOR_RESULT: u8 = 0x1D;

/// First calibration coefficient register range.
pub const ADDR_REG_COEFF1: u8 = 0x8A;

/// Second calibration coefficient register range.
pub const ADDR_REG_COEFF2: u8 = 0xE1;

/// Third calibration coefficient register range.
pub const ADDR_REG_COEFF3: u8 = 0x00;

/// Length in bytes of the first calibration coefficient range.
pub const LEN_COEFF1: usize = 23;

/// Length in bytes of the second calibration coefficient range.
pub const LEN_COEFF2: usize = 14;

/// Length in bytes of the third calibration coefficient range.
pub const LEN_COEFF3: usize = 5;

/// Total length of the concatenated calibration coefficient buffer.
pub const LEN_COEFF_ALL: usize = 42;

/// Settle period in microseconds used after a soft reset and after a
/// sleep-mode write.
pub const DELAY_PERIOD_US: u32 = 10000;

/// Duration of one oversampling cycle in microseconds.
pub const CYCLE_DURATION_US: u32 = 1963;

/// Fixed duration of switching between temperature, pressure and humidity
/// conversions, in microseconds.
pub const TPH_SWITCHING_DURATION_US: u32 = 1908;

/// Fixed duration of the gas measurement slot, in microseconds.
pub const GAS_MEASUREMENT_DURATION_US: u32 = 2385;

/// Fixed wake-up duration, in microseconds.
pub const WAKEUP_DURATION_US: u32 = 1000;

/// Heater-on durations at or above this many milliseconds saturate the
/// encoded `gas_wait` byte to its maximum.
pub const MAX_HEATER_WAIT_DURATION_MS: u16 = 0xFFF;

/// Heater target temperatures above this many degrees Celsius are capped.
pub const MAX_HEATER_TEMPERATURE: u16 = 400;

/// Bound on the magnitude of the ambient temperature fed into the heater
/// resistance computation, so that its fixed-point arithmetic cannot
/// overflow.
pub const MAX_ABS_AMBIENT_TEMPERATURE: i32 = 0x800000;

} // verus!
