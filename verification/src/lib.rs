//! Register-level driver core for the BME680 environmental sensor: the
//! bit-packed register codec, the calibration coefficient extraction, the
//! heater register encodings, and the power/measurement state machine,
//! all specified over a ghost log of the bus transactions they issue.

use vstd::prelude::*;

pub mod bitfields;
pub mod config;
pub mod constants;
pub mod data;
pub mod error;
pub mod i2c_helper;

pub use bitfields::{GasADC, GasWaitDuration, Humidity, Measurment, RawConfig, RawData};
pub use config::{
    ConfigBuilder, Configuration, DeviceAddress, GasConfig, HeaterProfile, IIRFilter,
    Oversampling, SensorMode, Variant,
};
pub use data::{extract_calibration_data, CalibrationData, GasRawData, RawMeasurement};
pub use error::{BmeError, TransportError};
pub use i2c_helper::{BusOp, BusView, I2CHelper};

use config::spec_delay_period_us;
use constants::{ADDR_REG_COEFF1, ADDR_REG_COEFF2, ADDR_REG_COEFF3, ADDR_SENSOR_RESULT,
    ADDR_VARIANT_ID, MAX_ABS_AMBIENT_TEMPERATURE};
use data::{spec_calibration, spec_frame_fresh, spec_raw_measurement};
use i2c_helper::{same_device, spec_init_ops, spec_mode_set_timeout, spec_set_config_ops, spec_set_mode_ops};

verus! {

/// The polling transactions of stale measurement frames: each frame read
/// from the result block is followed by one waiting period, because it
/// reported a conversion still in progress.
pub open spec fn spec_stale_polls(frames: Seq<Seq<u8>>, period_us: u32) -> Seq<BusOp>
    decreases frames.len(),
{
    if frames.len() == 0 {
        Seq::empty()
    } else {
        seq![BusOp::Read(ADDR_SENSOR_RESULT, frames[0]), BusOp::DelayUs(period_us)]
            + spec_stale_polls(frames.skip(1), period_us)
    }
}

proof fn lemma_stale_polls_push(frames: Seq<Seq<u8>>, f: Seq<u8>, period_us: u32)
    ensures
        spec_stale_polls(frames.push(f), period_us) == spec_stale_polls(frames, period_us)
            + seq![BusOp::Read(ADDR_SENSOR_RESULT, f), BusOp::DelayUs(period_us)],
    decreases frames.len(),
{
    if frames.len() == 0 {
        let p = frames.push(f);
        assert(p.len() == 1);
        assert(p[0] == f);
        assert(p.skip(1) =~= frames);
        assert(spec_stale_polls(frames, period_us) =~= Seq::<BusOp>::empty());
        assert(spec_stale_polls(p, period_us) =~= seq![
            BusOp::Read(ADDR_SENSOR_RESULT, f),
            BusOp::DelayUs(period_us),
        ] + spec_stale_polls(frames, period_us));
        assert(spec_stale_polls(frames.push(f), period_us) =~= spec_stale_polls(frames, period_us)
            + seq![BusOp::Read(ADDR_SENSOR_RESULT, f), BusOp::DelayUs(period_us)]);
    } else {
        assert(frames.push(f).skip(1) =~= frames.skip(1).push(f));
        lemma_stale_polls_push(frames.skip(1), f, period_us);
        assert(spec_stale_polls(frames.push(f), period_us) =~= spec_stale_polls(frames, period_us)
            + seq![BusOp::Read(ADDR_SENSOR_RESULT, f), BusOp::DelayUs(period_us)]);
    }
}

/// A measurement that gave up polling: the device was forced, the waiting
/// period spent, and all five polled frames reported a conversion still in
/// progress without fresh data.
pub open spec fn spec_poll_timeout(pre: Seq<BusOp>, post: Seq<BusOp>, period_us: u32) -> bool {
    exists|reads: Seq<u8>, last: u8, stales: Seq<Seq<u8>>|
        {
            &&& (forall|i: int| 0 <= i < reads.len() ==> (#[trigger] reads[i]) & 3 != 0)
            &&& last & 3 == 0
            &&& stales.len() == 5
            &&& (forall|i: int| 0 <= i < stales.len() ==> !spec_frame_fresh(#[trigger] stales[i]))
            &&& post == pre + #[trigger] spec_set_mode_ops(reads, last, SensorMode::Forced)
                + seq![BusOp::DelayUs(period_us)] + #[trigger] spec_stale_polls(stales, period_us)
        }
}

/// Ghost state of a driver instance: the bus adapter state, the fixed
/// calibration data and silicon variant, and the configuration the device
/// currently runs under.
pub struct DriverView {
    pub bus: BusView,
    pub calibration_data: CalibrationData,
    pub current_sensor_config: Configuration,
    pub variant: Variant,
}

/// Driver for the sensor: owns the bus adapter, the calibration data read
/// at bring-up, the silicon variant, and the configuration last applied.
pub struct Bme680<I2C, D> {
    i2c: I2CHelper<I2C, D>,
    calibration_data: CalibrationData,
    current_sensor_config: Configuration,
    variant: Variant,
}

impl<I2C, D> View for Bme680<I2C, D> {
    type V = DriverView;

    closed spec fn view(&self) -> DriverView {
        DriverView {
            bus: self.i2c@,
            calibration_data: self.calibration_data,
            current_sensor_config: self.current_sensor_config,
            variant: self.variant,
        }
    }
}

impl<I2C, D> Bme680<I2C, D> where
    I2C: embedded_hal::i2c::I2c<embedded_hal::i2c::SevenBitAddress>,
    D: embedded_hal::delay::DelayNs,
 {
    /// The ambient-temperature feedback value stays within the bound that
    /// keeps the heater-resistance fixed-point chain free of overflow.
    pub open spec fn wf(self) -> bool {
        -MAX_ABS_AMBIENT_TEMPERATURE <= self@.bus.ambient_temperature
            <= MAX_ABS_AMBIENT_TEMPERATURE
    }

    /// Brings the sensor up eagerly: soft reset, chip-id check,
    /// calibration download, application of the initial configuration,
    /// and variant read. The returned driver is ready to measure, with
    /// the device left in Sleep.
    pub fn new(
        i2c_interface: I2C,
        device_address: DeviceAddress,
        delayer: D,
        sensor_config: &Configuration,
        ambient_temperature: i32,
    ) -> (r: Result<Self, BmeError<TransportError>>)
        requires
            -MAX_ABS_AMBIENT_TEMPERATURE <= ambient_temperature <= MAX_ABS_AMBIENT_TEMPERATURE,
        ensures
            match r {
                Ok(b) => {
                    &&& b.wf()
                    &&& b@.bus.address == device_address.spec_value()
                    &&& b@.bus.ambient_temperature == ambient_temperature
                    &&& b@.current_sensor_config == *sensor_config
                    &&& exists|d1: Seq<u8>, d2: Seq<u8>, d3: Seq<u8>, cur: Seq<u8>|
                        #![auto]
                        {
                            &&& d1.len() == 23
                            &&& d2.len() == 14
                            &&& d3.len() == 5
                            &&& cur.len() == 5
                            &&& b@.calibration_data == spec_calibration(d1 + d2 + d3)
                            &&& b@.bus.log == spec_init_ops() + seq![
                                BusOp::Read(ADDR_REG_COEFF1, d1),
                                BusOp::Read(ADDR_REG_COEFF2, d2),
                                BusOp::Read(ADDR_REG_COEFF3, d3),
                            ] + spec_set_config_ops(
                                cur,
                                *sensor_config,
                                spec_calibration(d1 + d2 + d3),
                                ambient_temperature as int,
                            ) + seq![BusOp::Read(ADDR_VARIANT_ID, seq![b@.variant.spec_value()])]
                        }
                },
                Err(e) => {
                    &&& e matches BmeError::UnexpectedChipId(id) ==> id != constants::CHIP_ID
                    &&& e matches BmeError::InvalidVariantByte(vb) ==> vb >= 2
                    &&& !(e is MeasuringTimeOut) && !(e is Uninitialized)
                },
            },
    {
        let mut i2c = match I2CHelper::new(
            i2c_interface,
            device_address,
            delayer,
            ambient_temperature,
        ) {
            Ok(h) => h,
            Err(e) => {
                return Err(e);
            },
        };
        let calibration_data = match i2c.get_calibration_data() {
            Ok(cal) => cal,
            Err(e) => {
                return Err(e);
            },
        };
        match i2c.set_config(sensor_config, &calibration_data) {
            Ok(_) => (),
            Err(e) => {
                return Err(e);
            },
        }
        let variant = match i2c.get_variant_id() {
            Ok(v) => v,
            Err(e) => {
                return Err(e);
            },
        };
        let bme = Self { i2c, calibration_data, current_sensor_config: *sensor_config, variant };
        Ok(bme)
    }

    /// Returns the wrapped bus handle, discarding all driver state.
    pub fn into_inner(self) -> I2C {
        self.i2c.into_inner()
    }

    /// Puts the device to sleep, forcing it out of a running forced-mode
    /// conversion first if necessary.
    pub fn put_to_sleep(&mut self) -> (r: Result<(), BmeError<TransportError>>)
        requires
            old(self).wf(),
        ensures
            final(self).wf(),
            same_device(old(self)@.bus, final(self)@.bus),
            final(self)@.calibration_data == old(self)@.calibration_data,
            final(self)@.current_sensor_config == old(self)@.current_sensor_config,
            final(self)@.variant == old(self)@.variant,
            match r {
                Ok(()) => exists|reads: Seq<u8>, last: u8|
                    {
                        &&& reads.len() <= 4
                        &&& (forall|i: int| 0 <= i < reads.len() ==> (#[trigger] reads[i]) & 3 != 0)
                        &&& last & 3 == 0
                        &&& final(self)@.bus.log == old(self)@.bus.log
                            + #[trigger] spec_set_mode_ops(reads, last, SensorMode::Sleep)
                    },
                Err(e) => {
                    &&& e is WriteError || e is WriteReadError || e is MeasuringTimeOut
                    &&& e is MeasuringTimeOut ==> spec_mode_set_timeout(
                        old(self)@.bus.log,
                        final(self)@.bus.log,
                    )
                },
            },
    {
        self.i2c.set_mode(SensorMode::Sleep)
    }

    /// Applies a new configuration: forces the device to Sleep, merges
    /// and writes the configuration registers, and stores the
    /// configuration as the one delay periods are computed from.
    pub fn set_configuration(&mut self, config: &Configuration) -> (r: Result<
        (),
        BmeError<TransportError>,
    >)
        requires
            old(self).wf(),
        ensures
            final(self).wf(),
            same_device(old(self)@.bus, final(self)@.bus),
            final(self)@.calibration_data == old(self)@.calibration_data,
            final(self)@.variant == old(self)@.variant,
            match r {
                Ok(()) => {
                    &&& final(self)@.current_sensor_config == *config
                    &&& exists|reads: Seq<u8>, last: u8, cur: Seq<u8>|
                        #![auto]
                        {
                            &&& (forall|i: int|
                                0 <= i < reads.len() ==> (#[trigger] reads[i]) & 3 != 0)
                            &&& last & 3 == 0
                            &&& cur.len() == 5
                            &&& final(self)@.bus.log == old(self)@.bus.log + spec_set_mode_ops(
                                reads,
                                last,
                                SensorMode::Sleep,
                            ) + spec_set_config_ops(
                                cur,
                                *config,
                                old(self)@.calibration_data,
                                old(self)@.bus.ambient_temperature as int,
                            )
                        }
                },
                Err(e) => {
                    &&& e is WriteError || e is WriteReadError || e is MeasuringTimeOut
                    &&& final(self)@.current_sensor_config == old(self)@.current_sensor_config
                    &&& e is MeasuringTimeOut ==> spec_mode_set_timeout(
                        old(self)@.bus.log,
                        final(self)@.bus.log,
                    )
                },
            },
    {
        match self.put_to_sleep() {
            Ok(()) => (),
            Err(e) => {
                return Err(e);
            },
        }
        match self.i2c.set_config(config, &self.calibration_data) {
            Ok(_) => (),
            Err(e) => {
                return Err(e);
            },
        }
        // The stored configuration feeds the delay-period computation of
        // later measurements.
        self.current_sensor_config = *config;
        Ok(())
    }

    /// Triggers one forced measurement and polls for its raw result: the
    /// device is put into Forced mode, the configuration-derived waiting
    /// period is spent, and the result block is read up to five times,
    /// waiting again after every frame that still reports a running
    /// conversion. Fails with a timeout when no fresh frame appears.
    pub fn measure_raw(&mut self) -> (r: Result<RawMeasurement, BmeError<TransportError>>)
        requires
            old(self).wf(),
        ensures
            final(self).wf(),
            same_device(old(self)@.bus, final(self)@.bus),
            final(self)@.calibration_data == old(self)@.calibration_data,
            final(self)@.current_sensor_config == old(self)@.current_sensor_config,
            final(self)@.variant == old(self)@.variant,
            match r {
                Ok(m) => exists|reads: Seq<u8>, last: u8, stales: Seq<Seq<u8>>, frame: Seq<u8>|
                    #![auto]
                    {
                        &&& (forall|i: int| 0 <= i < reads.len() ==> (#[trigger] reads[i]) & 3 != 0)
                        &&& last & 3 == 0
                        &&& stales.len() <= 4
                        &&& (forall|i: int|
                            0 <= i < stales.len() ==> !spec_frame_fresh(#[trigger] stales[i]))
                        &&& frame.len() == 15
                        &&& spec_frame_fresh(frame)
                        &&& m == spec_raw_measurement(frame)
                        &&& final(self)@.bus.log == old(self)@.bus.log + spec_set_mode_ops(
                            reads,
                            last,
                            SensorMode::Forced,
                        ) + seq![
                            BusOp::DelayUs(
                                spec_delay_period_us(old(self)@.current_sensor_config) as u32,
                            ),
                        ] + spec_stale_polls(
                            stales,
                            spec_delay_period_us(old(self)@.current_sensor_config) as u32,
                        ) + seq![BusOp::Read(ADDR_SENSOR_RESULT, frame)]
                    },
                Err(e) => {
                    &&& e is WriteError || e is WriteReadError || e is MeasuringTimeOut
                    &&& e is MeasuringTimeOut ==> spec_mode_set_timeout(
                        old(self)@.bus.log,
                        final(self)@.bus.log,
                    ) || spec_poll_timeout(
                        old(self)@.bus.log,
                        final(self)@.bus.log,
                        spec_delay_period_us(old(self)@.current_sensor_config) as u32,
                    )
                },
            },
    {
        match self.i2c.set_mode(SensorMode::Forced) {
            Ok(()) => (),
            Err(e) => {
                return Err(e);
            },
        }
        let delay_period = self.current_sensor_config.calculate_delay_period_us();
        let ghost log_after_forced = self.i2c@.log;
        self.i2c.delay(delay_period);
        let ghost mut stales: Seq<Seq<u8>> = Seq::empty();
        proof {
            assert(self.i2c@.log =~= log_after_forced + seq![BusOp::DelayUs(delay_period)]
                + spec_stale_polls(stales, delay_period));
        }
        let mut tries: usize = 0;
        while tries < 5
            invariant
                old(self).wf(),
                same_device(old(self)@.bus, self.i2c@),
                self.calibration_data == old(self)@.calibration_data,
                self.current_sensor_config == old(self)@.current_sensor_config,
                self.variant == old(self)@.variant,
                delay_period == spec_delay_period_us(old(self)@.current_sensor_config),
                tries <= 5,
                stales.len() == tries,
                forall|i: int| 0 <= i < stales.len() ==> !spec_frame_fresh(#[trigger] stales[i]),
                forall|i: int| 0 <= i < stales.len() ==> (#[trigger] stales[i]).len() == 15,
                self.i2c@.log == log_after_forced + seq![BusOp::DelayUs(delay_period)]
                    + spec_stale_polls(stales, delay_period),
                exists|reads: Seq<u8>, last: u8|
                    {
                        &&& reads.len() <= 4
                        &&& (forall|i: int| 0 <= i < reads.len() ==> (#[trigger] reads[i]) & 3 != 0)
                        &&& last & 3 == 0
                        &&& log_after_forced == old(self)@.bus.log + #[trigger] spec_set_mode_ops(
                            reads,
                            last,
                            SensorMode::Forced,
                        )
                    },
            decreases 5 - tries,
        {
            let raw_data = match self.i2c.get_field_data() {
                Ok(d) => d,
                Err(e) => {
                    return Err(e);
                },
            };
            match RawMeasurement::from_raw(&raw_data) {
                Some(data) => {
                    return Ok(data);
                },
                None => {
                    self.i2c.delay(delay_period);
                    proof {
                        lemma_stale_polls_push(stales, raw_data.0@, delay_period);
                        stales = stales.push(raw_data.0@);
                        assert(self.i2c@.log =~= log_after_forced + seq![
                            BusOp::DelayUs(delay_period),
                        ] + spec_stale_polls(stales, delay_period));
                    }
                    tries = tries + 1;
                },
            }
        }
        proof {
            let (reads, last) = choose|reads: Seq<u8>, last: u8|
                {
                    &&& reads.len() <= 4
                    &&& (forall|i: int| 0 <= i < reads.len() ==> (#[trigger] reads[i]) & 3 != 0)
                    &&& last & 3 == 0
                    &&& log_after_forced == old(self)@.bus.log + #[trigger] spec_set_mode_ops(
                        reads,
                        last,
                        SensorMode::Forced,
                    )
                };
            assert(self.i2c@.log == old(self)@.bus.log + spec_set_mode_ops(
                reads,
                last,
                SensorMode::Forced,
            ) + seq![BusOp::DelayUs(delay_period)] + spec_stale_polls(stales, delay_period)) by {
                assert(self.i2c@.log =~= old(self)@.bus.log + spec_set_mode_ops(
                    reads,
                    last,
                    SensorMode::Forced,
                ) + seq![BusOp::DelayUs(delay_period)] + spec_stale_polls(stales, delay_period));
            }
        }
        Err(BmeError::MeasuringTimeOut)
    }

    /// The silicon variant read from the device at bring-up.
    pub fn variant(&self) -> (r: Variant)
        ensures
            r == self@.variant,
    {
        self.variant
    }

    /// The calibration data read from the device at bring-up.
    pub fn get_calibration_data(&self) -> (r: &CalibrationData)
        ensures
            *r == self@.calibration_data,
    {
        &self.calibration_data
    }

    /// Replaces the ambient-temperature feedback value, normally with the
    /// temperature of the most recent successful measurement.
    pub fn set_ambient_temperature(&mut self, ambient_temperature: i32)
        requires
            -MAX_ABS_AMBIENT_TEMPERATURE <= ambient_temperature <= MAX_ABS_AMBIENT_TEMPERATURE,
        ensures
            final(self).wf(),
            final(self)@.bus.address == old(self)@.bus.address,
            final(self)@.bus.log == old(self)@.bus.log,
            final(self)@.bus.ambient_temperature == ambient_temperature,
            final(self)@.calibration_data == old(self)@.calibration_data,
            final(self)@.current_sensor_config == old(self)@.current_sensor_config,
            final(self)@.variant == old(self)@.variant,
    {
        self.i2c.set_ambient_temperature(ambient_temperature);
    }
}

} // verus!
