use vstd::prelude::*;

use crate::bitfields::{spec_apply_config, RawConfig, RawData};
use crate::config::{
    spec_gas_wait, spec_res_heat, Configuration, DeviceAddress, GasConfig, SensorMode, Variant,
};
use crate::constants::{
    ADDR_CHIP_ID, ADDR_CONFIG, ADDR_CONTROL_MODE, ADDR_GAS_WAIT_0, ADDR_REG_COEFF1,
    ADDR_REG_COEFF2, ADDR_REG_COEFF3, ADDR_RES_HEAT_0, ADDR_SENSOR_RESULT, ADDR_SOFT_RESET,
    ADDR_VARIANT_ID, CHIP_ID, CMD_SOFT_RESET, DELAY_PERIOD_US, MAX_ABS_AMBIENT_TEMPERATURE,
};
use crate::data::{spec_calibration, CalibrationData};
use crate::error::{BmeError, TransportError};

verus! {

/// One bus transaction, as recorded in the ghost transaction log of the
/// bus adapter. The log is the mathematical trace the contracts of the
/// driver are stated over.
pub enum BusOp {
    /// A single register write: register address, value written.
    Write(u8, u8),
    /// A write-then-read transaction returning `data`, starting at the
    /// given register address.
    Read(u8, Seq<u8>),
    /// A pause of the given number of microseconds.
    DelayUs(u32),
}

/// Ghost state of the bus adapter: the device address it talks to, the
/// ambient-temperature feedback scalar, and the transaction log.
pub struct BusView {
    pub address: u8,
    pub ambient_temperature: i32,
    pub log: Seq<BusOp>,
}

/// Whether two adapter states belong to the same device with the same
/// ambient-temperature feedback: everything but the transaction log.
pub open spec fn same_device(a: BusView, b: BusView) -> bool {
    a.address == b.address && a.ambient_temperature == b.ambient_temperature
}

/// The bus transport adapter: the only component that issues register
/// transactions. It owns the bus and delay handles, the device address,
/// and the ambient temperature fed into the heater-target computation.
pub struct I2CHelper<I2C, D> {
    i2c_interface: I2C,
    address: u8,
    delayer: D,
    ambient_temperature: i32,
    log: Ghost<Seq<BusOp>>,
}

impl<I2C, D> View for I2CHelper<I2C, D> {
    type V = BusView;

    closed spec fn view(&self) -> BusView {
        BusView {
            address: self.address,
            ambient_temperature: self.ambient_temperature,
            log: self.log@,
        }
    }
}

/// The transactions a successful bring-up issues: soft reset, settle
/// delay, and a chip-id read answering the expected chip id.
pub open spec fn spec_init_ops() -> Seq<BusOp> {
    seq![
        BusOp::Write(ADDR_SOFT_RESET, CMD_SOFT_RESET),
        BusOp::DelayUs(DELAY_PERIOD_US),
        BusOp::Read(ADDR_CHIP_ID, seq![CHIP_ID]),
    ]
}

/// The transactions of one round of putting the device to sleep: reading
/// the control register (answering `b`, whose mode bits are not Sleep),
/// writing the same byte with the mode bits cleared, and a settle delay.
pub open spec fn spec_sleep_attempts(reads: Seq<u8>) -> Seq<BusOp>
    decreases reads.len(),
{
    if reads.len() == 0 {
        Seq::empty()
    } else {
        seq![
            BusOp::Read(ADDR_CONTROL_MODE, seq![reads[0]]),
            BusOp::Write(ADDR_CONTROL_MODE, reads[0] & 0xFC),
            BusOp::DelayUs(DELAY_PERIOD_US),
        ] + spec_sleep_attempts(reads.skip(1))
    }
}

proof fn lemma_sleep_attempts_push(reads: Seq<u8>, b: u8)
    ensures
        spec_sleep_attempts(reads.push(b)) == spec_sleep_attempts(reads) + seq![
            BusOp::Read(ADDR_CONTROL_MODE, seq![b]),
            BusOp::Write(ADDR_CONTROL_MODE, b & 0xFC),
            BusOp::DelayUs(DELAY_PERIOD_US),
        ],
    decreases reads.len(),
{
    if reads.len() == 0 {
        let p = reads.push(b);
        assert(p.len() == 1);
        assert(p[0] == b);
        assert(p.skip(1) =~= reads);
        assert(spec_sleep_attempts(reads) =~= Seq::<BusOp>::empty());
        assert(spec_sleep_attempts(p) =~= seq![
            BusOp::Read(ADDR_CONTROL_MODE, seq![b]),
            BusOp::Write(ADDR_CONTROL_MODE, b & 0xFC),
            BusOp::DelayUs(DELAY_PERIOD_US),
        ] + spec_sleep_attempts(reads));
        assert(spec_sleep_attempts(reads.push(b)) =~= spec_sleep_attempts(reads) + seq![
            BusOp::Read(ADDR_CONTROL_MODE, seq![b]),
            BusOp::Write(ADDR_CONTROL_MODE, b & 0xFC),
            BusOp::DelayUs(DELAY_PERIOD_US),
        ]);
    } else {
        assert(reads.push(b).skip(1) =~= reads.skip(1).push(b));
        lemma_sleep_attempts_push(reads.skip(1), b);
        assert(spec_sleep_attempts(reads.push(b)) =~= spec_sleep_attempts(reads) + seq![
            BusOp::Read(ADDR_CONTROL_MODE, seq![b]),
            BusOp::Write(ADDR_CONTROL_MODE, b & 0xFC),
            BusOp::DelayUs(DELAY_PERIOD_US),
        ]);
    }
}

/// A mode change that gave the device up: five settle rounds whose reads
/// all kept reporting a running conversion.
pub open spec fn spec_mode_set_timeout(pre: Seq<BusOp>, post: Seq<BusOp>) -> bool {
    exists|reads: Seq<u8>|
        {
            &&& reads.len() == 5
            &&& (forall|i: int| 0 <= i < reads.len() ==> (#[trigger] reads[i]) & 3 != 0)
            &&& post == pre + #[trigger] spec_sleep_attempts(reads)
        }
}

/// The transactions a successful `set_mode` issues: some rounds of
/// sleeping the device, a final control-register read answering a byte
/// with the mode bits clear, and, when Forced is the target, a write of
/// that byte with the forced mode bits.
pub open spec fn spec_set_mode_ops(reads: Seq<u8>, last: u8, mode: SensorMode) -> Seq<BusOp> {
    spec_sleep_attempts(reads) + seq![BusOp::Read(ADDR_CONTROL_MODE, seq![last])] + (
    match mode {
        SensorMode::Sleep => Seq::empty(),
        SensorMode::Forced => seq![BusOp::Write(ADDR_CONTROL_MODE, (last & 0xFC) | 1)],
    })
}

/// The register writes that store an applied 5-byte configuration block,
/// in low-to-high register order.
pub open spec fn spec_config_write_ops(bytes: Seq<u8>) -> Seq<BusOp>
    recommends
        bytes.len() == 5,
{
    seq![
        BusOp::Write(0x71, bytes[0]),
        BusOp::Write(0x72, bytes[1]),
        BusOp::Write(0x73, bytes[2]),
        BusOp::Write(0x74, bytes[3]),
        BusOp::Write(0x75, bytes[4]),
    ]
}

/// The heater register writes a configuration asks for: none without a
/// gas configuration, else the encoded `gas_wait` and `res_heat` bytes.
pub open spec fn spec_gas_ops(c: Configuration, cal: CalibrationData, ambient: int) -> Seq<BusOp> {
    match c.gas_config {
        Some(g) => seq![
            BusOp::Write(ADDR_GAS_WAIT_0, spec_gas_wait(g.heater_duration_ms)),
            BusOp::Write(ADDR_RES_HEAT_0, spec_res_heat(g, cal, ambient)),
        ],
        None => Seq::empty(),
    }
}

/// The transactions a successful `set_config` issues: one read of the
/// current block answering `cur`, the five writes of the merged block,
/// and the heater writes when a gas configuration is present.
pub open spec fn spec_set_config_ops(
    cur: Seq<u8>,
    c: Configuration,
    cal: CalibrationData,
    ambient: int,
) -> Seq<BusOp> {
    seq![BusOp::Read(ADDR_CONFIG, cur)] + spec_config_write_ops(spec_apply_config(cur, c))
        + spec_gas_ops(c, cal, ambient)
}

impl<I2C, D> I2CHelper<I2C, D> where
    I2C: embedded_hal::i2c::I2c<embedded_hal::i2c::SevenBitAddress>,
    D: embedded_hal::delay::DelayNs,
 {
    /// Relies on embedded_hal::i2c::I2c::write: one write transaction of
    /// [register, value] at the device address.
    #[verifier::external_body]
    fn set_register(&mut self, address: u8, value: u8) -> (r: Result<(), BmeError<TransportError>>)
        ensures
            same_device(old(self)@, final(self)@),
            match r {
                Ok(()) => final(self)@.log == old(self)@.log.push(BusOp::Write(address, value)),
                Err(e) => e is WriteError && final(self)@.log == old(self)@.log,
            },
    {
        match self.i2c_interface.write(self.address, &[address, value]) {
            Ok(()) => Ok(()),
            Err(e) => Err(BmeError::WriteError(embedded_hal::i2c::Error::kind(&e))),
        }
    }

    /// Relies on embedded_hal::i2c::I2c::write_read: one write-then-read
    /// transaction reading a single register.
    #[verifier::external_body]
    fn get_register(&mut self, address: u8) -> (r: Result<u8, BmeError<TransportError>>)
        ensures
            same_device(old(self)@, final(self)@),
            match r {
                Ok(b) => final(self)@.log == old(self)@.log.push(
                    BusOp::Read(address, seq![b]),
                ),
                Err(e) => e is WriteReadError && final(self)@.log == old(self)@.log,
            },
    {
        let mut buffer = [0u8; 1];
        match self.i2c_interface.write_read(self.address, &[address], &mut buffer) {
            Ok(()) => Ok(buffer[0]),
            Err(e) => Err(BmeError::WriteReadError(embedded_hal::i2c::Error::kind(&e))),
        }
    }

    /// Relies on embedded_hal::i2c::I2c::write_read: one write-then-read
    /// transaction filling N consecutive register bytes.
    #[verifier::external_body]
    pub fn get_registers<const N: usize>(&mut self, address: u8) -> (r: Result<
        [u8; N],
        BmeError<TransportError>,
    >)
        ensures
            same_device(old(self)@, final(self)@),
            match r {
                Ok(data) => final(self)@.log == old(self)@.log.push(BusOp::Read(address, data@)),
                Err(e) => e is WriteReadError && final(self)@.log == old(self)@.log,
            },
    {
        let mut buffer = [0u8; N];
        match self.i2c_interface.write_read(self.address, &[address], &mut buffer) {
            Ok(()) => Ok(buffer),
            Err(e) => Err(BmeError::WriteReadError(embedded_hal::i2c::Error::kind(&e))),
        }
    }

    /// Relies on embedded_hal::delay::DelayNs::delay_us: pauses for the
    /// given number of microseconds.
    #[verifier::external_body]
    pub fn delay(&mut self, duration_us: u32)
        ensures
            same_device(old(self)@, final(self)@),
            final(self)@.log == old(self)@.log.push(BusOp::DelayUs(duration_us)),
    {
        self.delayer.delay_us(duration_us);
    }

    /// Brings up the adapter: soft reset, settle delay, chip-id check.
    pub fn new(
        i2c_interface: I2C,
        device_address: DeviceAddress,
        delayer: D,
        ambient_temperature: i32,
    ) -> (r: Result<Self, BmeError<TransportError>>)
        ensures
            match r {
                Ok(h) => {
                    &&& h@.address == device_address.spec_value()
                    &&& h@.ambient_temperature == ambient_temperature
                    &&& h@.log == spec_init_ops()
                },
                Err(e) => {
                    &&& e is WriteError || e is WriteReadError || e is UnexpectedChipId
                    &&& e matches BmeError::UnexpectedChipId(id) ==> id != CHIP_ID
                },
            },
    {
        let helper = Self {
            i2c_interface,
            address: device_address.value(),
            delayer,
            ambient_temperature,
            log: Ghost(Seq::empty()),
        };
        helper.init()
    }

    /// Returns the wrapped bus handle, discarding the adapter state.
    pub fn into_inner(self) -> I2C {
        self.i2c_interface
    }

    /// The ambient temperature the heater-target computation currently
    /// uses.
    pub fn ambient_temperature(&self) -> (r: i32)
        ensures
            r == self@.ambient_temperature,
    {
        self.ambient_temperature
    }

    /// Replaces the ambient-temperature feedback value, normally with the
    /// temperature of the most recent successful measurement.
    pub fn set_ambient_temperature(&mut self, ambient_temperature: i32)
        ensures
            final(self)@.address == old(self)@.address,
            final(self)@.log == old(self)@.log,
            final(self)@.ambient_temperature == ambient_temperature,
    {
        self.ambient_temperature = ambient_temperature;
    }

    /// Soft resets the device, waits a fixed bring-up period, and checks
    /// the chip id against the expected constant.
    fn init(self) -> (r: Result<Self, BmeError<TransportError>>)
        ensures
            match r {
                Ok(h) => {
                    &&& same_device(self@, h@)
                    &&& h@.log == self@.log + spec_init_ops()
                },
                Err(e) => {
                    &&& e is WriteError || e is WriteReadError || e is UnexpectedChipId
                    &&& e matches BmeError::UnexpectedChipId(id) ==> id != CHIP_ID
                },
            },
    {
        let mut helper = self;
        match helper.soft_reset() {
            Ok(()) => (),
            Err(e) => {
                return Err(e);
            },
        }
        helper.delay(DELAY_PERIOD_US);
        let chip_id = match helper.get_chip_id() {
            Ok(b) => b,
            Err(e) => {
                return Err(e);
            },
        };
        if chip_id == CHIP_ID {
            Ok(helper)
        } else {
            Err(BmeError::UnexpectedChipId(chip_id))
        }
    }

    /// Issues the soft-reset command.
    pub fn soft_reset(&mut self) -> (r: Result<(), BmeError<TransportError>>)
        ensures
            same_device(old(self)@, final(self)@),
            match r {
                Ok(()) => final(self)@.log == old(self)@.log.push(
                    BusOp::Write(ADDR_SOFT_RESET, CMD_SOFT_RESET),
                ),
                Err(e) => e is WriteError,
            },
    {
        self.set_register(ADDR_SOFT_RESET, CMD_SOFT_RESET)
    }

    /// Reads the chip-id register.
    fn get_chip_id(&mut self) -> (r: Result<u8, BmeError<TransportError>>)
        ensures
            same_device(old(self)@, final(self)@),
            match r {
                Ok(b) => final(self)@.log == old(self)@.log.push(
                    BusOp::Read(ADDR_CHIP_ID, seq![b]),
                ),
                Err(e) => e is WriteReadError,
            },
    {
        self.get_register(ADDR_CHIP_ID)
    }

    /// Reads and decodes the variant-id register; a byte naming no known
    /// variant is an initialization error, not a panic.
    pub fn get_variant_id(&mut self) -> (r: Result<Variant, BmeError<TransportError>>)
        ensures
            same_device(old(self)@, final(self)@),
            match r {
                Ok(v) => final(self)@.log == old(self)@.log.push(
                    BusOp::Read(ADDR_VARIANT_ID, seq![v.spec_value()]),
                ),
                Err(e) => {
                    &&& e is WriteReadError || e is InvalidVariantByte
                    &&& e matches BmeError::InvalidVariantByte(b) ==> b >= 2
                        && final(self)@.log == old(self)@.log.push(
                        BusOp::Read(ADDR_VARIANT_ID, seq![b]),
                    )
                },
            },
    {
        let b = match self.get_register(ADDR_VARIANT_ID) {
            Ok(b) => b,
            Err(e) => {
                return Err(e);
            },
        };
        match Variant::from_byte(b) {
            Some(v) => Ok(v),
            None => Err(BmeError::InvalidVariantByte(b)),
        }
    }

    /// Performs the three documented multi-byte calibration reads and
    /// hands the concatenated buffer to the pure extraction function.
    pub fn get_calibration_data(&mut self) -> (r: Result<CalibrationData, BmeError<TransportError>>)
        ensures
            same_device(old(self)@, final(self)@),
            match r {
                Ok(cal) => exists|d1: Seq<u8>, d2: Seq<u8>, d3: Seq<u8>|
                    {
                        &&& d1.len() == 23
                        &&& d2.len() == 14
                        &&& d3.len() == 5
                        &&& final(self)@.log == old(self)@.log + seq![
                            BusOp::Read(ADDR_REG_COEFF1, d1),
                            BusOp::Read(ADDR_REG_COEFF2, d2),
                            BusOp::Read(ADDR_REG_COEFF3, d3),
                        ]
                        &&& cal == #[trigger] spec_calibration(d1 + d2 + d3)
                    },
                Err(e) => e is WriteReadError,
            },
    {
        let d1: [u8; 23] = match self.get_registers::<23>(ADDR_REG_COEFF1) {
            Ok(d) => d,
            Err(e) => {
                return Err(e);
            },
        };
        let d2: [u8; 14] = match self.get_registers::<14>(ADDR_REG_COEFF2) {
            Ok(d) => d,
            Err(e) => {
                return Err(e);
            },
        };
        let d3: [u8; 5] = match self.get_registers::<5>(ADDR_REG_COEFF3) {
            Ok(d) => d,
            Err(e) => {
                return Err(e);
            },
        };
        let mut coeff_buffer = [0u8; 42];
        let mut i: usize = 0;
        while i < 23
            invariant
                i <= 23,
                forall|j: int| 0 <= j < i ==> coeff_buffer@[j] == d1@[j],
            decreases 23 - i,
        {
            coeff_buffer[i] = d1[i];
            i = i + 1;
        }
        let mut i: usize = 0;
        while i < 14
            invariant
                i <= 14,
                forall|j: int| 0 <= j < 23 ==> coeff_buffer@[j] == d1@[j],
                forall|j: int| 0 <= j < i ==> coeff_buffer@[23 + j] == d2@[j],
            decreases 14 - i,
        {
            coeff_buffer[23 + i] = d2[i];
            i = i + 1;
        }
        let mut i: usize = 0;
        while i < 5
            invariant
                i <= 5,
                forall|j: int| 0 <= j < 23 ==> coeff_buffer@[j] == d1@[j],
                forall|j: int| 0 <= j < 14 ==> coeff_buffer@[23 + j] == d2@[j],
                forall|j: int| 0 <= j < i ==> coeff_buffer@[37 + j] == d3@[j],
            decreases 5 - i,
        {
            coeff_buffer[37 + i] = d3[i];
            i = i + 1;
        }
        proof {
            assert(coeff_buffer@ =~= d1@ + d2@ + d3@);
        }
        Ok(crate::data::extract_calibration_data(coeff_buffer))
    }

    /// Drives the device to the target mode. Whatever mode the device
    /// reports, it is first brought to Sleep: every read whose mode bits
    /// are not Sleep is answered with a write of the same byte with the
    /// mode bits cleared and a settle delay, until a read confirms Sleep.
    /// Only then, and only for a Forced target, are the forced mode bits
    /// written. A device that still reports a running conversion after
    /// five settle rounds is given up on with a timeout error.
    pub fn set_mode(&mut self, mode: SensorMode) -> (r: Result<(), BmeError<TransportError>>)
        ensures
            same_device(old(self)@, final(self)@),
            match r {
                Ok(()) => exists|reads: Seq<u8>, last: u8|
                    {
                        &&& reads.len() <= 4
                        &&& (forall|i: int| 0 <= i < reads.len() ==> (#[trigger] reads[i]) & 3 != 0)
                        &&& last & 3 == 0
                        &&& final(self)@.log == old(self)@.log + #[trigger] spec_set_mode_ops(
                            reads,
                            last,
                            mode,
                        )
                    },
                Err(e) => {
                    &&& e is WriteError || e is WriteReadError || e is MeasuringTimeOut
                    &&& e is MeasuringTimeOut ==> spec_mode_set_timeout(
                        old(self)@.log,
                        final(self)@.log,
                    )
                },
            },
    {
        let ghost mut reads: Seq<u8> = Seq::empty();
        proof {
            assert(self@.log =~= old(self)@.log + spec_sleep_attempts(reads));
        }
        let mut tries: usize = 0;
        while tries < 5
            invariant
                same_device(old(self)@, self@),
                tries <= 5,
                reads.len() == tries,
                forall|i: int| 0 <= i < reads.len() ==> (#[trigger] reads[i]) & 3 != 0,
                self@.log == old(self)@.log + spec_sleep_attempts(reads),
            decreases 5 - tries,
        {
            let control_register = match self.get_register(ADDR_CONTROL_MODE) {
                Ok(b) => b,
                Err(e) => {
                    return Err(e);
                },
            };
            if SensorMode::is_sleep_byte(control_register) {
                // The device is asleep; finish according to the target.
                match mode {
                    SensorMode::Sleep => {
                        proof {
                            assert(spec_set_mode_ops(reads, control_register, mode)
                                =~= spec_sleep_attempts(reads) + seq![
                                BusOp::Read(ADDR_CONTROL_MODE, seq![control_register]),
                            ]);
                            assert(self@.log =~= old(self)@.log + spec_set_mode_ops(
                                reads,
                                control_register,
                                mode,
                            ));
                        }
                        return Ok(());
                    },
                    SensorMode::Forced => {
                        let forced = SensorMode::forced_byte(control_register);
                        match self.set_register(ADDR_CONTROL_MODE, forced) {
                            Ok(()) => {
                                proof {
                                    assert(self@.log =~= old(self)@.log + spec_set_mode_ops(
                                        reads,
                                        control_register,
                                        mode,
                                    )) by {
                                        assert(old(self)@.log + spec_set_mode_ops(
                                            reads,
                                            control_register,
                                            mode,
                                        ) =~= (old(self)@.log + spec_sleep_attempts(reads)).push(
                                            BusOp::Read(
                                                ADDR_CONTROL_MODE,
                                                seq![control_register],
                                            ),
                                        ).push(BusOp::Write(ADDR_CONTROL_MODE, forced)));
                                    }
                                }
                                return Ok(());
                            },
                            Err(e) => {
                                return Err(e);
                            },
                        }
                    },
                }
            } else {
                // Not asleep: clear the mode bits and give the device a
                // settle period before reading again.
                let sleeping = SensorMode::sleep_byte(control_register);
                match self.set_register(ADDR_CONTROL_MODE, sleeping) {
                    Ok(()) => (),
                    Err(e) => {
                        return Err(e);
                    },
                }
                self.delay(DELAY_PERIOD_US);
                proof {
                    lemma_sleep_attempts_push(reads, control_register);
                    reads = reads.push(control_register);
                    assert(self@.log =~= old(self)@.log + spec_sleep_attempts(reads));
                }
                tries = tries + 1;
            }
        }
        Err(BmeError::MeasuringTimeOut)
    }

    /// Reads the current 5-byte configuration block.
    pub fn get_config(&mut self) -> (r: Result<RawConfig, BmeError<TransportError>>)
        ensures
            same_device(old(self)@, final(self)@),
            match r {
                Ok(c) => final(self)@.log == old(self)@.log.push(BusOp::Read(ADDR_CONFIG, c.0@)),
                Err(e) => e is WriteReadError,
            },
    {
        let buffer: [u8; 5] = match self.get_registers::<5>(ADDR_CONFIG) {
            Ok(d) => d,
            Err(e) => {
                return Err(e);
            },
        };
        Ok(RawConfig(buffer))
    }

    /// Reads the current configuration block, merges the present fields
    /// of the given configuration into it, writes the five bytes back in
    /// low-to-high register order, and, when a gas configuration is
    /// present, writes the derived heater registers. Returns the merged
    /// block.
    pub fn set_config(&mut self, conf: &Configuration, calibration_data: &CalibrationData) -> (r:
        Result<RawConfig, BmeError<TransportError>>)
        requires
            conf.gas_config is Some ==> -MAX_ABS_AMBIENT_TEMPERATURE <= old(
                self,
            )@.ambient_temperature <= MAX_ABS_AMBIENT_TEMPERATURE,
        ensures
            same_device(old(self)@, final(self)@),
            match r {
                Ok(rc) => exists|cur: Seq<u8>|
                    {
                        &&& cur.len() == 5
                        &&& rc.0@ == spec_apply_config(cur, *conf)
                        &&& final(self)@.log == old(self)@.log + #[trigger] spec_set_config_ops(
                            cur,
                            *conf,
                            *calibration_data,
                            old(self)@.ambient_temperature as int,
                        )
                    },
                Err(e) => e is WriteError || e is WriteReadError,
            },
    {
        let mut current_conf = match self.get_config() {
            Ok(c) => c,
            Err(e) => {
                return Err(e);
            },
        };
        let ghost cur: Seq<u8> = current_conf.0@;
        current_conf.apply_config(conf);
        match self.set_register(ADDR_CONFIG, current_conf.0[0]) {
            Ok(()) => (),
            Err(e) => {
                return Err(e);
            },
        }
        match self.set_register(ADDR_CONFIG + 1, current_conf.0[1]) {
            Ok(()) => (),
            Err(e) => {
                return Err(e);
            },
        }
        match self.set_register(ADDR_CONFIG + 2, current_conf.0[2]) {
            Ok(()) => (),
            Err(e) => {
                return Err(e);
            },
        }
        match self.set_register(ADDR_CONFIG + 3, current_conf.0[3]) {
            Ok(()) => (),
            Err(e) => {
                return Err(e);
            },
        }
        match self.set_register(ADDR_CONFIG + 4, current_conf.0[4]) {
            Ok(()) => (),
            Err(e) => {
                return Err(e);
            },
        }
        if let Some(gas_conf) = &conf.gas_config {
            match self.set_gas_config(gas_conf, calibration_data) {
                Ok(()) => (),
                Err(e) => {
                    return Err(e);
                },
            }
        }
        proof {
            assert(self@.log =~= old(self)@.log + spec_set_config_ops(
                cur,
                *conf,
                *calibration_data,
                old(self)@.ambient_temperature as int,
            ));
        }
        Ok(current_conf)
    }

    /// Computes and writes the heater-wait and heater-resistance bytes of
    /// profile 0 from the gas configuration, the calibration data, and
    /// the current ambient temperature.
    fn set_gas_config(&mut self, gas_config: &GasConfig, calibration_data: &CalibrationData) -> (r:
        Result<(), BmeError<TransportError>>)
        requires
            -MAX_ABS_AMBIENT_TEMPERATURE <= old(self)@.ambient_temperature
                <= MAX_ABS_AMBIENT_TEMPERATURE,
        ensures
            same_device(old(self)@, final(self)@),
            match r {
                Ok(()) => final(self)@.log == old(self)@.log + seq![
                    BusOp::Write(ADDR_GAS_WAIT_0, spec_gas_wait(gas_config.heater_duration_ms)),
                    BusOp::Write(
                        ADDR_RES_HEAT_0,
                        spec_res_heat(
                            *gas_config,
                            *calibration_data,
                            old(self)@.ambient_temperature as int,
                        ),
                    ),
                ],
                Err(e) => e is WriteError,
            },
    {
        let gas_wait = gas_config.calc_gas_wait();
        let res_heat = gas_config.calc_res_heat(calibration_data, self.ambient_temperature);
        match self.set_register(ADDR_GAS_WAIT_0, gas_wait) {
            Ok(()) => (),
            Err(e) => {
                return Err(e);
            },
        }
        match self.set_register(ADDR_RES_HEAT_0, res_heat) {
            Ok(()) => (),
            Err(e) => {
                return Err(e);
            },
        }
        proof {
            assert(self@.log =~= old(self)@.log + seq![
                BusOp::Write(ADDR_GAS_WAIT_0, spec_gas_wait(gas_config.heater_duration_ms)),
                BusOp::Write(
                    ADDR_RES_HEAT_0,
                    spec_res_heat(
                        *gas_config,
                        *calibration_data,
                        old(self)@.ambient_temperature as int,
                    ),
                ),
            ]);
        }
        Ok(())
    }

    /// Reads the 15-byte measurement result block.
    pub fn get_field_data(&mut self) -> (r: Result<RawData, BmeError<TransportError>>)
        ensures
            same_device(old(self)@, final(self)@),
            match r {
                Ok(d) => final(self)@.log == old(self)@.log.push(
                    BusOp::Read(ADDR_SENSOR_RESULT, d.0@),
                ),
                Err(e) => e is WriteReadError,
            },
    {
        let buffer: [u8; 15] = match self.get_registers::<15>(ADDR_SENSOR_RESULT) {
            Ok(d) => d,
            Err(e) => {
                return Err(e);
            },
        };
        Ok(RawData(buffer))
    }
}

} // verus!
