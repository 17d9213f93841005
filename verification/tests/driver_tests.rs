use bme680::constants::{
    ADDR_CHIP_ID, ADDR_CONFIG, ADDR_CONTROL_MODE, ADDR_GAS_WAIT_0, ADDR_REG_COEFF1,
    ADDR_REG_COEFF2, ADDR_REG_COEFF3, ADDR_RES_HEAT_0, ADDR_SENSOR_RESULT, ADDR_SOFT_RESET,
    ADDR_VARIANT_ID, CHIP_ID, CMD_SOFT_RESET, LEN_COEFF1, LEN_COEFF2, LEN_COEFF3,
};
use bme680::{
    extract_calibration_data, BmeError, Bme680, Configuration, DeviceAddress, GasRawData,
    I2CHelper, RawConfig,
};
use embedded_hal_mock::eh1::delay::NoopDelay;
use embedded_hal::i2c::ErrorKind;
use embedded_hal_mock::eh1::i2c::{Mock as I2cMock, Transaction as I2cTransaction};

const CALIBRATION_DATA: [u8; 42] = [
    179, 193, 176, 188, 21, 51, 11, 29, 222, 179, 184, 1, 230, 47, 209, 22, 154, 34, 237, 70,
    148, 134, 44, 13, 204, 61, 206, 69, 18, 43, 124, 164, 92, 132, 19, 63, 29, 28, 201, 140,
    70, 24,
];

fn setup_transactions() -> Vec<I2cTransaction> {
    let mut transactions = vec![];
    let calibration_data_1 = CALIBRATION_DATA[0..LEN_COEFF1].to_vec();
    let calibration_data_2 = CALIBRATION_DATA[LEN_COEFF1..LEN_COEFF1 + LEN_COEFF2].to_vec();
    let calibration_data_3 = CALIBRATION_DATA
        [LEN_COEFF1 + LEN_COEFF2..LEN_COEFF1 + LEN_COEFF2 + LEN_COEFF3]
        .to_vec();
    assert_eq!(calibration_data_1.len(), LEN_COEFF1);
    assert_eq!(calibration_data_2.len(), LEN_COEFF2);
    assert_eq!(calibration_data_3.len(), LEN_COEFF3);
    // soft reset
    transactions.push(I2cTransaction::write(
        DeviceAddress::Primary.value(),
        vec![ADDR_SOFT_RESET, CMD_SOFT_RESET],
    ));
    // check device id
    transactions.push(I2cTransaction::write_read(
        DeviceAddress::Primary.value(),
        vec![ADDR_CHIP_ID],
        vec![CHIP_ID],
    ));
    // calibration_data
    transactions.push(I2cTransaction::write_read(
        DeviceAddress::Primary.value(),
        vec![ADDR_REG_COEFF1],
        calibration_data_1,
    ));
    transactions.push(I2cTransaction::write_read(
        DeviceAddress::Primary.value(),
        vec![ADDR_REG_COEFF2],
        calibration_data_2,
    ));
    transactions.push(I2cTransaction::write_read(
        DeviceAddress::Primary.value(),
        vec![ADDR_REG_COEFF3],
        calibration_data_3,
    ));
    // set config
    // 1. get current config by reading 5 bytes from register 0x71
    // 2. apply the default user-facing config over the device values
    // 3. write gas_wait_0 and res_heat_0
    // 1.
    let default_config = [0u8; 5];
    transactions.push(I2cTransaction::write_read(
        DeviceAddress::Primary.value(),
        vec![ADDR_CONFIG],
        default_config.into(),
    ));
    // 2.
    let user_config = Configuration::default();
    let mut raw_config = RawConfig(default_config);
    raw_config.apply_config(&user_config);
    // one unique write per register
    raw_config
        .0
        .into_iter()
        .enumerate()
        .for_each(|(register_offset, register_content)| {
            transactions.push(I2cTransaction::write(
                DeviceAddress::Primary.value(),
                vec![ADDR_CONFIG + register_offset as u8, register_content],
            ));
        });
    // 3.
    let gas_config = user_config.gas_config.unwrap();
    let gas_wait_0 = gas_config.calc_gas_wait();
    let res_heat_0 = gas_config.calc_res_heat(&extract_calibration_data(CALIBRATION_DATA), 20);
    transactions.push(I2cTransaction::write(
        DeviceAddress::Primary.value(),
        vec![ADDR_GAS_WAIT_0, gas_wait_0],
    ));
    transactions.push(I2cTransaction::write(
        DeviceAddress::Primary.value(),
        vec![ADDR_RES_HEAT_0, res_heat_0],
    ));
    // get chip variant
    transactions.push(I2cTransaction::write_read(
        DeviceAddress::Primary.value(),
        vec![ADDR_VARIANT_ID],
        vec![0],
    ));
    transactions
}

fn add_sleep_to_sleep_transactions(transactions: &mut Vec<I2cTransaction>) {
    transactions.push(I2cTransaction::write_read(
        DeviceAddress::Primary.value(),
        vec![ADDR_CONTROL_MODE],
        // sleep mode
        vec![0b101011_00],
    ));
}

#[test]
fn test_setup() {
    let transactions = setup_transactions();
    let i2c_interface = I2cMock::new(&transactions);
    let bme = Bme680::new(
        i2c_interface,
        DeviceAddress::Primary,
        NoopDelay::new(),
        &Configuration::default(),
        20,
    )
    .unwrap();
    bme.into_inner().done();
}

#[test]
fn test_set_mode_forced_to_sleep() {
    let mut transactions = setup_transactions();
    transactions.push(I2cTransaction::write_read(
        DeviceAddress::Primary.value(),
        vec![ADDR_CONTROL_MODE],
        // forced mode
        vec![0b101011_01],
    ));
    transactions.push(I2cTransaction::write(
        DeviceAddress::Primary.value(),
        vec![ADDR_CONTROL_MODE, 0b101011_00],
    ));
    transactions.push(I2cTransaction::write_read(
        DeviceAddress::Primary.value(),
        vec![ADDR_CONTROL_MODE],
        // sleep mode
        vec![0b101011_00],
    ));
    // Transactions: Get(Forced) -> Set(Sleep) -> Get(Sleep)
    let i2c_interface = I2cMock::new(&transactions);
    let mut bme = Bme680::new(
        i2c_interface,
        DeviceAddress::Primary,
        NoopDelay::new(),
        &Configuration::default(),
        20,
    )
    .unwrap();
    bme.put_to_sleep().unwrap();
    bme.into_inner().done();
}

#[test]
fn test_set_mode_sleep_to_sleep() {
    let mut transactions = setup_transactions();
    add_sleep_to_sleep_transactions(&mut transactions);
    let i2c_interface = I2cMock::new(&transactions);
    let mut bme = Bme680::new(
        i2c_interface,
        DeviceAddress::Primary,
        NoopDelay::new(),
        &Configuration::default(),
        20,
    )
    .unwrap();
    bme.put_to_sleep().unwrap();
    bme.into_inner().done();
}

#[test]
fn test_setup_helper() {
    let transactions = vec![
        // reset chip
        I2cTransaction::write(0x76, vec![ADDR_SOFT_RESET, CMD_SOFT_RESET]),
        // get chip id
        I2cTransaction::write_read(0x76, vec![ADDR_CHIP_ID], vec![CHIP_ID]),
    ];
    let i2c_interface = I2cMock::new(&transactions);
    let i2c_helper =
        I2CHelper::new(i2c_interface, DeviceAddress::Primary, NoopDelay::new(), 20).unwrap();
    i2c_helper.into_inner().done();
}

#[test]
fn test_setup_wrong_chip_id() {
    let transactions = vec![
        I2cTransaction::write(0x76, vec![ADDR_SOFT_RESET, CMD_SOFT_RESET]),
        I2cTransaction::write_read(0x76, vec![ADDR_CHIP_ID], vec![0x42]),
    ];
    let mut i2c_interface = I2cMock::new(&transactions);
    let result = Bme680::new(
        i2c_interface.clone(),
        DeviceAddress::Primary,
        NoopDelay::new(),
        &Configuration::default(),
        20,
    );
    match result {
        Err(BmeError::UnexpectedChipId(id)) => assert_eq!(id, 0x42),
        _ => panic!("expected an unexpected-chip-id error"),
    }
    i2c_interface.done();
}

#[test]
fn test_setup_invalid_variant_byte() {
    let mut transactions = setup_transactions();
    // replace the final variant read with one answering an unknown byte
    transactions.pop();
    transactions.push(I2cTransaction::write_read(
        DeviceAddress::Primary.value(),
        vec![ADDR_VARIANT_ID],
        vec![7],
    ));
    let mut i2c_interface = I2cMock::new(&transactions);
    let result = Bme680::new(
        i2c_interface.clone(),
        DeviceAddress::Primary,
        NoopDelay::new(),
        &Configuration::default(),
        20,
    );
    match result {
        Err(BmeError::InvalidVariantByte(b)) => assert_eq!(b, 7),
        _ => panic!("expected an invalid-variant error"),
    }
    i2c_interface.done();
}

#[test]
fn test_setup_write_error() {
    let transactions = vec![
        I2cTransaction::write(0x76, vec![ADDR_SOFT_RESET, CMD_SOFT_RESET])
            .with_error(ErrorKind::Other),
    ];
    let mut i2c_interface = I2cMock::new(&transactions);
    let result = Bme680::new(
        i2c_interface.clone(),
        DeviceAddress::Primary,
        NoopDelay::new(),
        &Configuration::default(),
        20,
    );
    assert!(matches!(result, Err(BmeError::WriteError(_))));
    i2c_interface.done();
}

fn add_forced_mode_transactions(transactions: &mut Vec<I2cTransaction>) {
    // read the control register: asleep
    transactions.push(I2cTransaction::write_read(
        DeviceAddress::Primary.value(),
        vec![ADDR_CONTROL_MODE],
        vec![0b101011_00],
    ));
    // write the forced mode bits
    transactions.push(I2cTransaction::write(
        DeviceAddress::Primary.value(),
        vec![ADDR_CONTROL_MODE, 0b101011_01],
    ));
}

#[test]
fn test_measure_raw_fresh_frame() {
    let mut transactions = setup_transactions();
    add_forced_mode_transactions(&mut transactions);
    let frame = vec![
        0b1000_0000u8,
        0,
        0b00101001,
        0b10110011,
        0b1111_0000,
        0b00101001,
        0b10110011,
        0b1111_0000,
        0b10110011,
        0b00101001,
        0,
        0,
        0,
        0b10000001,
        0b11_1_1_0011,
    ];
    transactions.push(I2cTransaction::write_read(
        DeviceAddress::Primary.value(),
        vec![ADDR_SENSOR_RESULT],
        frame,
    ));
    let i2c_interface = I2cMock::new(&transactions);
    let mut bme = Bme680::new(
        i2c_interface,
        DeviceAddress::Primary,
        NoopDelay::new(),
        &Configuration::default(),
        20,
    )
    .unwrap();
    let measurement = bme.measure_raw().unwrap();
    assert_eq!(measurement.temperature_adc, 0x29B3F);
    assert_eq!(measurement.pressure_adc, 0x29B3F);
    assert_eq!(measurement.humidity_adc, 0xB329);
    assert_eq!(measurement.gas, Some(GasRawData { gas_adc: 0x207, gas_range: 3 }));
    bme.into_inner().done();
}

#[test]
fn test_measure_raw_timeout() {
    let mut transactions = setup_transactions();
    add_forced_mode_transactions(&mut transactions);
    // five frames in a row still measuring without fresh data
    let mut stale = vec![0u8; 15];
    stale[0] = 0b0010_0000;
    for _ in 0..5 {
        transactions.push(I2cTransaction::write_read(
            DeviceAddress::Primary.value(),
            vec![ADDR_SENSOR_RESULT],
            stale.clone(),
        ));
    }
    let i2c_interface = I2cMock::new(&transactions);
    let mut bme = Bme680::new(
        i2c_interface,
        DeviceAddress::Primary,
        NoopDelay::new(),
        &Configuration::default(),
        20,
    )
    .unwrap();
    assert!(matches!(bme.measure_raw(), Err(BmeError::MeasuringTimeOut)));
    bme.into_inner().done();
}

#[test]
fn test_set_configuration_disables_gas() {
    let mut transactions = setup_transactions();
    // set_configuration first forces Sleep: one read confirming Sleep
    add_sleep_to_sleep_transactions(&mut transactions);
    // then reads and rewrites the configuration block; without a gas
    // config the heater registers are left alone
    let device_config = [0b000_1_0000u8, 0b0_0_000_101, 0, 0b010_001_00, 0b000_001_00];
    transactions.push(I2cTransaction::write_read(
        DeviceAddress::Primary.value(),
        vec![ADDR_CONFIG],
        device_config.into(),
    ));
    let new_config = Configuration::builder().gas_config(None).build();
    let mut raw_config = RawConfig(device_config);
    raw_config.apply_config(&new_config);
    for (register_offset, register_content) in raw_config.0.into_iter().enumerate() {
        transactions.push(I2cTransaction::write(
            DeviceAddress::Primary.value(),
            vec![ADDR_CONFIG + register_offset as u8, register_content],
        ));
    }
    let i2c_interface = I2cMock::new(&transactions);
    let mut bme = Bme680::new(
        i2c_interface,
        DeviceAddress::Primary,
        NoopDelay::new(),
        &Configuration::default(),
        20,
    )
    .unwrap();
    bme.set_configuration(&new_config).unwrap();
    bme.into_inner().done();
}

#[test]
fn test_get_calibration_data_after_setup() {
    let transactions = setup_transactions();
    let i2c_interface = I2cMock::new(&transactions);
    let bme = Bme680::new(
        i2c_interface,
        DeviceAddress::Primary,
        NoopDelay::new(),
        &Configuration::default(),
        20,
    )
    .unwrap();
    assert_eq!(*bme.get_calibration_data(), extract_calibration_data(CALIBRATION_DATA));
    bme.into_inner().done();
}
