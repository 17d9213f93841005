use bme680::{Configuration, GasWaitDuration, Humidity, IIRFilter, Measurment, Oversampling, RawConfig, RawData};

#[test]
fn test_raw_data() {
    let data = [
        // new_data, gas_measuring, measuring, _, gas_meas_index
        0b1_0_0_0_0000u8,
        // placeholder
        0,
        // p_msb
        0b00101001,
        // p_lsb
        0b10110011,
        // p_xlsb
        0b1111_0000,
        // t_msb
        0b00101001,
        // t_lsb
        0b10110011,
        // t_xlsb
        0b1111_0000,
        // h_msb
        0b10110011,
        // h_lsb
        0b00101001,
        // 3 placeholders
        0,
        0,
        0,
        // gas_r_msb gas_adc<9:2>
        0b10000001,
        // gas_r_lsb gas_adc<1:0>, gas_valid, heater_stable, gas_range
        0b11_1_1_0011,
    ];
    let expected_new_data = true;
    let expected_gas_measuring = false;
    let expected_measuring = false;
    let expected_gas_meas_index = 0u8;
    let expected_pressure = 0b0000_00000000_00101001_10110011_1111_u32;
    let expected_temperature = 0b0000_00000000_00101001_10110011_1111_u32;
    let expected_humidity = 0b10110011_00101001_u16;
    let expected_gas_adc = 0b10000001_11u16;
    let expected_gas_range = 0b011u8;
    let expected_gas_valid = true;
    let expected_heater_stable = true;
    let raw_data = RawData(data);
    assert!(raw_data.new_data() == expected_new_data);
    assert!(raw_data.gas_measuring() == expected_gas_measuring);
    assert!(raw_data.measuring() == expected_measuring);
    assert!(raw_data.gas_meas_index() == expected_gas_meas_index);
    assert!(raw_data.pressure_adc().0 == expected_pressure);
    assert!(raw_data.temperature_adc().0 == expected_temperature);
    assert!(raw_data.humidity_adc().0 == expected_humidity);
    assert!(raw_data.gas_adc().0 == expected_gas_adc);
    assert!(raw_data.gas_valid() == expected_gas_valid);
    assert!(raw_data.heater_stable() == expected_heater_stable);
    assert!(raw_data.gas_range() == expected_gas_range);
}

#[test]
fn test_measurment_and_humidty() {
    // 2.5 bytes msb, lsb, xlsb and 2 bytes msb, lsb
    let data = [0b00101001, 0b10110011, 0b1111_0000, 0b10110011, 0b00101001];
    let expected_measurment_value = 0b0000_00000000_00101001_10110011_1111_u32;
    let expected_humidity = 0b10110011_00101001_u16;
    let measurment = Measurment::from_bytes(data[0], data[1], data[2]);
    let humidity = Humidity::from_bytes(data[3], data[4]);
    assert!(expected_measurment_value == measurment.0);
    assert!(expected_humidity == humidity.0);
}

#[test]
fn test_assemble() {
    let mut result = 0;
    let xlsb: u32 = 0b1111_0000;
    let lsb = 0b10110011;
    let msb = 0b00101001;
    let expected_value = 0b101001_10110011_1111;
    result |= xlsb >> 4;
    println!("Adding xlsb {xlsb:b} results in: {result:b}");
    result |= lsb << 4;
    println!("Adding lsb {lsb:b} results in: {result:b}");
    result |= msb << 12;
    println!("Adding msb {msb:b} results in: {result:b}");
    assert!(result == expected_value);
}

#[test]
fn test_raw_config() {
    let mut raw_config = RawConfig([0u8; 5]);
    let default_user_config = Configuration::default();
    raw_config.apply_config(&default_user_config);
    let raw_data = raw_config.0;
    let expected_raw_data = [
        // 0x71 run_gas/nb_conv
        0b_000_1_0000u8,
        // 0x72 humidity oversampling by 16
        0b_0_0_000_101,
        // 0x73 placeholder
        0b0,
        // 0x74 temperature oversampling by 2 / pressure oversampling by 1 / mode sleep
        0b_010_001_00,
        // 0x75 filter coeff 1
        0b000_001_00,
    ];
    println!("Expeced data: {expected_raw_data:?}");
    println!("Actual raw data: {raw_data:?}");
    assert!(expected_raw_data == raw_data);
}

#[test]
fn test_apply_config_all_none_is_identity() {
    let original = [0xA5u8, 0x3C, 0x77, 0xE9, 0x1F];
    let mut raw_config = RawConfig(original);
    let config = Configuration {
        temperature_oversampling: None,
        pressure_oversampling: None,
        humidity_oversampling: None,
        filter: None,
        gas_config: None,
    };
    raw_config.apply_config(&config);
    assert_eq!(raw_config.0, original);
}

#[test]
fn test_apply_config_merge_keeps_unset_fields() {
    let original = [0xFFu8, 0xFF, 0xFF, 0xFF, 0xFF];
    let mut raw_config = RawConfig(original);
    let config = Configuration {
        temperature_oversampling: Some(Oversampling::By1),
        pressure_oversampling: None,
        humidity_oversampling: None,
        filter: None,
        gas_config: None,
    };
    raw_config.apply_config(&config);
    // temperature bits <7:5> of byte 3 now encode By1; everything else
    // is bit-for-bit what the device held before
    assert_eq!(raw_config.0, [0xFF, 0xFF, 0xFF, 0b001_11111, 0xFF]);
}

#[test]
fn test_config_block_getters() {
    let mut raw_config = RawConfig([0u8; 5]);
    raw_config.apply_config(&Configuration::default());
    assert!(raw_config.temperature_oversampling() == Oversampling::By2);
    assert!(raw_config.pressure_oversampling() == Oversampling::By1);
    assert!(raw_config.humidity_oversampling() == Oversampling::By16);
    assert!(raw_config.filter() == IIRFilter::Coeff1);
    assert!(raw_config.run_gas());
    assert!(raw_config.mode() == 0);
}

#[test]
fn test_gas_wait_duration_from_byte() {
    assert_eq!(GasWaitDuration::from_byte(0x59).0, 0x59);
}
