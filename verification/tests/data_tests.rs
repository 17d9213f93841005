use bme680::{extract_calibration_data, GasRawData, RawData, RawMeasurement};

const CALIBRATION_DATA: [u8; 42] = [
    179, 193, 176, 188, 21, 51, 11, 29, 222, 179, 184, 1, 230, 47, 209, 22, 154, 34, 237, 70,
    148, 134, 44, 13, 204, 61, 206, 69, 18, 43, 124, 164, 92, 132, 19, 63, 29, 28, 201, 140,
    70, 24,
];

#[test]
fn test_extract_calibration_data_values() {
    let cal = extract_calibration_data(CALIBRATION_DATA);
    assert_eq!(cal.par_t1, 23716);
    assert_eq!(cal.par_t2, -15949);
    assert_eq!(cal.par_t3, -80);
    assert_eq!(cal.par_p1, 13077);
    assert_eq!(cal.par_p2, 7435);
    assert_eq!(cal.par_p3, -34);
    assert_eq!(cal.par_p4, 440);
    assert_eq!(cal.par_p5, 12262);
    assert_eq!(cal.par_p6, 22);
    assert_eq!(cal.par_p7, -47);
    assert_eq!(cal.par_p8, 18157);
    assert_eq!(cal.par_p9, -31084);
    assert_eq!(cal.par_p10, 44);
    assert_eq!(cal.par_h1, 988);
    assert_eq!(cal.par_h2, 220);
    assert_eq!(cal.par_h3, -50);
    assert_eq!(cal.par_h4, 69);
    assert_eq!(cal.par_h5, 18);
    assert_eq!(cal.par_h6, 43);
    assert_eq!(cal.par_h7, 124);
    assert_eq!(cal.par_gh1, 63);
    assert_eq!(cal.par_gh2, 4996);
    assert_eq!(cal.par_gh3, 29);
    assert_eq!(cal.res_heat_range, 0);
    assert_eq!(cal.res_heat_val, 28);
    assert_eq!(cal.range_sw_err, 1);
}

fn fresh_frame() -> [u8; 15] {
    [
        0b1000_0000, // new_data set, not measuring
        0,
        0b00101001, // pressure msb
        0b10110011, // pressure lsb
        0b1111_0000, // pressure xlsb
        0b00101001, // temperature msb
        0b10110011, // temperature lsb
        0b1111_0000, // temperature xlsb
        0b10110011, // humidity msb
        0b00101001, // humidity lsb
        0,
        0,
        0,
        0b10000001, // gas adc high bits
        0b11_1_1_0011, // gas adc low bits, gas_valid, heater_stable, range
    ]
}

#[test]
fn test_from_raw_fresh_frame() {
    let measurement = RawMeasurement::from_raw(&RawData(fresh_frame())).unwrap();
    assert_eq!(measurement.pressure_adc, 0x29B3F);
    assert_eq!(measurement.temperature_adc, 0x29B3F);
    assert_eq!(measurement.humidity_adc, 0xB329);
    assert_eq!(measurement.gas, Some(GasRawData { gas_adc: 0x207, gas_range: 3 }));
}

#[test]
fn test_from_raw_still_measuring() {
    let mut frame = fresh_frame();
    // measuring set, new_data clear: no usable data yet
    frame[0] = 0b0010_0000;
    assert!(RawMeasurement::from_raw(&RawData(frame)).is_none());
}

#[test]
fn test_from_raw_gas_slot_invalid() {
    let mut frame = fresh_frame();
    // gas_valid bit cleared: the slot held a dummy conversion
    frame[14] = 0b11_0_1_0011;
    let measurement = RawMeasurement::from_raw(&RawData(frame)).unwrap();
    assert!(measurement.gas.is_none());
    assert_eq!(measurement.humidity_adc, 0xB329);
}

#[test]
fn test_from_raw_gas_still_measuring() {
    let mut frame = fresh_frame();
    // new_data and gas_measuring both set: frame usable, gas slot not
    frame[0] = 0b1100_0000;
    let measurement = RawMeasurement::from_raw(&RawData(frame)).unwrap();
    assert!(measurement.gas.is_none());
}
