use bme680::{
    extract_calibration_data, Configuration, DeviceAddress, GasConfig, HeaterProfile, IIRFilter,
    Oversampling, SensorMode, Variant,
};

const CALIBRATION_DATA: [u8; 42] = [
    179, 193, 176, 188, 21, 51, 11, 29, 222, 179, 184, 1, 230, 47, 209, 22, 154, 34, 237, 70,
    148, 134, 44, 13, 204, 61, 206, 69, 18, 43, 124, 164, 92, 132, 19, 63, 29, 28, 201, 140,
    70, 24,
];

#[test]
fn test_sensor_mode() {
    let sleeping = 0u8;
    let forced = 1u8;
    assert!(SensorMode::Sleep == SensorMode::from_byte(sleeping));
    assert!(SensorMode::Forced == SensorMode::from_byte(forced));
}

#[test]
fn test_gas_config() {
    let config = GasConfig { heater_duration_ms: 100, heater_target_temperature: 200 };
    assert!(config.calc_gas_wait() <= 100);
    // taken from data sheet
    assert!(config.calc_gas_wait() == 0x59);
}

#[test]
fn test_gas_wait_encoding() {
    let wait = |ms: u16| GasConfig { heater_duration_ms: ms, heater_target_temperature: 200 }
        .calc_gas_wait();
    // below the 6-bit mantissa boundary the value passes through
    assert_eq!(wait(0), 0);
    assert_eq!(wait(0x3F), 0x3F);
    // one step of the power-of-four multiplier
    assert_eq!(wait(64), 64 / 4 + 64);
    // default configuration value
    assert_eq!(wait(150), 0x65);
    // saturation at the documented maximum
    assert_eq!(wait(0xFFF), 0xFF);
    assert_eq!(wait(0xFFFF), 0xFF);
}

#[test]
fn test_res_heat_encoding() {
    let calibration = extract_calibration_data(CALIBRATION_DATA);
    let gas = GasConfig { heater_duration_ms: 150, heater_target_temperature: 300 };
    assert_eq!(gas.calc_res_heat(&calibration, 20), 209);
    // targets above 400 degrees Celsius are capped at 400
    let hot = GasConfig { heater_duration_ms: 150, heater_target_temperature: 401 };
    let capped = GasConfig { heater_duration_ms: 150, heater_target_temperature: 400 };
    assert_eq!(hot.calc_res_heat(&calibration, 20), capped.calc_res_heat(&calibration, 20));
}

#[test]
fn test_delay_period_default_config() {
    let config = Configuration::default();
    // 19 conversion cycles at 1963 us plus the fixed switching, gas and
    // wake-up durations
    assert_eq!(config.calculate_delay_period_us(), 19 * 1963 + 1908 + 2385 + 1000);
}

#[test]
fn test_delay_period_skipped_fields() {
    let config = Configuration::builder()
        .temperature_oversampling(Oversampling::Skipped)
        .pressure_oversampling(Oversampling::Skipped)
        .humidity_oversampling(Oversampling::Skipped)
        .build();
    assert_eq!(config.calculate_delay_period_us(), 1908 + 2385 + 1000);
}

#[test]
fn test_builder_defaults_and_overrides() {
    let config = Configuration::builder()
        .temperature_oversampling(Oversampling::By2)
        .pressure_oversampling(Oversampling::By16)
        .humidity_oversampling(Oversampling::By1)
        .filter(IIRFilter::Coeff1)
        .gas_config(None)
        .build();
    assert!(config.temperature_oversampling == Some(Oversampling::By2));
    assert!(config.pressure_oversampling == Some(Oversampling::By16));
    assert!(config.humidity_oversampling == Some(Oversampling::By1));
    assert!(config.filter == Some(IIRFilter::Coeff1));
    assert!(config.gas_config.is_none());
    let default_config = Configuration::default();
    assert!(default_config.gas_config == Some(GasConfig {
        heater_duration_ms: 150,
        heater_target_temperature: 300,
    }));
}

#[test]
fn test_device_address_values() {
    assert_eq!(DeviceAddress::Primary.value(), 0x76);
    assert_eq!(DeviceAddress::Secondary.value(), 0x77);
    assert!(DeviceAddress::default() == DeviceAddress::Primary);
}

#[test]
fn test_variant_from_byte() {
    assert!(Variant::from_byte(0) == Some(Variant::GasLow));
    assert!(Variant::from_byte(1) == Some(Variant::GasHigh));
    assert!(Variant::from_byte(2).is_none());
    assert!(Variant::from_byte(0xFF).is_none());
}

#[test]
fn test_oversampling_round_trip() {
    let all = [
        Oversampling::Skipped,
        Oversampling::By1,
        Oversampling::By2,
        Oversampling::By4,
        Oversampling::By8,
        Oversampling::By16,
    ];
    let cycles = [0u32, 1, 2, 4, 8, 16];
    for (i, o) in all.iter().enumerate() {
        assert!(Oversampling::from_byte(o.value()) == *o);
        assert_eq!(o.cycles(), cycles[i]);
    }
    // encodings past the last setting saturate
    assert!(Oversampling::from_byte(7) == Oversampling::By16);
}

#[test]
fn test_filter_round_trip() {
    let all = [
        IIRFilter::Coeff0,
        IIRFilter::Coeff1,
        IIRFilter::Coeff3,
        IIRFilter::Coeff7,
        IIRFilter::Coeff15,
        IIRFilter::Coeff31,
        IIRFilter::Coeff63,
        IIRFilter::Coeff127,
    ];
    for f in all.iter() {
        assert!(IIRFilter::from_byte(f.value()) == *f);
    }
}

#[test]
fn test_heater_profile_round_trip() {
    let all = [
        HeaterProfile::Profile0,
        HeaterProfile::Profile1,
        HeaterProfile::Profile2,
        HeaterProfile::Profile3,
        HeaterProfile::Profile4,
        HeaterProfile::Profile5,
        HeaterProfile::Profile6,
        HeaterProfile::Profile7,
        HeaterProfile::Profile8,
        HeaterProfile::Profile9,
    ];
    for p in all.iter() {
        assert!(HeaterProfile::from_byte(p.value()) == *p);
    }
    assert!(HeaterProfile::from_byte(0xFF) == HeaterProfile::Profile9);
}

