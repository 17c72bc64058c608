use veml6075::config::{
    disabled, enabled, triggered, with_dynamic_setting, with_integration_time, with_mode,
    ACTIVE_FORCE, HIGH_DYNAMIC, INITIAL, INTEGRATION_TIME, RESERVED, SHUTDOWN, TRIGGER,
};
use veml6075::wire::{
    config_frame, register_value, CONFIG, DEVICE_ADDRESS, DEVICE_ID, UVA, UVB, UVCOMP1, UVCOMP2,
};
use veml6075::{DynamicSetting, IntegrationTime, Mode};

const ALL_TIMES: [IntegrationTime; 5] = [
    IntegrationTime::Ms50,
    IntegrationTime::Ms100,
    IntegrationTime::Ms200,
    IntegrationTime::Ms400,
    IntegrationTime::Ms800,
];

#[test]
fn bit_layout() {
    assert_eq!(SHUTDOWN, 0b0000_0001);
    assert_eq!(TRIGGER, 0b0000_0010);
    assert_eq!(ACTIVE_FORCE, 0b0000_0100);
    assert_eq!(HIGH_DYNAMIC, 0b0000_1000);
    assert_eq!(INTEGRATION_TIME, 0b0111_0000);
    assert_eq!(RESERVED, 0b1000_0000);
    assert_eq!(INITIAL, 0x01);
}

#[test]
fn addresses() {
    assert_eq!(DEVICE_ADDRESS, 0x10);
    assert_eq!(CONFIG, 0x00);
    assert_eq!(UVA, 0x07);
    assert_eq!(UVB, 0x09);
    assert_eq!(UVCOMP1, 0x0A);
    assert_eq!(UVCOMP2, 0x0B);
    assert_eq!(DEVICE_ID, 0x0C);
}

#[test]
fn integration_time_codes() {
    assert_eq!(IntegrationTime::Ms50.code(), 0);
    assert_eq!(IntegrationTime::Ms100.code(), 1);
    assert_eq!(IntegrationTime::Ms200.code(), 2);
    assert_eq!(IntegrationTime::Ms400.code(), 3);
    assert_eq!(IntegrationTime::Ms800.code(), 4);
}

#[test]
fn enabled_clears_only_the_shutdown_bit() {
    assert_eq!(enabled(0x01), 0x00);
    assert_eq!(enabled(0x00), 0x00);
    assert_eq!(enabled(0b0100_1101), 0b0100_1100);
    for config in 0..=255u8 {
        assert_eq!(enabled(config), config & 0b1111_1110);
    }
}

#[test]
fn disabled_sets_only_the_shutdown_bit() {
    assert_eq!(disabled(0x00), 0x01);
    assert_eq!(disabled(0x01), 0x01);
    assert_eq!(disabled(0b0011_0100), 0b0011_0101);
    for config in 0..=255u8 {
        assert_eq!(disabled(config), config | 0b0000_0001);
    }
}

#[test]
fn with_mode_changes_only_the_active_force_bit() {
    assert_eq!(with_mode(0x01, Mode::ActiveForce), 0b0000_0101);
    assert_eq!(with_mode(0x01, Mode::Continuous), 0b0000_0001);
    assert_eq!(with_mode(0b0100_1100, Mode::Continuous), 0b0100_1000);
    for config in 0..=255u8 {
        assert_eq!(with_mode(config, Mode::ActiveForce), config | 0b0000_0100);
        assert_eq!(with_mode(config, Mode::Continuous), config & 0b1111_1011);
    }
}

#[test]
fn with_dynamic_setting_changes_only_the_high_dynamic_bit() {
    assert_eq!(with_dynamic_setting(0x01, DynamicSetting::High), 0b0000_1001);
    assert_eq!(with_dynamic_setting(0x01, DynamicSetting::Normal), 0b0000_0001);
    assert_eq!(with_dynamic_setting(0b0100_1100, DynamicSetting::Normal), 0b0100_0100);
    for config in 0..=255u8 {
        assert_eq!(with_dynamic_setting(config, DynamicSetting::High), config | 0b0000_1000);
        assert_eq!(with_dynamic_setting(config, DynamicSetting::Normal), config & 0b1111_0111);
    }
}

#[test]
fn with_integration_time_replaces_bits_4_to_6() {
    assert_eq!(with_integration_time(0x01, IntegrationTime::Ms50), 0b0000_0001);
    assert_eq!(with_integration_time(0x01, IntegrationTime::Ms100), 0b0001_0001);
    assert_eq!(with_integration_time(0x01, IntegrationTime::Ms200), 0b0010_0001);
    assert_eq!(with_integration_time(0x01, IntegrationTime::Ms400), 0b0011_0001);
    assert_eq!(with_integration_time(0x01, IntegrationTime::Ms800), 0b0100_0001);
    assert_eq!(with_integration_time(0b0100_1100, IntegrationTime::Ms100), 0b0001_1100);
    for config in 0..=255u8 {
        for (code, it) in ALL_TIMES.iter().enumerate() {
            let expected = (config & 0b1000_1111) | ((code as u8) << 4);
            assert_eq!(with_integration_time(config, *it), expected);
        }
    }
}

#[test]
fn triggered_sets_only_the_trigger_bit() {
    assert_eq!(triggered(0x01), 0b0000_0011);
    assert_eq!(triggered(0x00), 0b0000_0010);
    assert_eq!(triggered(0b0100_1100), 0b0100_1110);
    for config in 0..=255u8 {
        assert_eq!(triggered(config), config | 0b0000_0010);
    }
}

#[test]
fn power_cycle_from_the_initial_configuration() {
    assert_eq!(enabled(INITIAL), 0x00);
    assert_eq!(disabled(enabled(INITIAL)), 0x01);
}

#[test]
fn config_frame_is_register_value_padding() {
    assert_eq!(config_frame(0x00), [0x00, 0x00, 0x00]);
    assert_eq!(config_frame(0x01), [0x00, 0x01, 0x00]);
    assert_eq!(config_frame(0b0100_1101), [0x00, 0b0100_1101, 0x00]);
    assert_eq!(config_frame(0xFF), [0x00, 0xFF, 0x00]);
}

#[test]
fn register_value_is_little_endian() {
    assert_eq!(register_value(&[0xCD, 0xAB]), 0xABCD);
    assert_eq!(register_value(&[0x00, 0x00]), 0x0000);
    assert_eq!(register_value(&[0xFF, 0x00]), 0x00FF);
    assert_eq!(register_value(&[0x00, 0xFF]), 0xFF00);
    assert_eq!(register_value(&[0xFF, 0xFF]), 0xFFFF);
    assert_eq!(register_value(&[0x7F, 0x0F]), 3967);
    for low in 0..=255u8 {
        for high in 0..=255u8 {
            assert_eq!(register_value(&[low, high]), u16::from_le_bytes([low, high]));
        }
    }
}
