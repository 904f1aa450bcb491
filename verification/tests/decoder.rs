use dualsense_poll::dualsense::{
    is_allowed_device, mute_button_pressed, parse_battery, BatteryReport, BatteryStatus,
};

fn report_with(offset: usize, byte: u8) -> Vec<u8> {
    let mut v = vec![0u8; 64];
    v[offset] = byte;
    v
}

#[test]
fn battery_level_seven_discharging() {
    let r = parse_battery(&report_with(53, 0x07), false).unwrap();
    assert_eq!(r.battery_capacity, 75);
    assert_eq!(r.status, BatteryStatus::Discharging);
}

#[test]
fn battery_level_zero_charging() {
    let r = parse_battery(&report_with(53, 0x10), false).unwrap();
    assert_eq!(r.battery_capacity, 5);
    assert_eq!(r.status, BatteryStatus::Charging);
}

#[test]
fn battery_full_regardless_of_level() {
    for byte in [0x20u8, 0x25, 0x2F] {
        let r = parse_battery(&report_with(53, byte), false).unwrap();
        assert_eq!(r.battery_capacity, 100);
        assert_eq!(r.status, BatteryStatus::Full);
    }
}

#[test]
fn battery_charging_error_codes() {
    for byte in [0xA0u8, 0xA5, 0xB3] {
        let r = parse_battery(&report_with(53, byte), false).unwrap();
        assert_eq!(r.battery_capacity, 0);
        assert_eq!(r.status, BatteryStatus::ChargingError);
    }
}

#[test]
fn battery_unknown_codes() {
    for byte in [0x30u8, 0xF7, 0x90] {
        let r = parse_battery(&report_with(53, byte), false).unwrap();
        assert_eq!(r.battery_capacity, 0);
        assert_eq!(r.status, BatteryStatus::Unknown);
    }
}

#[test]
fn battery_capacity_clamped_to_hundred() {
    let r = parse_battery(&report_with(53, 0x0F), false).unwrap();
    assert_eq!(r.battery_capacity, 100);
    assert_eq!(r.status, BatteryStatus::Discharging);
}

#[test]
fn battery_offset_depends_on_transport() {
    let mut v = vec![0u8; 64];
    v[53] = 0x07; // level 7, discharging
    v[54] = 0x21; // level 1, full
    let usb = parse_battery(&v, false).unwrap();
    assert_eq!(usb.battery_capacity, 75);
    assert_eq!(usb.status, BatteryStatus::Discharging);
    let bt = parse_battery(&v, true).unwrap();
    assert_eq!(bt.battery_capacity, 100);
    assert_eq!(bt.status, BatteryStatus::Full);
}

#[test]
fn battery_short_report_returns_none() {
    assert!(parse_battery(&[], false).is_none());
    assert!(parse_battery(&[], true).is_none());
    assert!(parse_battery(&vec![0u8; 53], false).is_none());
    assert!(parse_battery(&vec![0u8; 54], false).is_some());
    assert!(parse_battery(&vec![0u8; 54], true).is_none());
    assert!(parse_battery(&vec![0u8; 55], true).is_some());
}

#[test]
fn mute_short_report_returns_none() {
    assert!(mute_button_pressed(&[], false).is_none());
    assert!(mute_button_pressed(&vec![0u8; 10], false).is_none());
    assert!(mute_button_pressed(&vec![0u8; 11], false).is_some());
    assert!(mute_button_pressed(&vec![0u8; 11], true).is_none());
    assert!(mute_button_pressed(&vec![0u8; 12], true).is_some());
}

#[test]
fn mute_bit_and_offset() {
    assert_eq!(mute_button_pressed(&report_with(10, 0x04), false), Some(true));
    assert_eq!(mute_button_pressed(&report_with(10, 0xFF), false), Some(true));
    assert_eq!(mute_button_pressed(&report_with(10, 0xFB), false), Some(false));
    assert_eq!(mute_button_pressed(&report_with(10, 0x00), false), Some(false));
    // Bluetooth reads one byte further along.
    assert_eq!(mute_button_pressed(&report_with(11, 0x04), true), Some(true));
    assert_eq!(mute_button_pressed(&report_with(11, 0x04), false), Some(false));
}

#[test]
fn battery_report_new_keeps_fields() {
    let r = BatteryReport::new(42, BatteryStatus::Charging);
    assert_eq!(r.battery_capacity, 42);
    assert_eq!(r.status, BatteryStatus::Charging);
    assert_eq!(r, BatteryReport::new(42, BatteryStatus::Charging));
    assert_ne!(r, BatteryReport::new(43, BatteryStatus::Charging));
}

#[test]
fn allow_list_matches_known_controllers() {
    assert!(is_allowed_device(0x054C, 0x0CE6));
    assert!(is_allowed_device(0x054C, 0x0DF2));
    assert!(!is_allowed_device(0x054C, 0x1234));
    assert!(!is_allowed_device(0x1234, 0x0CE6));
    assert!(!is_allowed_device(0x0000, 0x0000));
}
