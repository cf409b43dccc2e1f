use btmon::battery::BatteryLevel;
use btmon::device::{format_device_output, join, Device, DeviceAddress};

#[test]
fn test_device_has_battery_info() {
    let device_with_single = Device {
        name: "Test".to_string(),
        address: DeviceAddress::Ble,
        battery_level: BatteryLevel::new(50),
        battery_left: None,
        battery_right: None,
        battery_case: None,
    };
    assert!(device_with_single.has_battery_info());

    let device_with_left_right = Device {
        name: "AirPods".to_string(),
        address: DeviceAddress::Classic("aa:bb:cc:dd:ee:ff".to_string()),
        battery_level: None,
        battery_left: BatteryLevel::new(80),
        battery_right: BatteryLevel::new(90),
        battery_case: None,
    };
    assert!(device_with_left_right.has_battery_info());

    let device_without_battery = Device {
        name: "Mouse".to_string(),
        address: DeviceAddress::Ble,
        battery_level: None,
        battery_left: None,
        battery_right: None,
        battery_case: None,
    };
    assert!(!device_without_battery.has_battery_info());
}

#[test]
fn test_format_device_output_single() {
    let device = Device {
        name: "Keyboard".to_string(),
        address: DeviceAddress::Ble,
        battery_level: BatteryLevel::new(76),
        battery_left: None,
        battery_right: None,
        battery_case: None,
    };
    assert_eq!(format_device_output(&device), "Keyboard: 76%");
}

#[test]
fn test_format_device_output_airpods() {
    let device = Device {
        name: "AirPods Pro".to_string(),
        address: DeviceAddress::Classic("aa:bb:cc:dd:ee:ff".to_string()),
        battery_level: None,
        battery_left: BatteryLevel::new(80),
        battery_right: BatteryLevel::new(90),
        battery_case: BatteryLevel::new(100),
    };
    assert_eq!(
        format_device_output(&device),
        "AirPods Pro: L:80% R:90% Case:100%"
    );
}

fn parts(left: u8, right: u8, case: u8) -> Device {
    Device {
        name: "Buds".to_string(),
        address: DeviceAddress::Classic("00:11:22:33:44:55".to_string()),
        battery_level: None,
        battery_left: BatteryLevel::new(left),
        battery_right: BatteryLevel::new(right),
        battery_case: BatteryLevel::new(case),
    }
}

#[test]
fn has_battery_info_sees_each_field_alone() {
    assert!(parts(1, 0, 0).has_battery_info());
    assert!(parts(0, 1, 0).has_battery_info());
    assert!(parts(0, 0, 1).has_battery_info());
    assert!(!parts(0, 0, 0).has_battery_info());
    assert!(!parts(101, 255, 0).has_battery_info());
}

#[test]
fn format_lists_only_the_parts_that_have_a_reading() {
    assert_eq!(format_device_output(&parts(80, 0, 0)), "Buds: L:80%");
    assert_eq!(format_device_output(&parts(0, 90, 0)), "Buds: R:90%");
    assert_eq!(format_device_output(&parts(0, 0, 100)), "Buds: Case:100%");
    assert_eq!(format_device_output(&parts(5, 0, 7)), "Buds: L:5% Case:7%");
    assert_eq!(format_device_output(&parts(0, 15, 7)), "Buds: R:15% Case:7%");
}

#[test]
fn format_of_a_device_without_readings_ends_after_the_colon() {
    assert_eq!(format_device_output(&parts(0, 0, 0)), "Buds: ");
}

#[test]
fn format_prefers_the_single_reading() {
    let device = Device {
        name: "Headset".to_string(),
        address: DeviceAddress::Ble,
        battery_level: BatteryLevel::new(33),
        battery_left: BatteryLevel::new(80),
        battery_right: BatteryLevel::new(90),
        battery_case: BatteryLevel::new(100),
    };
    assert_eq!(format_device_output(&device), "Headset: 33%");
}

#[test]
fn format_keeps_the_name_as_it_is() {
    let device = Device {
        name: "Zoë's Trackpad: №2".to_string(),
        address: DeviceAddress::Ble,
        battery_level: BatteryLevel::new(100),
        battery_left: None,
        battery_right: None,
        battery_case: None,
    };
    assert_eq!(format_device_output(&device), "Zoë's Trackpad: №2: 100%");
    let nameless = Device {
        name: String::new(),
        address: DeviceAddress::Ble,
        battery_level: BatteryLevel::new(1),
        battery_left: None,
        battery_right: None,
        battery_case: None,
    };
    assert_eq!(format_device_output(&nameless), ": 1%");
}

#[test]
fn address_text() {
    assert_eq!(DeviceAddress::Ble.to_string(), "BLE");
    assert_eq!(
        DeviceAddress::Classic("aa:bb:cc:dd:ee:ff".to_string()).to_string(),
        "aa:bb:cc:dd:ee:ff"
    );
    assert_eq!(DeviceAddress::Classic(String::new()).to_string(), "");
}

#[test]
fn join_puts_the_separator_between() {
    let none: Vec<String> = Vec::new();
    assert_eq!(join(&none, ", "), "");
    assert_eq!(join(&vec!["a".to_string()], ", "), "a");
    assert_eq!(
        join(&vec!["a".to_string(), "b".to_string(), "c".to_string()], ", "),
        "a, b, c"
    );
    assert_eq!(join(&vec![String::new(), String::new()], "-"), "-");
    assert_eq!(join(&vec!["x".to_string(), "y".to_string()], ""), "xy");
}

#[test]
fn a_cloned_address_is_the_same_address() {
    let classic = DeviceAddress::Classic("aa:bb:cc:dd:ee:ff".to_string());
    assert_eq!(classic.clone().to_string(), "aa:bb:cc:dd:ee:ff");
    assert!(matches!(classic.clone(), DeviceAddress::Classic(_)));
    assert!(matches!(DeviceAddress::Ble.clone(), DeviceAddress::Ble));
}
