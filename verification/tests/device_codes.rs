use network_types::{Device, DeviceType, InvalidDeviceType};

const KINDS: [(u8, DeviceType); 5] = [
    (0, DeviceType::Loopback),
    (1, DeviceType::Ethernet),
    (2, DeviceType::Wireless),
    (3, DeviceType::Dummy),
    (4, DeviceType::Bond),
];

#[test]
fn device_type_codes_match_the_table() {
    for (code, kind) in KINDS {
        assert_eq!(DeviceType::try_from(code), Ok(kind));
        assert_eq!(kind.as_code(), code);
    }
}

#[test]
fn device_type_code_round_trips() {
    for code in 0u8..=4 {
        let kind = DeviceType::try_from(code).unwrap();
        assert_eq!(kind.as_code(), code);
    }
}

#[test]
fn device_type_rejects_every_other_code() {
    for code in 5u8..=255 {
        assert_eq!(DeviceType::try_from(code), Err(InvalidDeviceType(code)));
    }
}

#[test]
fn invalid_device_type_text() {
    assert_eq!(InvalidDeviceType(128).to_string(), "Invalid device type: 128");
    assert_eq!(InvalidDeviceType(5).to_string(), "Invalid device type: 5");
    assert_eq!(InvalidDeviceType(255).to_string(), "Invalid device type: 255");
}

#[test]
fn device_clone_keeps_name_and_kind() {
    let device = Device { name: String::from("wlan0"), type_: DeviceType::Wireless };
    let copy = device.clone();
    assert_eq!(copy.name, "wlan0");
    assert_eq!(copy.type_, DeviceType::Wireless);
    assert_eq!(device.name, copy.name);
}
