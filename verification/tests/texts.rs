use network_types::bus::network_error;
use network_types::text::{decimal_string, same_text};
use network_types::{BondMode, DeviceType, InvalidBondMode, InvalidDeviceType};

#[test]
fn decimal_string_matches_std_formatting() {
    for value in 0u8..=255 {
        assert_eq!(decimal_string(value), format!("{}", value));
    }
}

#[test]
fn decimal_string_edges() {
    assert_eq!(decimal_string(0), "0");
    assert_eq!(decimal_string(9), "9");
    assert_eq!(decimal_string(10), "10");
    assert_eq!(decimal_string(99), "99");
    assert_eq!(decimal_string(100), "100");
    assert_eq!(decimal_string(101), "101");
    assert_eq!(decimal_string(128), "128");
    assert_eq!(decimal_string(255), "255");
}

#[test]
fn same_text_compares_characters() {
    assert!(same_text("", ""));
    assert!(same_text("balance-rr", "balance-rr"));
    assert!(!same_text("balance-rr", "balance-xor"));
    assert!(!same_text("balance-tlb", "balance-alb"));
    assert!(!same_text("abc", "ab"));
    assert!(!same_text("", "a"));
    assert!(same_text("\u{e9}", "\u{e9}"));
    assert!(!same_text("\u{e9}", "\u{e8}"));
}

#[test]
fn network_error_prefixes_the_reason() {
    assert_eq!(network_error("boom"), "Network error: boom");
    assert_eq!(network_error(""), "Network error: ");
}

#[test]
fn invalid_device_type_becomes_a_generic_failure() {
    let error: zbus::fdo::Error = InvalidDeviceType(128).into();
    assert_eq!(
        error,
        zbus::fdo::Error::Failed(String::from("Network error: Invalid device type: 128"))
    );
}

#[test]
fn invalid_bond_mode_becomes_a_generic_failure() {
    let error = zbus::fdo::Error::from(InvalidBondMode(String::from("fastest")));
    assert_eq!(
        error,
        zbus::fdo::Error::Failed(String::from("Network error: Invalid bond mode: fastest"))
    );
}

#[test]
fn rejected_inputs_reach_the_generic_failure() {
    let error: zbus::fdo::Error = DeviceType::try_from(9).unwrap_err().into();
    assert_eq!(
        error,
        zbus::fdo::Error::Failed(String::from("Network error: Invalid device type: 9"))
    );
    let error: zbus::fdo::Error = BondMode::try_from(42).unwrap_err().into();
    assert_eq!(
        error,
        zbus::fdo::Error::Failed(String::from("Network error: Invalid bond mode: 42"))
    );
    let error: zbus::fdo::Error = BondMode::try_from("balance").unwrap_err().into();
    assert_eq!(
        error,
        zbus::fdo::Error::Failed(String::from("Network error: Invalid bond mode: balance"))
    );
}
