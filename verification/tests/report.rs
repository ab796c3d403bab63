use biosctl::attribute::{Attribute, AttributeType};
use biosctl::authentication::{Authentication, AuthenticationRole};
use biosctl::report::{
    attribute_report, attribute_summary, attribute_text, authentication_report, device_heading,
    device_summary, reboot_answer, role_description, status_description, value_text,
};
use biosctl::value::{FailureKind, IoFailure, ReadError};

fn denied() -> IoFailure {
    IoFailure { kind: FailureKind::PermissionDenied, os_code: Some(13) }
}

fn attribute(tpe: AttributeType) -> Attribute {
    Attribute {
        device_path: b"/sys/class/firmware-attributes/dell-wmi-sysman".to_vec(),
        name: b"FanSpeed".to_vec(),
        tpe,
        current_value: Ok("5".to_string()),
        default_value: Err(ReadError { path: b"/x".to_vec(), cause: denied() }),
        display_name: "Fan Speed".to_string(),
        display_name_lang: "en_US.UTF-8".to_string(),
    }
}

#[test]
fn integer_attribute_report() {
    let lines = attribute_report(
        "FanSpeed",
        &attribute(AttributeType::Integer { min: -10, max: 100, step: 5 }),
    );
    assert_eq!(
        lines,
        vec![
            "FanSpeed",
            "    Name: Fan Speed",
            "    Type: Integer",
            "        Min: -10",
            "        Max: 100",
            "        Step: 5",
            "    Current value: 5",
            "    Default value: <Access Denied>",
        ]
    );
}

#[test]
fn string_attribute_report() {
    let lines = attribute_report(
        "Asset",
        &attribute(AttributeType::String { min_length: 0, max_length: 64 }),
    );
    assert_eq!(
        lines,
        vec![
            "Asset",
            "    Name: Fan Speed",
            "    Type: String",
            "        Min: 0",
            "        Max: 64",
            "    Current value: 5",
            "    Default value: <Access Denied>",
        ]
    );
}

#[test]
fn enumeration_attribute_report() {
    let lines = attribute_report(
        "SecureBoot",
        &attribute(AttributeType::Enumeration {
            possible_values: vec!["Enabled".to_string(), "".to_string(), "Disabled".to_string()],
        }),
    );
    assert_eq!(
        lines,
        vec![
            "SecureBoot",
            "    Name: Fan Speed",
            "    Type: Enumeration",
            "        Possible Values:",
            "            Enabled",
            "            ",
            "            Disabled",
            "    Current value: 5",
            "    Default value: <Access Denied>",
        ]
    );
}

#[test]
fn enumeration_without_values_has_no_value_lines() {
    let lines = attribute_report(
        "Empty",
        &attribute(AttributeType::Enumeration { possible_values: Vec::new() }),
    );
    assert_eq!(lines.len(), 6);
    assert_eq!(lines[3], "        Possible Values:");
    assert_eq!(lines[4], "    Current value: 5");
}

#[test]
fn summary_joins_label_and_display_name() {
    let summary = attribute_summary(
        "FanSpeed",
        &attribute(AttributeType::String { min_length: 0, max_length: 1 }),
    );
    assert_eq!(summary, "FanSpeed: Fan Speed");
}

#[test]
fn attribute_text_selects_default_then_name_then_current() {
    let a = attribute(AttributeType::String { min_length: 0, max_length: 1 });
    assert_eq!(attribute_text(&a, false, false), "5");
    assert_eq!(attribute_text(&a, false, true), "Fan Speed");
    assert_eq!(attribute_text(&a, true, false), "<Access Denied>");
    assert_eq!(attribute_text(&a, true, true), "<Access Denied>");
}

#[test]
fn unreadable_value_is_shown_as_inaccessible() {
    assert_eq!(value_text(&Err(ReadError { path: Vec::new(), cause: denied() })), "<Access Denied>");
    assert_eq!(value_text(&Ok("Enabled".to_string())), "Enabled");
    assert_eq!(value_text(&Ok("".to_string())), "");
}

#[test]
fn roles_are_described() {
    assert_eq!(role_description(&AuthenticationRole::BiosAdmin), "Change BIOS Settings");
    assert_eq!(role_description(&AuthenticationRole::PowerOn), "Power on computer");
    assert_eq!(
        role_description(&AuthenticationRole::Unknown("hdd-user".to_string())),
        "Unknown role (hdd-user)"
    );
    assert_eq!(status_description(true), "Enabled");
    assert_eq!(status_description(false), "Disabled");
}

#[test]
fn authentication_method_report() {
    let method = Authentication {
        name: b"Admin".to_vec(),
        is_enabled: false,
        min_password_length: 4,
        max_password_length: 32,
        role: AuthenticationRole::BiosAdmin,
    };
    assert_eq!(
        authentication_report("Admin", &method),
        vec![
            "        Admin",
            "            Role: Change BIOS Settings",
            "            Status: Disabled",
        ]
    );
}

#[test]
fn device_summary_counts_attributes() {
    assert_eq!(
        device_summary("dell-wmi-sysman", 0, false, 0),
        vec!["Device: dell-wmi-sysman", "    0 attributes"]
    );
    assert_eq!(
        device_summary("dell-wmi-sysman", 137, true, 2),
        vec![
            "Device: dell-wmi-sysman",
            "    137 attributes",
            "",
            "    Reboot pending: configuration was modified!",
            "",
            "    Authentication methods:",
        ]
    );
    assert_eq!(
        device_summary("d", 1, false, 1),
        vec!["Device: d", "    1 attributes", "", "    Authentication methods:"]
    );
}

#[test]
fn reboot_answer_succeeds_only_when_a_reboot_is_pending() {
    assert_eq!(reboot_answer(true), ("true", 0));
    assert_eq!(reboot_answer(false), ("false", 1));
}

#[test]
fn device_heading_names_the_device() {
    assert_eq!(device_heading("dell-wmi-sysman"), "Device: dell-wmi-sysman");
    assert_eq!(device_heading(""), "Device: ");
}
