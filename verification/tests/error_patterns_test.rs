use netssh_core::device::DeviceType;
use netssh_core::error::NetsshError;
use netssh_core::vendor_error_patterns::{check_command_output, check_for_errors, get_error_patterns};

#[test]
fn finds_ios_invalid_input() {
    let out = "show vers\n% Invalid input detected at '^' marker.\nrouter#";
    assert_eq!(check_for_errors(out, &DeviceType::CiscoIos), Some("% Invalid input".to_string()));
}

#[test]
fn first_pattern_in_order_wins() {
    let out = "syntax error, expecting <command>";
    assert_eq!(check_for_errors(out, &DeviceType::JuniperJunos), Some("syntax error".to_string()));
}

#[test]
fn clean_output_has_no_error() {
    assert_eq!(check_for_errors("Interface Gi0/1 is up", &DeviceType::CiscoXr), None);
    assert!(check_command_output("all good", &DeviceType::CiscoAsa).is_ok());
}

#[test]
fn unknown_devices_use_ios_patterns() {
    assert_eq!(get_error_patterns(&DeviceType::Unknown), get_error_patterns(&DeviceType::CiscoIos));
    assert_eq!(get_error_patterns(&DeviceType::CiscoNxos).len(), 7);
}

#[test]
fn command_output_error_carries_match_and_output() {
    let out = "ERROR: bad thing";
    match check_command_output(out, &DeviceType::CiscoNxos) {
        Err(NetsshError::CommandErrorWithOutput { error_msg, output }) => {
            assert_eq!(error_msg, "ERROR: ");
            assert_eq!(output, out);
        }
        other => panic!("unexpected {:?}", other),
    }
}
