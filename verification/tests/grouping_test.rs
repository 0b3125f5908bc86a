use netssh_core::api::{DeviceDetails, InterfaceConfigRequest};
use netssh_core::command_result::utils::{compare_outputs, group_by_command, group_by_device};
use netssh_core::command_result::{BatchCommandResults, CommandResult};
use netssh_core::session::{context_change_command, context_change_result, echo_pattern, multiline_steps};
use std::time::Duration;

fn ok(ip: &str, cmd: &str, out: &str) -> CommandResult {
    CommandResult::success(None, ip.to_string(), "h".to_string(), "cisco_ios".to_string(), cmd.to_string(), out.to_string())
}

fn batch() -> BatchCommandResults {
    let mut b = BatchCommandResults::new();
    b.add_result(ok("10.0.0.1", "show clock", "12:00"));
    b.add_result(ok("10.0.0.1", "show ver", "15.2"));
    b.add_result(ok("10.0.0.2", "show clock", "12:00"));
    b.add_result(ok("10.0.0.3", "show clock", "12:01"));
    b.add_result(CommandResult::skipped(None, "10.0.0.4".into(), "h".into(), "p".into(), "show clock".into()));
    b
}

#[test]
fn groups_by_command_and_device() {
    let b = batch();
    let by_cmd = group_by_command(&b);
    assert_eq!(by_cmd.len(), 2);
    assert_eq!(by_cmd.key_at(0), "show clock");
    assert_eq!(by_cmd.get("show clock").unwrap().len(), 4);
    assert_eq!(by_cmd.get("show ver").unwrap()[0].device_ip, "10.0.0.1");
    let by_dev = group_by_device(&b);
    assert_eq!(by_dev.len(), 4);
    assert_eq!(by_dev.get("10.0.0.1").unwrap().len(), 2);
}

#[test]
fn compares_outputs_across_devices() {
    let b = batch();
    let cmp = compare_outputs(&b, "show clock");
    assert_eq!(cmp.len(), 2);
    assert_eq!(cmp.get("12:00").unwrap(), &vec!["10.0.0.1".to_string(), "10.0.0.2".to_string()]);
    assert_eq!(cmp.get("12:01").unwrap(), &vec!["10.0.0.3".to_string()]);
    assert!(compare_outputs(&b, "show nothing").is_empty());
}

fn details() -> DeviceDetails {
    DeviceDetails {
        device_type: "cisco_ios".to_string(),
        host: "10.0.0.1".to_string(),
        username: "admin".to_string(),
        password: None,
        port: Some(22),
        timeout: Some(30),
        secret: None,
        session_log: None,
    }
}

#[test]
fn interface_requests_become_commands() {
    let req = InterfaceConfigRequest {
        device: details(),
        name: "Gi0/1".to_string(),
        description: Some("uplink".to_string()),
        ip_address: Some("10.1.1.1".to_string()),
        subnet_mask: Some("255.255.255.0".to_string()),
        admin_status: Some("up".to_string()),
    };
    assert_eq!(
        req.config_commands(),
        vec!["interface Gi0/1", "description uplink", "ip address 10.1.1.1 255.255.255.0", "no shutdown"]
    );
    let bare = InterfaceConfigRequest { description: None, ip_address: None, admin_status: Some("down".to_string()), ..req };
    assert_eq!(bare.config_commands(), vec!["interface Gi0/1", "shutdown"]);
}

#[test]
fn details_become_device_configs() {
    let c = details().to_device_config();
    assert_eq!(c.host, "10.0.0.1");
    assert_eq!(c.timeout, Some(Duration::from_secs(30)));
    assert_eq!(c.device_type, "cisco_ios");
}

#[test]
fn asa_context_and_echo_helpers() {
    assert_eq!(context_change_command("admin"), "changeto context admin\n");
    assert!(context_change_result("admin", "fw/admin#").is_ok());
    assert!(context_change_result("bad", "ERROR: context not found").is_err());
    assert_eq!(echo_pattern("  show ip int brief "), Some("show ip int brief".to_string()));
    assert_eq!(echo_pattern("a.b"), Some("a\\.b".to_string()));
    assert_eq!(echo_pattern("   "), None);
}

#[test]
fn multiline_steps_pick_expectations() {
    let cmds = vec![
        vec!["copy run start".to_string(), "Destination".to_string()],
        vec!["".to_string()],
        vec![],
        vec!["delete x".to_string(), "".to_string()],
    ];
    let steps = multiline_steps(&cmds, "r1#");
    assert_eq!(
        steps,
        vec![
            ("copy run start".to_string(), "Destination".to_string()),
            ("".to_string(), "r1#".to_string()),
            ("delete x".to_string(), "r1#".to_string()),
        ]
    );
}
