use netssh_core::device::{
    cisco_ios_device_info, juniper_junos_device_info, CiscoDeviceConfig, DeviceConfig, DeviceFactory,
    DeviceType, DriverChoice, JuniperDeviceConfig,
};
use netssh_core::error::NetsshError;
use std::str::FromStr;
use std::time::Duration;

fn config(device_type: &str) -> DeviceConfig {
    DeviceConfig {
        host: "10.0.0.1".to_string(),
        username: "admin".to_string(),
        password: Some("pw".to_string()),
        device_type: device_type.to_string(),
        port: Some(2222),
        timeout: Some(Duration::from_secs(5)),
        secret: None,
        session_log: None,
    }
}

#[test]
fn parses_device_types_ignoring_case() {
    assert_eq!(DeviceType::from_str("cisco_ios"), Ok(DeviceType::CiscoIos));
    assert_eq!(DeviceType::from_str("CISCO_XR"), Ok(DeviceType::CiscoXr));
    assert_eq!(DeviceType::from_str("Juniper_Junos"), Ok(DeviceType::JuniperJunos));
    assert_eq!(DeviceType::from_str("arista"), Err("Unknown device type: arista".to_string()));
}

#[test]
fn device_type_names() {
    assert_eq!(DeviceType::CiscoNxos.to_string(), "cisco_nxos");
    assert_eq!(DeviceType::Unknown.to_string(), "unknown");
}

#[test]
fn parse_device_type_falls_back_to_unknown() {
    assert_eq!(DeviceFactory::parse_device_type("cisco_asa"), DeviceType::CiscoAsa);
    assert_eq!(DeviceFactory::parse_device_type("nokia"), DeviceType::Unknown);
}

#[test]
fn chooses_drivers_for_device_types() {
    assert_eq!(DeviceFactory::choose_driver(&config("")).unwrap(), DriverChoice::Autodetect);
    assert_eq!(DeviceFactory::choose_driver(&config("autodetect")).unwrap(), DriverChoice::Autodetect);
    assert_eq!(DeviceFactory::choose_driver(&config("cisco_nxos")).unwrap(), DriverChoice::Driver(DeviceType::CiscoNxos));
    match DeviceFactory::choose_driver(&config("Cisco_IOS")) {
        Err(NetsshError::UnsupportedOperation(m)) => assert_eq!(m, "Unsupported device type: Cisco_IOS"),
        other => panic!("unexpected {:?}", other),
    }
}

#[test]
fn detection_outcome_becomes_a_config() {
    let c = config("autodetect");
    let detected = DeviceFactory::config_after_detection(&c, Some("cisco_xr".to_string())).unwrap();
    assert_eq!(detected.device_type, "cisco_xr");
    assert_eq!(detected.host, "10.0.0.1");
    assert_eq!(detected.port, Some(2222));
    match DeviceFactory::config_after_detection(&c, None) {
        Err(NetsshError::UnsupportedOperation(m)) => assert_eq!(m, "Could not autodetect device type"),
        other => panic!("unexpected {:?}", other),
    }
}

#[test]
fn vendor_configs_copy_connection_settings() {
    let c = config("cisco_ios");
    let cisco = CiscoDeviceConfig::from_device_config(&c);
    assert_eq!(cisco.host, "10.0.0.1");
    assert_eq!(cisco.password, Some("pw".to_string()));
    assert_eq!(cisco.timeout, Some(Duration::from_secs(5)));
    let juniper = JuniperDeviceConfig::from_device_config(&c);
    assert_eq!(juniper.username, "admin");
    assert_eq!(juniper.port, Some(2222));
    assert_eq!(CiscoDeviceConfig::default().host, "");
    assert_eq!(DeviceConfig::default().device_type, "");
}

#[test]
fn reads_ios_version_output() {
    let out = "Cisco IOS Software, C2600 Software, Version 12.4(15)T14\nrouter uptime is 2 weeks\r\nCisco 2621 (MPC860) processor (revision 0x200) with 60416K bytes of memory.\n";
    let info = cisco_ios_device_info(out);
    assert_eq!(info.device_type, "cisco_ios");
    assert_eq!(info.version, "Cisco IOS Software, C2600 Software, Version 12.4(15)T14");
    assert_eq!(info.uptime, "router uptime is 2 weeks");
    assert_eq!(info.model, "Cisco 2621 (MPC860) processor (revision 0x200) with 60416K bytes of memory.");
    assert_eq!(info.hostname, "unknown");
    assert_eq!(info.serial, "unknown");
}

#[test]
fn reads_junos_version_output() {
    let out = "Hostname: r1\nModel: mx960\nJunos: 21.4R1\n";
    let info = juniper_junos_device_info(out);
    assert_eq!(info.model, "Model: mx960");
    assert_eq!(info.version, "Junos: 21.4R1");
    assert_eq!(info.uptime, "unknown");
}

#[test]
fn device_type_names_parse_back() {
    for t in [
        DeviceType::CiscoIos,
        DeviceType::CiscoXr,
        DeviceType::CiscoNxos,
        DeviceType::CiscoAsa,
        DeviceType::JuniperJunos,
        DeviceType::Unknown,
    ] {
        assert_eq!(DeviceFactory::parse_device_type(&t.to_string()), t);
        assert_eq!(DeviceFactory::parse_device_type(&t.to_string().to_uppercase()), t);
    }
}
