use netssh_core::api::{config_lookup_result, ApiError, ConfigRepository, DeviceController, DeviceTable};
use netssh_core::device::DeviceConfig;
use netssh_core::error::NetsshError;
use std::sync::Arc;

fn cfg(host: &str) -> DeviceConfig {
    DeviceConfig { host: host.to_string(), device_type: "cisco_ios".to_string(), ..DeviceConfig::default() }
}

#[test]
fn table_get_after_add_and_remove() {
    let mut t = DeviceTable::new();
    t.add("r1".to_string(), cfg("10.0.0.1"));
    t.add("r2".to_string(), cfg("10.0.0.2"));
    t.add("r1".to_string(), cfg("10.0.0.9"));
    assert_eq!(t.get("r1").unwrap().host, "10.0.0.9");
    assert_eq!(t.list(), vec!["r1".to_string(), "r2".to_string()]);
    assert!(t.remove("r1"));
    assert!(!t.remove("r1"));
    assert!(t.get("r1").is_none());
}

#[test]
fn repository_and_controller() {
    let repo = Arc::new(ConfigRepository::new());
    let controller = DeviceController::new(repo.clone());
    controller.register_device("sw1".to_string(), cfg("10.1.1.1"));
    assert_eq!(controller.list_devices(), vec!["sw1".to_string()]);
    assert_eq!(controller.device_config("sw1").unwrap().host, "10.1.1.1");
    match controller.device_config("nope") {
        Err(ApiError::NotFound(m)) => assert_eq!(m, "Device not found: nope"),
        other => panic!("unexpected {:?}", other.map(|c| c.host)),
    }
    assert!(repo.remove_device("sw1"));
    assert!(repo.get_device("sw1").is_none());
}

#[test]
fn api_error_messages() {
    assert_eq!(ApiError::NotFound("x".to_string()).message(), "Not Found: x");
    assert_eq!(ApiError::Unauthorized("y".to_string()).message(), "Unauthorized: y");
    match ApiError::from_netssh_error(&NetsshError::ConfigError("bad".to_string())) {
        ApiError::InternalError(m) => assert_eq!(m, "Configuration error: bad"),
        other => panic!("unexpected {:?}", other),
    }
}

#[test]
fn lookup_result_gives_config_or_not_found() {
    assert_eq!(config_lookup_result(Some(cfg("10.2.2.2")), "r9").unwrap().host, "10.2.2.2");
    match config_lookup_result(None, "r9") {
        Err(ApiError::NotFound(m)) => assert_eq!(m, "Device not found: r9"),
        other => panic!("unexpected {:?}", other.map(|c| c.host)),
    }
}

#[test]
fn repository_lists_each_id_once() {
    let repo = ConfigRepository::new();
    repo.add_device("a".to_string(), cfg("10.0.0.1"));
    repo.add_device("b".to_string(), cfg("10.0.0.2"));
    repo.add_device("a".to_string(), cfg("10.0.0.3"));
    assert_eq!(repo.list_devices(), vec!["a".to_string(), "b".to_string()]);
    assert_eq!(repo.get_device("a").unwrap().host, "10.0.0.3");
    assert!(repo.remove_device("a"));
    assert!(!repo.remove_device("a"));
}
