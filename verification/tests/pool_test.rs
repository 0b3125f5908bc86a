use netssh_core::device::DeviceConfig;
use netssh_core::error::NetsshError;
use netssh_core::pool::{is_expired, ConnectionPool, Pooled, CONNECTION_TIMEOUT_MS};
use std::time::Duration;

fn cfg(host: &str) -> DeviceConfig {
    DeviceConfig { host: host.to_string(), device_type: "cisco_ios".to_string(), ..DeviceConfig::default() }
}

#[test]
fn test_connection_pool_register_device() {
    let mut pool: ConnectionPool<String> = ConnectionPool::new();
    let device_id = "test_device".to_string();
    let config = DeviceConfig {
        device_type: "cisco_ios".to_string(),
        host: "192.168.1.1".to_string(),
        username: "admin".to_string(),
        password: Some("password".to_string()),
        port: Some(22),
        timeout: Some(Duration::from_secs(30)),
        secret: None,
        session_log: None,
    };
    assert!(pool.register_device(device_id.clone(), config));
    assert!(pool.is_registered(&device_id));
    let stored = pool.device_config(&device_id).unwrap();
    assert_eq!(stored.host, "192.168.1.1");
    assert_eq!(stored.port, Some(22));
    assert!(!pool.register_device(device_id.clone(), cfg("192.168.1.2")));
    assert_eq!(pool.device_config(&device_id).unwrap().host, "192.168.1.2");
}

#[test]
fn unregistered_device_is_refused() {
    let pool: ConnectionPool<String> = ConnectionPool::new();
    match pool.device_config("nope") {
        Err(NetsshError::DeviceError(m)) => assert_eq!(m, "Device not registered: nope"),
        other => panic!("unexpected {:?}", other.map(|c| c.host)),
    }
}

#[test]
fn idle_connections_are_reused_first_come_first_served() {
    let mut pool: ConnectionPool<String> = ConnectionPool::new();
    pool.register_device("r1".to_string(), cfg("10.0.0.1"));
    assert_eq!(pool.take_available("r1", 0), None);
    let a = pool.add_in_use("r1".to_string(), "conn-a".to_string(), 0).unwrap();
    let b = pool.add_in_use("r1".to_string(), "conn-b".to_string(), 10).unwrap();
    let c = pool.add_in_use("r2".to_string(), "conn-c".to_string(), 10).unwrap();
    assert_eq!((a, b, c), (0, 1, 2));
    assert_eq!(pool.take_available("r1", 20), None);
    assert!(pool.release(b, 30));
    assert!(pool.release(a, 40));
    assert_eq!(pool.take_available("r1", 50), Some(a));
    assert_eq!(pool.take_available("r1", 50), Some(b));
    assert_eq!(pool.take_available("r1", 50), None);
    assert_eq!(pool.connection(b).map(|s| s.as_str()), Some("conn-b"));
    assert_eq!(pool.connection(99), None);
    assert!(!pool.release(99, 60));
}

#[test]
fn expired_connections_are_not_lent_and_are_cleaned_up() {
    let mut pool: ConnectionPool<String> = ConnectionPool::new();
    let a = pool.add_in_use("r1".to_string(), "a".to_string(), 0).unwrap();
    let b = pool.add_in_use("r1".to_string(), "b".to_string(), 0).unwrap();
    let c = pool.add_in_use("r1".to_string(), "c".to_string(), 0).unwrap();
    pool.release(a, 1000);
    pool.release(b, 200_000);
    let late = 1000 + CONNECTION_TIMEOUT_MS + 1;
    assert_eq!(pool.take_available("r1", late), Some(b));
    pool.release(b, late);
    pool.cleanup(late);
    assert_eq!(pool.len(), 2);
    assert!(pool.connection(a).is_none());
    assert_eq!(pool.connection(b).map(|s| s.as_str()), Some("b"));
    assert_eq!(pool.connection(c).map(|s| s.as_str()), Some("c"));
    pool.cleanup(u64::MAX);
    assert_eq!(pool.len(), 1);
    assert!(pool.connection(c).is_some());
}

#[test]
fn expiry_is_strictly_after_the_timeout() {
    let p = Pooled { id: 0, device_id: "r1".to_string(), connection: (), in_use: false, last_used_ms: 500 };
    assert!(!is_expired(&p, 500 + CONNECTION_TIMEOUT_MS));
    assert!(is_expired(&p, 501 + CONNECTION_TIMEOUT_MS));
    assert!(!is_expired(&p, 0));
}
