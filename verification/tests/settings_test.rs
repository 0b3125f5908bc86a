use netssh_core::settings::{
    get_buffer_setting, get_concurrency_setting, get_network_timeout, get_ssh_timeout, BufferSettingType,
    ConcurrencySettingType, NetworkTimeoutType, Settings, SshTimeoutType,
};
use std::time::Duration;

#[test]
fn test_settings_default() {
    let settings = Settings::default();

    assert_eq!(settings.network.tcp_connect_timeout_secs, 60);
    assert_eq!(settings.network.default_ssh_port, 22);
    assert_eq!(settings.network.max_retry_attempts, 3);

    assert_eq!(settings.ssh.blocking_timeout_secs, 30);
    assert_eq!(settings.ssh.keepalive_interval_secs, 60);

    assert_eq!(settings.buffer.read_buffer_size, 65536);
    assert_eq!(settings.buffer.buffer_pool_size, 32);
    assert!(settings.buffer.auto_clear_buffer);

    assert_eq!(settings.concurrency.max_connections, 100);
    assert_eq!(settings.concurrency.permit_acquire_timeout_ms, 5000);

    assert_eq!(settings.logging.enable_session_log, false);
    assert_eq!(settings.logging.session_log_path, "logs");
}

#[test]
fn test_get_network_timeout() {
    let mut settings = Settings::default();
    let _ = Settings::init(&mut settings, None);

    let tcp_connect = get_network_timeout(&settings, NetworkTimeoutType::TcpConnect);
    assert_eq!(tcp_connect, Duration::from_secs(60));

    let tcp_read = get_network_timeout(&settings, NetworkTimeoutType::TcpRead);
    assert_eq!(tcp_read, Duration::from_secs(30));

    let pattern_match = get_network_timeout(&settings, NetworkTimeoutType::PatternMatch);
    assert_eq!(pattern_match, Duration::from_secs(20));
}

#[test]
fn test_get_ssh_timeout() {
    let mut settings = Settings::default();
    let _ = Settings::init(&mut settings, None);

    let blocking = get_ssh_timeout(&settings, SshTimeoutType::Blocking);
    assert_eq!(blocking, Duration::from_secs(30));

    let keepalive = get_ssh_timeout(&settings, SshTimeoutType::KeepaliveInterval);
    assert_eq!(keepalive, Duration::from_secs(60));
}

#[test]
fn test_get_concurrency_setting() {
    let mut settings = Settings::default();
    let _ = Settings::init(&mut settings, None);

    let max_connections = get_concurrency_setting(&settings, ConcurrencySettingType::MaxConnections);
    assert_eq!(max_connections, 100);

    let permit_timeout = get_concurrency_setting(&settings, ConcurrencySettingType::PermitAcquireTimeoutMs);
    assert_eq!(permit_timeout, 5000);
}

#[test]
fn test_get_buffer_setting() {
    let mut settings = Settings::default();
    let _ = Settings::init(&mut settings, None);

    let buffer_size = get_buffer_setting(&settings, BufferSettingType::ReadBufferSize);
    assert_eq!(buffer_size, 65536);

    let pool_size = get_buffer_setting(&settings, BufferSettingType::BufferPoolSize);
    assert_eq!(pool_size, 32);
}

#[test]
fn test_settings_update() {
    let mut settings = Settings::default();
    let _ = Settings::init(&mut settings, None);

    let mut updated = settings.duplicate();
    updated.network.tcp_connect_timeout_secs = 120;
    updated.buffer.read_buffer_size = 131072;
    Settings::update(&mut settings, updated).unwrap();

    let timeout = get_network_timeout(&settings, NetworkTimeoutType::TcpConnect);
    assert_eq!(timeout, Duration::from_secs(120));

    let buffer_size = get_buffer_setting(&settings, BufferSettingType::ReadBufferSize);
    assert_eq!(buffer_size, 131072);
}

#[test]
fn test_settings_init_from_workspace_config() {
    let mut settings = Settings::default();
    let result = Settings::init_from_workspace_config(&mut settings, None);

    assert!(result.is_ok(), "Failed to initialize from workspace config: {:?}", result);

    let timeout = get_network_timeout(&settings, NetworkTimeoutType::TcpConnect);
    assert!(timeout.as_secs() > 0);

    let buffer_size = get_buffer_setting(&settings, BufferSettingType::ReadBufferSize);
    assert!(buffer_size > 0);
}

#[test]
fn init_installs_loaded_settings() {
    let mut settings = Settings::default();
    let mut loaded = Settings::default();
    loaded.ssh.auth_timeout_secs = 7;
    Settings::init(&mut settings, Some(loaded)).unwrap();
    assert_eq!(get_ssh_timeout(&settings, SshTimeoutType::Auth), Duration::from_secs(7));
}

#[test]
fn get_returns_a_copy_of_current_settings() {
    let mut settings = Settings::default();
    settings.logging.session_log_path = "elsewhere".to_string();
    let copy = Settings::get(&settings).unwrap();
    assert_eq!(copy.logging.session_log_path, "elsewhere");
    assert_eq!(copy.network.tcp_connect_timeout_secs, 60);
}
