//! Tunable settings: timeouts, buffer sizes and concurrency limits.
//!
//! The settings in force are an explicit `Settings` value owned by the caller;
//! the lookup helpers read the value they are given.

use vstd::prelude::*;
use std::time::Duration;

verus! {

/// The value of `Duration::from_secs(secs)`.
pub uninterp spec fn duration_of_secs(secs: u64) -> Duration;

/// The value of `Duration::from_millis(millis)`.
pub uninterp spec fn duration_of_millis(millis: u64) -> Duration;

/// Calls `std::time::Duration::from_secs`; the result is the duration named
/// `duration_of_secs(secs)`.
#[verifier::external_body]
pub(crate) fn duration_from_secs(secs: u64) -> (d: Duration)
    ensures
        d == duration_of_secs(secs),
{
    Duration::from_secs(secs)
}

/// Calls `std::time::Duration::from_millis`; the result is the duration named
/// `duration_of_millis(millis)`.
#[verifier::external_body]
pub(crate) fn duration_from_millis(millis: u64) -> (d: Duration)
    ensures
        d == duration_of_millis(millis),
{
    Duration::from_millis(millis)
}

/// Global settings: network, SSH, buffer, concurrency and logging sections.
#[derive(Debug, Clone)]
pub struct Settings {
    pub network: NetworkSettings,
    pub ssh: SshSettings,
    pub buffer: BufferSettings,
    pub concurrency: ConcurrencySettings,
    pub logging: LoggingSettings,
}

/// Network-related timeout settings.
#[derive(Debug, Clone, Copy)]
pub struct NetworkSettings {
    pub tcp_connect_timeout_secs: u64,
    pub tcp_read_timeout_secs: u64,
    pub tcp_write_timeout_secs: u64,
    pub default_ssh_port: u16,
    pub command_response_timeout_secs: u64,
    pub pattern_match_timeout_secs: u64,
    pub command_exec_delay_ms: u64,
    pub retry_delay_ms: u64,
    pub max_retry_attempts: u32,
    pub device_operation_timeout_secs: u64,
}

/// SSH-related settings.
#[derive(Debug, Clone, Copy)]
pub struct SshSettings {
    pub blocking_timeout_secs: u64,
    pub auth_timeout_secs: u64,
    pub keepalive_interval_secs: u64,
    pub channel_open_timeout_secs: u64,
}

/// Buffer-related settings.
#[derive(Debug, Clone, Copy)]
pub struct BufferSettings {
    pub read_buffer_size: usize,
    pub buffer_pool_size: usize,
    pub buffer_reuse_threshold: usize,
    pub auto_clear_buffer: bool,
}

/// Concurrency-related settings.
#[derive(Debug, Clone, Copy)]
pub struct ConcurrencySettings {
    pub max_connections: usize,
    pub permit_acquire_timeout_ms: u64,
    pub connection_idle_timeout_secs: u64,
}

/// Logging-related settings.
#[derive(Debug, Clone)]
pub struct LoggingSettings {
    pub enable_session_log: bool,
    pub session_log_path: String,
    pub log_binary_data: bool,
}

/// The default network settings.
pub open spec fn default_network() -> NetworkSettings {
    NetworkSettings {
        tcp_connect_timeout_secs: 60,
        tcp_read_timeout_secs: 30,
        tcp_write_timeout_secs: 30,
        default_ssh_port: 22,
        command_response_timeout_secs: 30,
        pattern_match_timeout_secs: 20,
        command_exec_delay_ms: 100,
        retry_delay_ms: 1000,
        max_retry_attempts: 3,
        device_operation_timeout_secs: 120,
    }
}

/// The default SSH settings.
pub open spec fn default_ssh() -> SshSettings {
    SshSettings {
        blocking_timeout_secs: 30,
        auth_timeout_secs: 30,
        keepalive_interval_secs: 60,
        channel_open_timeout_secs: 20,
    }
}

/// The default buffer settings.
pub open spec fn default_buffer() -> BufferSettings {
    BufferSettings {
        read_buffer_size: 65536,
        buffer_pool_size: 32,
        buffer_reuse_threshold: 16384,
        auto_clear_buffer: true,
    }
}

/// The default concurrency settings.
pub open spec fn default_concurrency() -> ConcurrencySettings {
    ConcurrencySettings {
        max_connections: 100,
        permit_acquire_timeout_ms: 5000,
        connection_idle_timeout_secs: 300,
    }
}

/// The settings equal the defaults.
pub open spec fn is_default_settings(s: Settings) -> bool {
    &&& s.network == default_network()
    &&& s.ssh == default_ssh()
    &&& s.buffer == default_buffer()
    &&& s.concurrency == default_concurrency()
    &&& s.logging.enable_session_log == false
    &&& s.logging.session_log_path@ == "logs"@
    &&& s.logging.log_binary_data == false
}

/// Two settings values hold the same data.
pub open spec fn same_settings(a: Settings, b: Settings) -> bool {
    &&& a.network == b.network
    &&& a.ssh == b.ssh
    &&& a.buffer == b.buffer
    &&& a.concurrency == b.concurrency
    &&& a.logging.enable_session_log == b.logging.enable_session_log
    &&& a.logging.session_log_path@ == b.logging.session_log_path@
    &&& a.logging.log_binary_data == b.logging.log_binary_data
}

impl Default for NetworkSettings {
    fn default() -> (s: Self)
        ensures
            s == default_network(),
    {
        NetworkSettings {
            tcp_connect_timeout_secs: 60,
            tcp_read_timeout_secs: 30,
            tcp_write_timeout_secs: 30,
            default_ssh_port: 22,
            command_response_timeout_secs: 30,
            pattern_match_timeout_secs: 20,
            command_exec_delay_ms: 100,
            retry_delay_ms: 1000,
            max_retry_attempts: 3,
            device_operation_timeout_secs: 120,
        }
    }
}

impl Default for SshSettings {
    fn default() -> (s: Self)
        ensures
            s == default_ssh(),
    {
        SshSettings {
            blocking_timeout_secs: 30,
            auth_timeout_secs: 30,
            keepalive_interval_secs: 60,
            channel_open_timeout_secs: 20,
        }
    }
}

impl Default for BufferSettings {
    fn default() -> (s: Self)
        ensures
            s == default_buffer(),
    {
        BufferSettings {
            read_buffer_size: 65536,
            buffer_pool_size: 32,
            buffer_reuse_threshold: 16384,
            auto_clear_buffer: true,
        }
    }
}

impl Default for ConcurrencySettings {
    fn default() -> (s: Self)
        ensures
            s == default_concurrency(),
    {
        ConcurrencySettings {
            max_connections: 100,
            permit_acquire_timeout_ms: 5000,
            connection_idle_timeout_secs: 300,
        }
    }
}

impl Default for LoggingSettings {
    fn default() -> (s: Self)
        ensures
            s.enable_session_log == false,
            s.session_log_path@ == "logs"@,
            s.log_binary_data == false,
    {
        LoggingSettings {
            enable_session_log: false,
            session_log_path: String::from_str("logs"),
            log_binary_data: false,
        }
    }
}

impl Default for Settings {
    fn default() -> (s: Self)
        ensures
            is_default_settings(s),
    {
        Settings {
            network: NetworkSettings::default(),
            ssh: SshSettings::default(),
            buffer: BufferSettings::default(),
            concurrency: ConcurrencySettings::default(),
            logging: LoggingSettings::default(),
        }
    }
}

impl Settings {
    /// A field-by-field copy of these settings.
    pub fn duplicate(&self) -> (r: Settings)
        ensures
            same_settings(r, *self),
    {
        Settings {
            network: self.network,
            ssh: self.ssh,
            buffer: self.buffer,
            concurrency: self.concurrency,
            logging: LoggingSettings {
                enable_session_log: self.logging.enable_session_log,
                session_log_path: self.logging.session_log_path.clone(),
                log_binary_data: self.logging.log_binary_data,
            },
        }
    }

    /// Installs `loaded` (settings read from a file by the caller) as the
    /// current settings, or the defaults when none were loaded.
    pub fn init(current: &mut Settings, loaded: Option<Settings>) -> (r: Result<(), String>)
        ensures
            r is Ok,
            match loaded {
                Some(s) => *final(current) == s,
                None => is_default_settings(*final(current)),
            },
    {
        match loaded {
            Some(s) => { *current = s; },
            None => { *current = Settings::default(); },
        }
        Ok(())
    }

    /// Initializes the current settings from the workspace configuration when
    /// one is given, falling back to the defaults.
    pub fn init_from_workspace_config(current: &mut Settings, workspace: Option<Settings>) -> (r: Result<(), String>)
        ensures
            r is Ok,
            match workspace {
                Some(s) => *final(current) == s,
                None => is_default_settings(*final(current)),
            },
    {
        Settings::init(current, workspace)
    }

    /// A copy of the current settings.
    pub fn get(current: &Settings) -> (r: Result<Settings, String>)
        ensures
            r matches Ok(s) && same_settings(s, *current),
    {
        Ok(current.duplicate())
    }

    /// Replaces the current settings with `updated`.
    pub fn update(current: &mut Settings, updated: Settings) -> (r: Result<(), String>)
        ensures
            r is Ok,
            *final(current) == updated,
    {
        *current = updated;
        Ok(())
    }
}

/// Types of network timeouts.
#[derive(Debug, Clone, Copy, PartialEq, Eq, Structural)]
pub enum NetworkTimeoutType {
    TcpConnect,
    TcpRead,
    TcpWrite,
    CommandResponse,
    PatternMatch,
    DeviceOperation,
}

/// Types of SSH timeouts.
#[derive(Debug, Clone, Copy, PartialEq, Eq, Structural)]
pub enum SshTimeoutType {
    Blocking,
    Auth,
    ChannelOpen,
    KeepaliveInterval,
}

/// Types of concurrency settings.
#[derive(Debug, Clone, Copy, PartialEq, Eq, Structural)]
pub enum ConcurrencySettingType {
    MaxConnections,
    PermitAcquireTimeoutMs,
    ConnectionIdleTimeoutSecs,
}

/// Types of buffer settings.
#[derive(Debug, Clone, Copy, PartialEq, Eq, Structural)]
pub enum BufferSettingType {
    ReadBufferSize,
    BufferPoolSize,
    BufferReuseThreshold,
}

/// The number of seconds of a network timeout in the given settings.
pub open spec fn network_timeout_secs(s: Settings, t: NetworkTimeoutType) -> u64 {
    match t {
        NetworkTimeoutType::TcpConnect => s.network.tcp_connect_timeout_secs,
        NetworkTimeoutType::TcpRead => s.network.tcp_read_timeout_secs,
        NetworkTimeoutType::TcpWrite => s.network.tcp_write_timeout_secs,
        NetworkTimeoutType::CommandResponse => s.network.command_response_timeout_secs,
        NetworkTimeoutType::PatternMatch => s.network.pattern_match_timeout_secs,
        NetworkTimeoutType::DeviceOperation => s.network.device_operation_timeout_secs,
    }
}

/// The number of seconds of an SSH timeout in the given settings.
pub open spec fn ssh_timeout_secs(s: Settings, t: SshTimeoutType) -> u64 {
    match t {
        SshTimeoutType::Blocking => s.ssh.blocking_timeout_secs,
        SshTimeoutType::Auth => s.ssh.auth_timeout_secs,
        SshTimeoutType::ChannelOpen => s.ssh.channel_open_timeout_secs,
        SshTimeoutType::KeepaliveInterval => s.ssh.keepalive_interval_secs,
    }
}

/// The value of a concurrency setting.
pub open spec fn concurrency_value(s: Settings, t: ConcurrencySettingType) -> int {
    match t {
        ConcurrencySettingType::MaxConnections => s.concurrency.max_connections as int,
        ConcurrencySettingType::PermitAcquireTimeoutMs => s.concurrency.permit_acquire_timeout_ms as int,
        ConcurrencySettingType::ConnectionIdleTimeoutSecs => s.concurrency.connection_idle_timeout_secs as int,
    }
}

/// The value of a buffer setting.
pub open spec fn buffer_value(s: Settings, t: BufferSettingType) -> usize {
    match t {
        BufferSettingType::ReadBufferSize => s.buffer.read_buffer_size,
        BufferSettingType::BufferPoolSize => s.buffer.buffer_pool_size,
        BufferSettingType::BufferReuseThreshold => s.buffer.buffer_reuse_threshold,
    }
}

/// The network timeout of the given type.
pub fn get_network_timeout(settings: &Settings, timeout_type: NetworkTimeoutType) -> (d: Duration)
    ensures
        d == duration_of_secs(network_timeout_secs(*settings, timeout_type)),
{
    let secs = match timeout_type {
        NetworkTimeoutType::TcpConnect => settings.network.tcp_connect_timeout_secs,
        NetworkTimeoutType::TcpRead => settings.network.tcp_read_timeout_secs,
        NetworkTimeoutType::TcpWrite => settings.network.tcp_write_timeout_secs,
        NetworkTimeoutType::CommandResponse => settings.network.command_response_timeout_secs,
        NetworkTimeoutType::PatternMatch => settings.network.pattern_match_timeout_secs,
        NetworkTimeoutType::DeviceOperation => settings.network.device_operation_timeout_secs,
    };
    duration_from_secs(secs)
}

/// The SSH timeout of the given type.
pub fn get_ssh_timeout(settings: &Settings, timeout_type: SshTimeoutType) -> (d: Duration)
    ensures
        d == duration_of_secs(ssh_timeout_secs(*settings, timeout_type)),
{
    let secs = match timeout_type {
        SshTimeoutType::Blocking => settings.ssh.blocking_timeout_secs,
        SshTimeoutType::Auth => settings.ssh.auth_timeout_secs,
        SshTimeoutType::ChannelOpen => settings.ssh.channel_open_timeout_secs,
        SshTimeoutType::KeepaliveInterval => settings.ssh.keepalive_interval_secs,
    };
    duration_from_secs(secs)
}

/// The concurrency setting of the given type.
pub fn get_concurrency_setting(settings: &Settings, setting_type: ConcurrencySettingType) -> (v: u64)
    ensures
        v as int == concurrency_value(*settings, setting_type),
{
    match setting_type {
        ConcurrencySettingType::MaxConnections => settings.concurrency.max_connections as u64,
        ConcurrencySettingType::PermitAcquireTimeoutMs => settings.concurrency.permit_acquire_timeout_ms,
        ConcurrencySettingType::ConnectionIdleTimeoutSecs => settings.concurrency.connection_idle_timeout_secs,
    }
}

/// The buffer setting of the given type.
pub fn get_buffer_setting(settings: &Settings, setting_type: BufferSettingType) -> (v: usize)
    ensures
        v == buffer_value(*settings, setting_type),
{
    match setting_type {
        BufferSettingType::ReadBufferSize => settings.buffer.read_buffer_size,
        BufferSettingType::BufferPoolSize => settings.buffer.buffer_pool_size,
        BufferSettingType::BufferReuseThreshold => settings.buffer.buffer_reuse_threshold,
    }
}

} // verus!
