//! Connection configuration and its fluent builder.

use vstd::prelude::*;
use std::time::Duration;
use crate::settings::{duration_from_secs, duration_from_millis, duration_of_secs, duration_of_millis, get_ssh_timeout, Settings, SshTimeoutType};

verus! {

/// Configuration settings for connections.
#[derive(Debug)]
pub struct NetsshConfig {
    pub host: String,
    pub username: String,
    pub password: Option<String>,
    pub secret: Option<String>,
    pub default_port: u16,
    pub connection_timeout: Duration,
    pub read_timeout: Duration,
    pub write_timeout: Duration,
    pub read_buffer_size: usize,
    pub pattern_timeout: Duration,
    pub auto_clear_buffer: bool,
    pub retry_count: u32,
    pub retry_delay: Duration,
    pub enable_session_log: bool,
    pub session_log_path: String,
    pub blocking_timeout: Duration,
}

/// The configuration holds the documented defaults, its blocking timeout
/// taken from the default settings.
pub open spec fn is_default_config(c: NetsshConfig) -> bool {
    &&& has_default_fields(c)
    &&& c.blocking_timeout == duration_of_secs(30)
}

/// Every field but the blocking timeout holds its documented default.
pub open spec fn has_default_fields(c: NetsshConfig) -> bool {
    &&& c.host@ == Seq::<char>::empty()
    &&& c.username@ == Seq::<char>::empty()
    &&& c.password is None
    &&& c.secret is None
    &&& c.default_port == 22
    &&& c.connection_timeout == duration_of_secs(60)
    &&& c.read_timeout == duration_of_secs(10)
    &&& c.write_timeout == duration_of_secs(10)
    &&& c.read_buffer_size == 65536
    &&& c.pattern_timeout == duration_of_secs(20)
    &&& c.auto_clear_buffer
    &&& c.retry_count == 3
    &&& c.retry_delay == duration_of_millis(1000)
    &&& !c.enable_session_log
    &&& c.session_log_path@ == "logs/session.log"@
}

/// `b` is `a` with at most the fields that `changed` allows differing; every
/// other field is the same.
pub open spec fn same_config_except(a: NetsshConfig, b: NetsshConfig, changed: ConfigField) -> bool {
    &&& (changed != ConfigField::Host ==> b.host@ == a.host@)
    &&& (changed != ConfigField::Username ==> b.username@ == a.username@)
    &&& (changed != ConfigField::Password ==> b.password == a.password)
    &&& (changed != ConfigField::Secret ==> b.secret == a.secret)
    &&& (changed != ConfigField::DefaultPort ==> b.default_port == a.default_port)
    &&& (changed != ConfigField::ConnectionTimeout ==> b.connection_timeout == a.connection_timeout)
    &&& (changed != ConfigField::ReadTimeout ==> b.read_timeout == a.read_timeout)
    &&& (changed != ConfigField::WriteTimeout ==> b.write_timeout == a.write_timeout)
    &&& (changed != ConfigField::ReadBufferSize ==> b.read_buffer_size == a.read_buffer_size)
    &&& (changed != ConfigField::PatternTimeout ==> b.pattern_timeout == a.pattern_timeout)
    &&& (changed != ConfigField::AutoClearBuffer ==> b.auto_clear_buffer == a.auto_clear_buffer)
    &&& (changed != ConfigField::RetryCount ==> b.retry_count == a.retry_count)
    &&& (changed != ConfigField::RetryDelay ==> b.retry_delay == a.retry_delay)
    &&& (changed != ConfigField::EnableSessionLog ==> b.enable_session_log == a.enable_session_log)
    &&& (changed != ConfigField::SessionLogPath ==> b.session_log_path@ == a.session_log_path@)
    &&& b.blocking_timeout == a.blocking_timeout
}

/// The fields that a builder step may set.
#[derive(PartialEq, Eq, Structural)]
pub enum ConfigField {
    Host,
    Username,
    Password,
    Secret,
    DefaultPort,
    ConnectionTimeout,
    ReadTimeout,
    WriteTimeout,
    ReadBufferSize,
    PatternTimeout,
    AutoClearBuffer,
    RetryCount,
    RetryDelay,
    EnableSessionLog,
    SessionLogPath,
}

impl Clone for NetsshConfig {
    fn clone(&self) -> (c: Self)
        ensures
            same_config_except(*self, c, ConfigField::Password),
            same_config_except(*self, c, ConfigField::Secret),
            c.password == self.password,
            c.secret == self.secret,
    {
        NetsshConfig {
            host: self.host.clone(),
            username: self.username.clone(),
            password: self.password.clone(),
            secret: self.secret.clone(),
            default_port: self.default_port,
            connection_timeout: self.connection_timeout,
            read_timeout: self.read_timeout,
            write_timeout: self.write_timeout,
            read_buffer_size: self.read_buffer_size,
            pattern_timeout: self.pattern_timeout,
            auto_clear_buffer: self.auto_clear_buffer,
            retry_count: self.retry_count,
            retry_delay: self.retry_delay,
            enable_session_log: self.enable_session_log,
            session_log_path: self.session_log_path.clone(),
            blocking_timeout: self.blocking_timeout,
        }
    }
}

impl Default for NetsshConfig {
    fn default() -> (c: Self)
        ensures
            is_default_config(c),
    {
        NetsshConfig::from_settings(&Settings::default())
    }
}

impl NetsshConfig {
    /// The default configuration under `settings`: the documented defaults,
    /// with the blocking timeout that the settings give.
    pub fn from_settings(settings: &Settings) -> (c: Self)
        ensures
            has_default_fields(c),
            c.blocking_timeout == duration_of_secs(settings.ssh.blocking_timeout_secs),
    {
        NetsshConfig {
            host: String::new(),
            username: String::new(),
            password: None,
            secret: None,
            default_port: 22,
            connection_timeout: duration_from_secs(60),
            read_timeout: duration_from_secs(10),
            write_timeout: duration_from_secs(10),
            read_buffer_size: 65536,
            pattern_timeout: duration_from_secs(20),
            auto_clear_buffer: true,
            retry_count: 3,
            retry_delay: duration_from_millis(1000),
            enable_session_log: false,
            session_log_path: String::from_str("logs/session.log"),
            blocking_timeout: get_ssh_timeout(settings, SshTimeoutType::Blocking),
        }
    }
}

impl NetsshConfig {
    /// A configuration with the default settings.
    pub fn new() -> (c: Self)
        ensures
            is_default_config(c),
    {
        NetsshConfig::default()
    }

    /// A builder that starts from the default settings.
    pub fn builder() -> (b: NetsshConfigBuilder)
        ensures
            is_default_config(b.config),
    {
        NetsshConfigBuilder::new()
    }
}

/// Builder for `NetsshConfig` with a fluent API.
pub struct NetsshConfigBuilder {
    pub config: NetsshConfig,
}

impl Default for NetsshConfigBuilder {
    fn default() -> (b: Self)
        ensures
            is_default_config(b.config),
    {
        NetsshConfigBuilder { config: NetsshConfig::default() }
    }
}

impl NetsshConfigBuilder {
    pub fn new() -> (b: Self)
        ensures
            is_default_config(b.config),
    {
        NetsshConfigBuilder::default()
    }

    pub fn default_port(self, port: u16) -> (b: Self)
        ensures
            b.config.default_port == port,
            same_config_except(self.config, b.config, ConfigField::DefaultPort),
    {
        let mut s = self;
        s.config.default_port = port;
        s
    }

    pub fn connection_timeout(self, timeout: Duration) -> (b: Self)
        ensures
            b.config.connection_timeout == timeout,
            same_config_except(self.config, b.config, ConfigField::ConnectionTimeout),
    {
        let mut s = self;
        s.config.connection_timeout = timeout;
        s
    }

    pub fn read_timeout(self, timeout: Duration) -> (b: Self)
        ensures
            b.config.read_timeout == timeout,
            same_config_except(self.config, b.config, ConfigField::ReadTimeout),
    {
        let mut s = self;
        s.config.read_timeout = timeout;
        s
    }

    pub fn write_timeout(self, timeout: Duration) -> (b: Self)
        ensures
            b.config.write_timeout == timeout,
            same_config_except(self.config, b.config, ConfigField::WriteTimeout),
    {
        let mut s = self;
        s.config.write_timeout = timeout;
        s
    }

    pub fn read_buffer_size(self, size: usize) -> (b: Self)
        ensures
            b.config.read_buffer_size == size,
            same_config_except(self.config, b.config, ConfigField::ReadBufferSize),
    {
        let mut s = self;
        s.config.read_buffer_size = size;
        s
    }

    pub fn pattern_timeout(self, timeout: Duration) -> (b: Self)
        ensures
            b.config.pattern_timeout == timeout,
            same_config_except(self.config, b.config, ConfigField::PatternTimeout),
    {
        let mut s = self;
        s.config.pattern_timeout = timeout;
        s
    }

    pub fn auto_clear_buffer(self, enable: bool) -> (b: Self)
        ensures
            b.config.auto_clear_buffer == enable,
            same_config_except(self.config, b.config, ConfigField::AutoClearBuffer),
    {
        let mut s = self;
        s.config.auto_clear_buffer = enable;
        s
    }

    pub fn retry_count(self, count: u32) -> (b: Self)
        ensures
            b.config.retry_count == count,
            same_config_except(self.config, b.config, ConfigField::RetryCount),
    {
        let mut s = self;
        s.config.retry_count = count;
        s
    }

    pub fn retry_delay(self, delay: Duration) -> (b: Self)
        ensures
            b.config.retry_delay == delay,
            same_config_except(self.config, b.config, ConfigField::RetryDelay),
    {
        let mut s = self;
        s.config.retry_delay = delay;
        s
    }

    pub fn enable_session_log(self, enable: bool) -> (b: Self)
        ensures
            b.config.enable_session_log == enable,
            same_config_except(self.config, b.config, ConfigField::EnableSessionLog),
    {
        let mut s = self;
        s.config.enable_session_log = enable;
        s
    }

    pub fn session_log_path(self, path: String) -> (b: Self)
        ensures
            b.config.session_log_path@ == path@,
            same_config_except(self.config, b.config, ConfigField::SessionLogPath),
    {
        let mut s = self;
        s.config.session_log_path = path;
        s
    }

    pub fn host(self, host: String) -> (b: Self)
        ensures
            b.config.host@ == host@,
            same_config_except(self.config, b.config, ConfigField::Host),
    {
        let mut s = self;
        s.config.host = host;
        s
    }

    pub fn username(self, username: String) -> (b: Self)
        ensures
            b.config.username@ == username@,
            same_config_except(self.config, b.config, ConfigField::Username),
    {
        let mut s = self;
        s.config.username = username;
        s
    }

    pub fn password(self, password: String) -> (b: Self)
        ensures
            b.config.password == Some(password),
            same_config_except(self.config, b.config, ConfigField::Password),
    {
        let mut s = self;
        s.config.password = Some(password);
        s
    }

    pub fn secret(self, secret: String) -> (b: Self)
        ensures
            b.config.secret == Some(secret),
            same_config_except(self.config, b.config, ConfigField::Secret),
    {
        let mut s = self;
        s.config.secret = Some(secret);
        s
    }

    /// The configuration built so far.
    pub fn build(self) -> (c: NetsshConfig)
        ensures
            c == self.config,
    {
        self.config
    }
}

/// `a` and `b` agree on field `f`.
pub open spec fn field_same(a: NetsshConfig, b: NetsshConfig, f: ConfigField) -> bool {
    match f {
        ConfigField::Host => b.host@ == a.host@,
        ConfigField::Username => b.username@ == a.username@,
        ConfigField::Password => b.password == a.password,
        ConfigField::Secret => b.secret == a.secret,
        ConfigField::DefaultPort => b.default_port == a.default_port,
        ConfigField::ConnectionTimeout => b.connection_timeout == a.connection_timeout,
        ConfigField::ReadTimeout => b.read_timeout == a.read_timeout,
        ConfigField::WriteTimeout => b.write_timeout == a.write_timeout,
        ConfigField::ReadBufferSize => b.read_buffer_size == a.read_buffer_size,
        ConfigField::PatternTimeout => b.pattern_timeout == a.pattern_timeout,
        ConfigField::AutoClearBuffer => b.auto_clear_buffer == a.auto_clear_buffer,
        ConfigField::RetryCount => b.retry_count == a.retry_count,
        ConfigField::RetryDelay => b.retry_delay == a.retry_delay,
        ConfigField::EnableSessionLog => b.enable_session_log == a.enable_session_log,
        ConfigField::SessionLogPath => b.session_log_path@ == a.session_log_path@,
    }
}

/// One call of a builder setter, with its argument.
pub enum ConfigSet {
    Host(String),
    Username(String),
    Password(String),
    Secret(String),
    DefaultPort(u16),
    ConnectionTimeout(Duration),
    ReadTimeout(Duration),
    WriteTimeout(Duration),
    ReadBufferSize(usize),
    PatternTimeout(Duration),
    AutoClearBuffer(bool),
    RetryCount(u32),
    RetryDelay(Duration),
    EnableSessionLog(bool),
    SessionLogPath(String),
}

/// The field that a setter call sets.
pub open spec fn set_field(s: ConfigSet) -> ConfigField {
    match s {
        ConfigSet::Host(_) => ConfigField::Host,
        ConfigSet::Username(_) => ConfigField::Username,
        ConfigSet::Password(_) => ConfigField::Password,
        ConfigSet::Secret(_) => ConfigField::Secret,
        ConfigSet::DefaultPort(_) => ConfigField::DefaultPort,
        ConfigSet::ConnectionTimeout(_) => ConfigField::ConnectionTimeout,
        ConfigSet::ReadTimeout(_) => ConfigField::ReadTimeout,
        ConfigSet::WriteTimeout(_) => ConfigField::WriteTimeout,
        ConfigSet::ReadBufferSize(_) => ConfigField::ReadBufferSize,
        ConfigSet::PatternTimeout(_) => ConfigField::PatternTimeout,
        ConfigSet::AutoClearBuffer(_) => ConfigField::AutoClearBuffer,
        ConfigSet::RetryCount(_) => ConfigField::RetryCount,
        ConfigSet::RetryDelay(_) => ConfigField::RetryDelay,
        ConfigSet::EnableSessionLog(_) => ConfigField::EnableSessionLog,
        ConfigSet::SessionLogPath(_) => ConfigField::SessionLogPath,
    }
}

/// `c` holds the value that the setter call `s` gives its field (`password`
/// and `secret` hold it wrapped in `Some`).
pub open spec fn holds_set(c: NetsshConfig, s: ConfigSet) -> bool {
    match s {
        ConfigSet::Host(v) => c.host@ == v@,
        ConfigSet::Username(v) => c.username@ == v@,
        ConfigSet::Password(v) => c.password == Some(v),
        ConfigSet::Secret(v) => c.secret == Some(v),
        ConfigSet::DefaultPort(v) => c.default_port == v,
        ConfigSet::ConnectionTimeout(v) => c.connection_timeout == v,
        ConfigSet::ReadTimeout(v) => c.read_timeout == v,
        ConfigSet::WriteTimeout(v) => c.write_timeout == v,
        ConfigSet::ReadBufferSize(v) => c.read_buffer_size == v,
        ConfigSet::PatternTimeout(v) => c.pattern_timeout == v,
        ConfigSet::AutoClearBuffer(v) => c.auto_clear_buffer == v,
        ConfigSet::RetryCount(v) => c.retry_count == v,
        ConfigSet::RetryDelay(v) => c.retry_delay == v,
        ConfigSet::EnableSessionLog(v) => c.enable_session_log == v,
        ConfigSet::SessionLogPath(v) => c.session_log_path@ == v@,
    }
}

/// Call `k` is the last of `sets` that sets its field.
pub open spec fn last_for_field(sets: Seq<ConfigSet>, k: int) -> bool {
    &&& 0 <= k < sets.len()
    &&& forall|j: int| k < j < sets.len() ==> set_field(#[trigger] sets[j]) != set_field(sets[k])
}

/// Steps `m` to `n` of a chain of setter calls, none of which sets `f`,
/// leave `f` and the blocking timeout as they were.
proof fn lemma_untouched_field(chain: Seq<NetsshConfig>, sets: Seq<ConfigSet>, f: ConfigField, m: int, n: int)
    requires
        chain.len() == sets.len() + 1,
        forall|i: int| 0 <= i < sets.len() ==> same_config_except(chain[i], chain[i + 1], set_field(#[trigger] sets[i])),
        0 <= m <= n <= sets.len(),
        forall|j: int| m <= j < n ==> set_field(#[trigger] sets[j]) != f,
    ensures
        field_same(chain[m], chain[n], f),
        chain[n].blocking_timeout == chain[m].blocking_timeout,
    decreases n - m,
{
    if m < n {
        lemma_untouched_field(chain, sets, f, m, n - 1);
        assert(set_field(sets[n - 1]) != f);
        assert(same_config_except(chain[n - 1], chain[n], set_field(sets[n - 1])));
    }
}

/// Every step keeps the blocking timeout, so the whole chain does.
proof fn lemma_blocking_kept(chain: Seq<NetsshConfig>, m: int, n: int)
    requires
        0 <= m <= n < chain.len(),
        forall|i: int| m <= i < n ==> (#[trigger] chain[i + 1]).blocking_timeout == chain[i].blocking_timeout,
    ensures
        chain[n].blocking_timeout == chain[m].blocking_timeout,
    decreases n - m,
{
    if m < n {
        lemma_blocking_kept(chain, m, n - 1);
        assert(chain[(n - 1) + 1].blocking_timeout == chain[n - 1].blocking_timeout);
    }
}

/// A chain of builder setter calls `sets`, where `chain[i + 1]` is the
/// configuration after call `i` on `chain[i]` (each setter's contract says
/// that it sets its own field to its argument and keeps every other field):
/// the final configuration holds, for each field that some call sets, the
/// value of the last such call; every field that no call sets keeps its
/// starting value, and so does the blocking timeout. Started from
/// `NetsshConfig::builder()`, `build` then gives `new()` with the last value
/// of each field that was set.
pub proof fn lemma_builder_chain(chain: Seq<NetsshConfig>, sets: Seq<ConfigSet>)
    requires
        chain.len() == sets.len() + 1,
        forall|i: int| 0 <= i < sets.len() ==> same_config_except(chain[i], chain[i + 1], set_field(#[trigger] sets[i])),
        forall|i: int| 0 <= i < sets.len() ==> holds_set(chain[i + 1], #[trigger] sets[i]),
    ensures
        forall|k: int| #[trigger] last_for_field(sets, k) ==> holds_set(chain.last(), sets[k]),
        forall|f: ConfigField| (forall|i: int| 0 <= i < sets.len() ==> set_field(#[trigger] sets[i]) != f)
            ==> #[trigger] field_same(chain[0], chain.last(), f),
        chain.last().blocking_timeout == chain[0].blocking_timeout,
{
    let n = sets.len() as int;
    assert forall|k: int| #[trigger] last_for_field(sets, k) implies holds_set(chain.last(), sets[k]) by {
        lemma_untouched_field(chain, sets, set_field(sets[k]), k + 1, n);
        assert(holds_set(chain[k + 1], sets[k]));
    }
    assert forall|f: ConfigField| (forall|i: int| 0 <= i < sets.len() ==> set_field(#[trigger] sets[i]) != f)
        implies #[trigger] field_same(chain[0], chain.last(), f) by {
        lemma_untouched_field(chain, sets, f, 0, n);
    }
    assert forall|i: int| 0 <= i < n implies (#[trigger] chain[i + 1]).blocking_timeout == chain[i].blocking_timeout by {
        assert(same_config_except(chain[i], chain[i + 1], set_field(sets[i])));
    }
    lemma_blocking_kept(chain, 0, n);
}

} // verus!
