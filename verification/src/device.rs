//! Device kinds, connection settings, and choosing a driver for a device.

use vstd::prelude::*;
use std::time::Duration;
use crate::error::NetsshError;
use crate::text::{chars_of, contains, lines_of, split_lines, str_contains, str_eq, trim, trim_str};

verus! {

/// Different types of network devices supported by this library.
#[derive(Debug, Clone, Copy, PartialEq, Eq, Structural)]
pub enum DeviceType {
    /// Cisco IOS device
    CiscoIos,
    /// Cisco IOS XR device
    CiscoXr,
    /// Cisco NX-OS device
    CiscoNxos,
    /// Cisco ASA device
    CiscoAsa,
    /// Juniper Junos device
    JuniperJunos,
    /// Unknown device type
    Unknown,
}

/// `c` equals the lower-case letter or other character `t`, ignoring ASCII case.
pub open spec fn char_ieq(c: char, t: char) -> bool {
    c == t || ('a' <= t && t <= 'z' && c as u32 == t as u32 - 32)
}

/// `s` spells `t` (which is lower case) in any mix of ASCII cases.
///
/// For the names below, none of which holds a `k`, this is exactly
/// "`s` lower-cased by `str::to_lowercase` equals `t`": no other character
/// lower-cases into an ASCII letter, digit or underscore.
pub open spec fn name_matches(s: Seq<char>, t: Seq<char>) -> bool {
    s.len() == t.len() && forall|i: int| 0 <= i < s.len() ==> char_ieq(#[trigger] s[i], t[i])
}

/// Whether `s` spells `t` ignoring ASCII case.
pub fn name_eq(s: &str, t: &str) -> (b: bool)
    ensures
        b == name_matches(s@, t@),
{
    let a = chars_of(s);
    let b = chars_of(t);
    if a.len() != b.len() {
        return false;
    }
    let mut i: usize = 0;
    while i < a.len()
        invariant
            a@ == s@,
            b@ == t@,
            a@.len() == b@.len(),
            0 <= i <= a@.len(),
            forall|j: int| 0 <= j < i ==> char_ieq(#[trigger] a@[j], b@[j]),
        decreases a@.len() - i,
    {
        let c = a[i];
        let d = b[i];
        let ok = c == d || ('a' <= d && d <= 'z' && c as u32 == (d as u32) - 32);
        if !ok {
            return false;
        }
        i = i + 1;
    }
    true
}

/// The device type a name stands for.
pub open spec fn device_type_of(s: Seq<char>) -> Option<DeviceType> {
    if name_matches(s, "cisco_ios"@) {
        Some(DeviceType::CiscoIos)
    } else if name_matches(s, "cisco_xr"@) {
        Some(DeviceType::CiscoXr)
    } else if name_matches(s, "cisco_nxos"@) {
        Some(DeviceType::CiscoNxos)
    } else if name_matches(s, "cisco_asa"@) {
        Some(DeviceType::CiscoAsa)
    } else if name_matches(s, "juniper_junos"@) {
        Some(DeviceType::JuniperJunos)
    } else {
        None
    }
}

/// The name of a device type.
pub open spec fn device_type_name(t: DeviceType) -> Seq<char> {
    match t {
        DeviceType::CiscoIos => "cisco_ios"@,
        DeviceType::CiscoXr => "cisco_xr"@,
        DeviceType::CiscoNxos => "cisco_nxos"@,
        DeviceType::CiscoAsa => "cisco_asa"@,
        DeviceType::JuniperJunos => "juniper_junos"@,
        DeviceType::Unknown => "unknown"@,
    }
}

impl DeviceType {
    /// Parses a device type name, ignoring ASCII case; an unknown name is an
    /// error that quotes it.
    pub fn parse(s: &str) -> (r: Result<DeviceType, String>)
        ensures
            match device_type_of(s@) {
                Some(t) => r == Ok::<DeviceType, String>(t),
                None => r matches Err(e) && e@ == "Unknown device type: "@ + s@,
            },
    {
        if name_eq(s, "cisco_ios") {
            Ok(DeviceType::CiscoIos)
        } else if name_eq(s, "cisco_xr") {
            Ok(DeviceType::CiscoXr)
        } else if name_eq(s, "cisco_nxos") {
            Ok(DeviceType::CiscoNxos)
        } else if name_eq(s, "cisco_asa") {
            Ok(DeviceType::CiscoAsa)
        } else if name_eq(s, "juniper_junos") {
            Ok(DeviceType::JuniperJunos)
        } else {
            let prefix = String::from_str("Unknown device type: ");
            Err(prefix.concat(s))
        }
    }

    /// The name of this device type.
    pub fn to_string(&self) -> (r: String)
        ensures
            r@ == device_type_name(*self),
    {
        match self {
            DeviceType::CiscoIos => String::from_str("cisco_ios"),
            DeviceType::CiscoXr => String::from_str("cisco_xr"),
            DeviceType::CiscoNxos => String::from_str("cisco_nxos"),
            DeviceType::CiscoAsa => String::from_str("cisco_asa"),
            DeviceType::JuniperJunos => String::from_str("juniper_junos"),
            DeviceType::Unknown => String::from_str("unknown"),
        }
    }
}

impl std::str::FromStr for DeviceType {
    type Err = String;

    fn from_str(s: &str) -> (r: Result<Self, Self::Err>)
        ensures
            match device_type_of(s@) {
                Some(t) => r == Ok::<DeviceType, String>(t),
                None => r matches Err(e) && e@ == "Unknown device type: "@ + s@,
            },
    {
        DeviceType::parse(s)
    }
}

/// Information about a network device.
#[derive(Debug, Clone)]
pub struct DeviceInfo {
    /// Type of the device (vendor/OS)
    pub device_type: String,
    /// Hostname of the device
    pub hostname: String,
    /// Software version running on the device
    pub version: String,
    /// Model of the device
    pub model: String,
    /// Serial number of the device
    pub serial: String,
    /// Uptime of the device
    pub uptime: String,
}

/// Configuration for device connections.
#[derive(Debug, Clone, Hash, Eq, PartialEq)]
pub struct DeviceConfig {
    /// Hostname or IP address of the device
    pub host: String,
    /// Username for authentication
    pub username: String,
    /// Password for authentication
    pub password: Option<String>,
    /// Type of device (e.g., cisco_ios, juniper_junos)
    pub device_type: String,
    /// SSH port (default: 22)
    pub port: Option<u16>,
    /// Connection timeout
    pub timeout: Option<Duration>,
    /// Enable secret or privileged mode password
    pub secret: Option<String>,
    /// Whether to enable session logging
    pub session_log: Option<String>,
}

/// The view of an optional string.
pub open spec fn ostr(o: Option<String>) -> Option<Seq<char>> {
    match o {
        Some(s) => Some(s@),
        None => None,
    }
}

/// A copy of an optional string.
pub fn copy_opt(o: &Option<String>) -> (r: Option<String>)
    ensures
        ostr(r) == ostr(*o),
{
    match o {
        Some(s) => Some(s.clone()),
        None => None,
    }
}

/// A copy of an optional duration.
pub fn copy_opt_duration(o: &Option<Duration>) -> (r: Option<Duration>)
    ensures
        r == *o,
{
    match o {
        Some(d) => Some(*d),
        None => None,
    }
}

/// The same connection settings with `device_type` replaced.
pub open spec fn same_connection(a: DeviceConfig, b: DeviceConfig) -> bool {
    &&& a.host@ == b.host@
    &&& a.username@ == b.username@
    &&& ostr(a.password) == ostr(b.password)
    &&& a.port == b.port
    &&& a.timeout == b.timeout
    &&& ostr(a.secret) == ostr(b.secret)
    &&& ostr(a.session_log) == ostr(b.session_log)
}

impl Default for DeviceConfig {
    fn default() -> (r: Self)
        ensures
            r.device_type@ == Seq::<char>::empty(),
            r.host@ == Seq::<char>::empty(),
            r.username@ == Seq::<char>::empty(),
            r.password is None,
            r.port is None,
            r.timeout is None,
            r.secret is None,
            r.session_log is None,
    {
        DeviceConfig {
            device_type: String::new(),
            host: String::new(),
            username: String::new(),
            password: None,
            port: None,
            timeout: None,
            secret: None,
            session_log: None,
        }
    }
}

impl View for DeviceConfig {
    type V = DeviceConfig;

    open spec fn view(&self) -> DeviceConfig {
        *self
    }
}

/// Two configurations say the same.
pub open spec fn same_config(a: DeviceConfig, b: DeviceConfig) -> bool {
    a.device_type@ == b.device_type@ && same_connection(a, b)
}

impl DeviceConfig {
    /// A copy of these settings.
    pub fn duplicate(&self) -> (r: DeviceConfig)
        ensures
            same_config(r, *self),
    {
        self.with_device_type(self.device_type.clone())
    }

    /// These settings for another device type.
    pub fn with_device_type(&self, device_type: String) -> (r: DeviceConfig)
        ensures
            r.device_type@ == device_type@,
            same_connection(r, *self),
    {
        DeviceConfig {
            device_type,
            host: self.host.clone(),
            username: self.username.clone(),
            password: copy_opt(&self.password),
            port: self.port,
            timeout: copy_opt_duration(&self.timeout),
            secret: copy_opt(&self.secret),
            session_log: copy_opt(&self.session_log),
        }
    }
}

/// Connection settings of a Cisco device.
#[derive(Debug, Clone)]
pub struct CiscoDeviceConfig {
    pub host: String,
    pub username: String,
    pub password: Option<String>,
    pub port: Option<u16>,
    pub timeout: Option<Duration>,
    pub secret: Option<String>,
    pub session_log: Option<String>,
}

impl Default for CiscoDeviceConfig {
    fn default() -> (r: Self)
        ensures
            r.host@ == Seq::<char>::empty(),
            r.username@ == Seq::<char>::empty(),
            r.password is None,
            r.port is None,
            r.timeout is None,
            r.secret is None,
            r.session_log is None,
    {
        CiscoDeviceConfig {
            host: String::new(),
            username: String::new(),
            password: None,
            port: None,
            timeout: None,
            secret: None,
            session_log: None,
        }
    }
}

impl CiscoDeviceConfig {
    /// The Cisco settings carried by a device configuration.
    pub fn from_device_config(c: &DeviceConfig) -> (r: Self)
        ensures
            r.host@ == c.host@,
            r.username@ == c.username@,
            ostr(r.password) == ostr(c.password),
            r.port == c.port,
            r.timeout == c.timeout,
            ostr(r.secret) == ostr(c.secret),
            ostr(r.session_log) == ostr(c.session_log),
    {
        CiscoDeviceConfig {
            host: c.host.clone(),
            username: c.username.clone(),
            password: copy_opt(&c.password),
            port: c.port,
            timeout: copy_opt_duration(&c.timeout),
            secret: copy_opt(&c.secret),
            session_log: copy_opt(&c.session_log),
        }
    }
}

/// Connection settings of a Juniper device.
#[derive(Debug, Clone)]
pub struct JuniperDeviceConfig {
    pub host: String,
    pub username: String,
    pub password: Option<String>,
    pub port: Option<u16>,
    pub timeout: Option<Duration>,
    pub secret: Option<String>,
    pub session_log: Option<String>,
}

impl Default for JuniperDeviceConfig {
    fn default() -> (r: Self)
        ensures
            r.host@ == Seq::<char>::empty(),
            r.username@ == Seq::<char>::empty(),
            r.password is None,
            r.port is None,
            r.timeout is None,
            r.secret is None,
            r.session_log is None,
    {
        JuniperDeviceConfig {
            host: String::new(),
            username: String::new(),
            password: None,
            port: None,
            timeout: None,
            secret: None,
            session_log: None,
        }
    }
}

impl JuniperDeviceConfig {
    /// The Juniper settings carried by a device configuration.
    pub fn from_device_config(c: &DeviceConfig) -> (r: Self)
        ensures
            r.host@ == c.host@,
            r.username@ == c.username@,
            ostr(r.password) == ostr(c.password),
            r.port == c.port,
            r.timeout == c.timeout,
            ostr(r.secret) == ostr(c.secret),
            ostr(r.session_log) == ostr(c.session_log),
    {
        JuniperDeviceConfig {
            host: c.host.clone(),
            username: c.username.clone(),
            password: copy_opt(&c.password),
            port: c.port,
            timeout: copy_opt_duration(&c.timeout),
            secret: copy_opt(&c.secret),
            session_log: copy_opt(&c.session_log),
        }
    }
}

/// How to obtain a connection for a configuration.
#[derive(Debug, Clone, Copy, PartialEq, Eq, Structural)]
pub enum DriverChoice {
    /// Detect the device type first, then choose again.
    Autodetect,
    /// Connect with the driver of this device type.
    Driver(DeviceType),
}

/// The driver chosen for a configured device type name, or the error quoted
/// for a name that has none. Names are compared exactly here.
pub open spec fn driver_choice_of(name: Seq<char>) -> Result<DriverChoice, Seq<char>> {
    if name.len() == 0 || name == "autodetect"@ {
        Ok(DriverChoice::Autodetect)
    } else if name == "cisco_ios"@ {
        Ok(DriverChoice::Driver(DeviceType::CiscoIos))
    } else if name == "cisco_xr"@ {
        Ok(DriverChoice::Driver(DeviceType::CiscoXr))
    } else if name == "cisco_nxos"@ {
        Ok(DriverChoice::Driver(DeviceType::CiscoNxos))
    } else if name == "cisco_asa"@ {
        Ok(DriverChoice::Driver(DeviceType::CiscoAsa))
    } else if name == "juniper_junos"@ {
        Ok(DriverChoice::Driver(DeviceType::JuniperJunos))
    } else {
        Err("Unsupported device type: "@ + name)
    }
}

/// Factory for creating network device connections.
pub struct DeviceFactory;

impl DeviceFactory {
    /// Chooses how to connect to the configured device: detection for an empty
    /// or `autodetect` type, the matching driver for a supported type, and an
    /// `UnsupportedOperation` error otherwise.
    pub fn choose_driver(config: &DeviceConfig) -> (r: Result<DriverChoice, NetsshError>)
        ensures
            match driver_choice_of(config.device_type@) {
                Ok(c) => r == Ok::<DriverChoice, NetsshError>(c),
                Err(m) => r matches Err(NetsshError::UnsupportedOperation(e)) && e@ == m,
            },
            r matches Ok(DriverChoice::Driver(d)) ==> device_type_name(d) == config.device_type@,
    {
        proof {
            assert forall|d: DeviceType| driver_choice_of(config.device_type@) == Ok::<DriverChoice, Seq<char>>(DriverChoice::Driver(d))
                implies device_type_name(d) == config.device_type@ by {
                lemma_driver_matches_name(d, config.device_type@);
            }
        }
        let t = config.device_type.as_str();
        if t.is_empty() || str_eq(t, "autodetect") {
            Ok(DriverChoice::Autodetect)
        } else if str_eq(t, "cisco_ios") {
            Ok(DriverChoice::Driver(DeviceType::CiscoIos))
        } else if str_eq(t, "cisco_xr") {
            Ok(DriverChoice::Driver(DeviceType::CiscoXr))
        } else if str_eq(t, "cisco_nxos") {
            Ok(DriverChoice::Driver(DeviceType::CiscoNxos))
        } else if str_eq(t, "cisco_asa") {
            Ok(DriverChoice::Driver(DeviceType::CiscoAsa))
        } else if str_eq(t, "juniper_junos") {
            Ok(DriverChoice::Driver(DeviceType::JuniperJunos))
        } else {
            let prefix = String::from_str("Unsupported device type: ");
            Err(NetsshError::UnsupportedOperation(prefix.concat(t)))
        }
    }

    /// The configuration to connect with once detection has run: the detected
    /// type in place of `autodetect`, or an `UnsupportedOperation` error when
    /// nothing was detected.
    pub fn config_after_detection(config: &DeviceConfig, detected: Option<String>) -> (r: Result<DeviceConfig, NetsshError>)
        ensures
            match detected {
                Some(t) => r matches Ok(c) && c.device_type@ == t@ && same_connection(c, *config),
                None => r matches Err(NetsshError::UnsupportedOperation(e))
                    && e@ == "Could not autodetect device type"@,
            },
    {
        match detected {
            Some(t) => Ok(config.with_device_type(t)),
            None => Err(NetsshError::UnsupportedOperation(String::from_str("Could not autodetect device type"))),
        }
    }

    /// Parses a device type name, falling back to `Unknown`.
    pub fn parse_device_type(device_type_str: &str) -> (t: DeviceType)
        ensures
            t == match device_type_of(device_type_str@) {
                Some(d) => d,
                None => DeviceType::Unknown,
            },
    {
        match DeviceType::parse(device_type_str) {
            Ok(t) => t,
            Err(_) => DeviceType::Unknown,
        }
    }
}

/// Version, uptime and model found in `show version` output.
pub struct VersionFacts {
    pub version: Seq<char>,
    pub uptime: Seq<char>,
    pub model: Seq<char>,
}

/// What the lines of `show version` tell: for each line in turn, a line with
/// the version marker sets the version, else one with the uptime marker sets
/// the uptime, else one with both model markers sets the model; each to the
/// trimmed line, the last such line winning; `unknown` where none did.
pub open spec fn version_facts(lines: Seq<Seq<char>>, vm: Seq<char>, um: Seq<char>, ma: Seq<char>, mb: Seq<char>) -> VersionFacts
    decreases lines.len(),
{
    if lines.len() == 0 {
        VersionFacts { version: "unknown"@, uptime: "unknown"@, model: "unknown"@ }
    } else {
        let f = version_facts(lines.drop_last(), vm, um, ma, mb);
        let l = lines.last();
        if contains(l, vm) {
            VersionFacts { version: trim(l), ..f }
        } else if contains(l, um) {
            VersionFacts { uptime: trim(l), ..f }
        } else if contains(l, ma) && contains(l, mb) {
            VersionFacts { model: trim(l), ..f }
        } else {
            f
        }
    }
}

/// Builds device information from `show version` output.
pub fn device_info_from_version(
    device_type: &str,
    output: &str,
    version_marker: &str,
    uptime_marker: &str,
    model_marker_a: &str,
    model_marker_b: &str,
) -> (info: DeviceInfo)
    ensures
        info.device_type@ == device_type@,
        info.hostname@ == "unknown"@,
        info.serial@ == "unknown"@,
        info.version@ == version_facts(split_lines(output@), version_marker@, uptime_marker@, model_marker_a@, model_marker_b@).version,
        info.uptime@ == version_facts(split_lines(output@), version_marker@, uptime_marker@, model_marker_a@, model_marker_b@).uptime,
        info.model@ == version_facts(split_lines(output@), version_marker@, uptime_marker@, model_marker_a@, model_marker_b@).model,
{
    let lines = lines_of(output);
    let ghost ls = split_lines(output@);
    let mut version = String::from_str("unknown");
    let mut uptime = String::from_str("unknown");
    let mut model = String::from_str("unknown");
    let mut i: usize = 0;
    while i < lines.len()
        invariant
            0 <= i <= lines@.len(),
            crate::text::strings_view(lines@) == ls,
            ({
                let f = version_facts(ls.take(i as int), version_marker@, uptime_marker@, model_marker_a@, model_marker_b@);
                version@ == f.version && uptime@ == f.uptime && model@ == f.model
            }),
        decreases lines@.len() - i,
    {
        let l = lines[i].as_str();
        proof {
            assert(ls.take(i as int + 1).drop_last() =~= ls.take(i as int));
            assert(ls.take(i as int + 1).last() == l@);
        }
        if str_contains(l, version_marker) {
            version = trim_str(l);
        } else if str_contains(l, uptime_marker) {
            uptime = trim_str(l);
        } else if str_contains(l, model_marker_a) && str_contains(l, model_marker_b) {
            model = trim_str(l);
        }
        i = i + 1;
    }
    proof { assert(ls.take(lines@.len() as int) =~= ls); }
    DeviceInfo {
        device_type: device_type.to_owned(),
        hostname: String::from_str("unknown"),
        version,
        model,
        serial: String::from_str("unknown"),
        uptime,
    }
}

/// Device information of a Cisco IOS device from its `show version` output.
pub fn cisco_ios_device_info(output: &str) -> (info: DeviceInfo)
    ensures
        info.device_type@ == "cisco_ios"@,
        info.hostname@ == "unknown"@,
        info.serial@ == "unknown"@,
        info.version@ == version_facts(split_lines(output@), "IOS Software"@, "uptime is"@, "processor"@, "with"@).version,
        info.uptime@ == version_facts(split_lines(output@), "IOS Software"@, "uptime is"@, "processor"@, "with"@).uptime,
        info.model@ == version_facts(split_lines(output@), "IOS Software"@, "uptime is"@, "processor"@, "with"@).model,
{
    device_info_from_version("cisco_ios", output, "IOS Software", "uptime is", "processor", "with")
}

/// Device information of a Juniper Junos device from its `show version` output.
pub fn juniper_junos_device_info(output: &str) -> (info: DeviceInfo)
    ensures
        info.device_type@ == "juniper_junos"@,
        info.hostname@ == "unknown"@,
        info.serial@ == "unknown"@,
        info.version@ == version_facts(split_lines(output@), "Junos:"@, "uptime:"@, "Model:"@, "Model:"@).version,
        info.uptime@ == version_facts(split_lines(output@), "Junos:"@, "uptime:"@, "Model:"@, "Model:"@).uptime,
        info.model@ == version_facts(split_lines(output@), "Junos:"@, "uptime:"@, "Model:"@, "Model:"@).model,
{
    device_info_from_version("juniper_junos", output, "Junos:", "uptime:", "Model:", "Model:")
}

/// Every supported device type reads back from its own name, whatever the
/// ASCII case it is written in: `parse` undoes `to_string`.
pub proof fn lemma_name_round_trip(t: DeviceType)
    requires
        t != DeviceType::Unknown,
    ensures
        device_type_of(device_type_name(t)) == Some(t),
{
    reveal_strlit("cisco_ios");
    reveal_strlit("cisco_xr");
    reveal_strlit("cisco_nxos");
    reveal_strlit("cisco_asa");
    reveal_strlit("juniper_junos");
    let n = device_type_name(t);
    assert(name_matches(n, n));
    if t == DeviceType::CiscoXr {
        assert(!name_matches(n, "cisco_ios"@));
    } else if t == DeviceType::CiscoNxos {
        assert(!name_matches(n, "cisco_ios"@));
        assert(!name_matches(n, "cisco_xr"@));
    } else if t == DeviceType::CiscoAsa {
        assert(!name_matches(n, "cisco_xr"@));
        assert(!name_matches(n, "cisco_nxos"@));
        assert(!char_ieq(n[6], "cisco_ios"@[6]));
        assert(!name_matches(n, "cisco_ios"@));
    } else if t == DeviceType::JuniperJunos {
        assert(!char_ieq(n[0], 'c'));
        assert(!name_matches(n, "cisco_ios"@));
        assert(!name_matches(n, "cisco_xr"@));
        assert(!name_matches(n, "cisco_nxos"@));
        assert(!name_matches(n, "cisco_asa"@));
    }
}

/// `parse_device_type` gives back every device type from its name, the
/// `unknown` type included (its name is no supported type's name).
pub proof fn lemma_parse_device_type_round_trip(t: DeviceType)
    ensures
        (match device_type_of(device_type_name(t)) {
            Some(d) => d,
            None => DeviceType::Unknown,
        }) == t,
{
    if t == DeviceType::Unknown {
        reveal_strlit("unknown");
        reveal_strlit("cisco_ios");
        reveal_strlit("cisco_xr");
        reveal_strlit("cisco_nxos");
        reveal_strlit("cisco_asa");
        reveal_strlit("juniper_junos");
    } else {
        lemma_name_round_trip(t);
    }
}

/// The driver chosen for a supported device type's name is the driver of
/// that very type, and a chosen driver's type is named by the configured
/// name: the choice never swaps one supported type for another. An empty
/// name and `autodetect` ask for detection, and any other name that names no
/// supported type is refused.
pub proof fn lemma_driver_matches_name(t: DeviceType, name: Seq<char>)
    ensures
        driver_choice_of(Seq::empty()) == Ok::<DriverChoice, Seq<char>>(DriverChoice::Autodetect),
        driver_choice_of("autodetect"@) == Ok::<DriverChoice, Seq<char>>(DriverChoice::Autodetect),
        (name.len() > 0 && name != "autodetect"@
            && forall|d: DeviceType| d != DeviceType::Unknown ==> name != #[trigger] device_type_name(d))
            ==> driver_choice_of(name) is Err,
        t != DeviceType::Unknown ==> driver_choice_of(device_type_name(t)) == Ok::<DriverChoice, Seq<char>>(DriverChoice::Driver(t)),
        driver_choice_of(name) == Ok::<DriverChoice, Seq<char>>(DriverChoice::Driver(t)) ==> device_type_name(t) == name,
{
    reveal_strlit("autodetect");
    reveal_strlit("cisco_ios");
    reveal_strlit("cisco_xr");
    reveal_strlit("cisco_nxos");
    reveal_strlit("cisco_asa");
    reveal_strlit("juniper_junos");
    assert(device_type_name(DeviceType::CiscoIos) == "cisco_ios"@);
    assert(device_type_name(DeviceType::CiscoXr) == "cisco_xr"@);
    assert(device_type_name(DeviceType::CiscoNxos) == "cisco_nxos"@);
    assert(device_type_name(DeviceType::CiscoAsa) == "cisco_asa"@);
    assert(device_type_name(DeviceType::JuniperJunos) == "juniper_junos"@);
    let n = device_type_name(t);
    if t == DeviceType::CiscoXr {
        assert(n != "cisco_ios"@);
    } else if t == DeviceType::CiscoNxos {
        assert(n[0] != "autodetect"@[0]);
    } else if t == DeviceType::CiscoAsa {
        assert(n[6] != "cisco_ios"@[6]);
    }
}

} // verus!
