//! The service side of the library: a registry of device configurations,
//! the controller that looks devices up, its errors, and request shapes.

use vstd::prelude::*;
use std::sync::Arc;
use parking_lot::Mutex;
use crate::device::{DeviceConfig, same_config};
use crate::error::{NetsshError, error_message};
use crate::keyed::{KeyedList, assoc_get, assoc_insert, has_key, key_index, keys_distinct};
use crate::sync::{guard_replace, mutex_lock, mutex_new};

verus! {

/// Error type for API operations.
#[derive(Debug, Clone)]
pub enum ApiError {
    NotFound(String),
    BadRequest(String),
    InternalError(String),
    Unauthorized(String),
}

/// The rendered message of an API error.
pub open spec fn api_error_message(e: ApiError) -> Seq<char> {
    match e {
        ApiError::NotFound(m) => "Not Found: "@ + m@,
        ApiError::BadRequest(m) => "Bad Request: "@ + m@,
        ApiError::InternalError(m) => "Internal Error: "@ + m@,
        ApiError::Unauthorized(m) => "Unauthorized: "@ + m@,
    }
}

impl ApiError {
    /// The human readable message of this error.
    pub fn message(&self) -> (r: String)
        ensures
            r@ == api_error_message(*self),
    {
        let (prefix, m) = match self {
            ApiError::NotFound(m) => ("Not Found: ", m),
            ApiError::BadRequest(m) => ("Bad Request: ", m),
            ApiError::InternalError(m) => ("Internal Error: ", m),
            ApiError::Unauthorized(m) => ("Unauthorized: ", m),
        };
        let mut r = String::from_str(prefix);
        r.append(m.as_str());
        r
    }

    /// A library error seen by the API: an internal error with its message.
    pub fn from_netssh_error(err: &NetsshError) -> (r: ApiError)
        ensures
            r matches ApiError::InternalError(m) && m@ == error_message(*err),
    {
        ApiError::InternalError(err.message())
    }
}

/// Device configurations by device id.
pub struct DeviceTable {
    entries: KeyedList<DeviceConfig>,
}

impl View for DeviceTable {
    type V = Seq<(Seq<char>, DeviceConfig)>;

    closed spec fn view(&self) -> Seq<(Seq<char>, DeviceConfig)> {
        self.entries@
    }
}

impl DeviceTable {
    #[verifier::type_invariant]
    spec fn inv(&self) -> bool {
        self.entries.wf()
    }

    /// An empty table.
    pub fn new() -> (r: Self)
        ensures
            r@.len() == 0,
            keys_distinct(r@),
    {
        DeviceTable { entries: KeyedList::new() }
    }

    /// Stores the configuration of a device, replacing an earlier one.
    pub fn add(&mut self, device_id: String, config: DeviceConfig)
        ensures
            final(self)@ == assoc_insert(old(self)@, device_id@, config),
            keys_distinct(old(self)@),
            keys_distinct(final(self)@),
    {
        proof { use_type_invariant(&*self); self.entries.lemma_wf(); }
        let mut e = KeyedList::new();
        std::mem::swap(&mut e, &mut self.entries);
        e.insert(device_id, config);
        proof { e.lemma_wf(); }
        self.entries = e;
    }

    /// A copy of the configuration of a device.
    pub fn get(&self, device_id: &str) -> (r: Option<DeviceConfig>)
        ensures
            keys_distinct(self@),
            match assoc_get(self@, device_id@) {
                Some(c) => r matches Some(d) && same_config(d, c),
                None => r is None,
            },
    {
        proof { use_type_invariant(self); self.entries.lemma_wf(); }
        match self.entries.get(device_id) {
            Some(c) => Some(c.duplicate()),
            None => None,
        }
    }

    /// Removes a device; whether it was there.
    pub fn remove(&mut self, device_id: &str) -> (b: bool)
        ensures
            keys_distinct(old(self)@),
            keys_distinct(final(self)@),
            b == has_key(old(self)@, device_id@),
            b ==> final(self)@ == old(self)@.remove(key_index(old(self)@, device_id@)),
            !b ==> final(self)@ == old(self)@,
    {
        proof { use_type_invariant(&*self); self.entries.lemma_wf(); }
        let mut e = KeyedList::new();
        std::mem::swap(&mut e, &mut self.entries);
        let r = e.remove(device_id);
        proof { e.lemma_wf(); }
        self.entries = e;
        r.is_some()
    }

    /// The device ids, in the order they were first added.
    pub fn list(&self) -> (r: Vec<String>)
        ensures
            keys_distinct(self@),
            r@.len() == self@.len(),
            forall|i: int| 0 <= i < r@.len() ==> (#[trigger] r@[i])@ == self@[i].0,
    {
        proof { use_type_invariant(self); self.entries.lemma_wf(); }
        self.entries.keys()
    }
}

/// What a lookup gives after a device is added: its configuration, while
/// every other device's lookup is unchanged.
pub proof fn lemma_get_after_add(t: Seq<(Seq<char>, DeviceConfig)>, id: Seq<char>, c: DeviceConfig, other: Seq<char>)
    requires
        keys_distinct(t),
    ensures
        assoc_get(assoc_insert(t, id, c), id) == Some(c),
        other != id ==> assoc_get(assoc_insert(t, id, c), other) == assoc_get(t, other),
{
    crate::keyed::lemma_get_after_insert(t, id, c, other);
}

/// After a device is removed, looking it up finds nothing.
pub proof fn lemma_get_after_remove(t: Seq<(Seq<char>, DeviceConfig)>, id: Seq<char>)
    requires
        keys_distinct(t),
        has_key(t, id),
    ensures
        !has_key(t.remove(key_index(t, id)), id),
{
    let i = key_index(t, id);
    let u = t.remove(i);
    assert forall|j: int| 0 <= j < u.len() implies u[j].0 != id by {
        let oj = if j < i { j } else { j + 1 };
        assert(u[j] == t[oj]);
    }
}

/// Repository for storing device configurations, shared between threads.
pub struct ConfigRepository {
    configs: Mutex<DeviceTable>,
}

impl ConfigRepository {
    /// An empty repository.
    pub fn new() -> Self {
        ConfigRepository { configs: mutex_new(DeviceTable::new()) }
    }

    /// Stores the configuration of a device.
    pub fn add_device(&self, device_id: String, config: DeviceConfig) {
        let mut guard = mutex_lock(&self.configs);
        let mut table = guard_replace(&mut guard, DeviceTable::new());
        table.add(device_id, config);
        let _ = guard_replace(&mut guard, table);
    }

    /// A copy of the configuration of a device.
    pub fn get_device(&self, device_id: &str) -> Option<DeviceConfig> {
        let mut guard = mutex_lock(&self.configs);
        let table = guard_replace(&mut guard, DeviceTable::new());
        let r = table.get(device_id);
        let _ = guard_replace(&mut guard, table);
        r
    }

    /// Removes a device; whether it was there.
    pub fn remove_device(&self, device_id: &str) -> bool {
        let mut guard = mutex_lock(&self.configs);
        let mut table = guard_replace(&mut guard, DeviceTable::new());
        let r = table.remove(device_id);
        let _ = guard_replace(&mut guard, table);
        r
    }

    /// The registered device ids, each once.
    pub fn list_devices(&self) -> (r: Vec<String>)
        ensures
            forall|i: int, j: int| 0 <= i < j < r@.len() ==> (#[trigger] r@[i])@ != (#[trigger] r@[j])@,
    {
        let mut guard = mutex_lock(&self.configs);
        let table = guard_replace(&mut guard, DeviceTable::new());
        let r = table.list();
        let _ = guard_replace(&mut guard, table);
        r
    }
}

/// The error for a device id that is not registered.
pub fn device_not_found(device_id: &str) -> (e: ApiError)
    ensures
        e matches ApiError::NotFound(m) && m@ == "Device not found: "@ + device_id@,
{
    let mut m = String::from_str("Device not found: ");
    m.append(device_id);
    ApiError::NotFound(m)
}

/// Controller for device operations.
pub struct DeviceController {
    config_repo: Arc<ConfigRepository>,
}

impl DeviceController {
    /// A controller over a repository.
    pub fn new(config_repo: Arc<ConfigRepository>) -> (c: Self)
        ensures
            c.repository() == config_repo,
    {
        DeviceController { config_repo }
    }

    /// The repository the controller reads and writes.
    pub closed spec fn repository(&self) -> Arc<ConfigRepository> {
        self.config_repo
    }

    /// Registers a new device.
    pub fn register_device(&self, device_id: String, config: DeviceConfig) {
        self.config_repo.add_device(device_id, config);
    }

    /// Lists all registered devices, each once.
    pub fn list_devices(&self) -> (r: Vec<String>)
        ensures
            forall|i: int, j: int| 0 <= i < j < r@.len() ==> (#[trigger] r@[i])@ != (#[trigger] r@[j])@,
    {
        self.config_repo.list_devices()
    }

    /// The configuration of a registered device, or `NotFound` naming it.
    /// What the repository holds is decided by every thread sharing it; for
    /// each lookup result the answer is that of `config_lookup_result`.
    pub fn device_config(&self, device_id: &str) -> (r: Result<DeviceConfig, ApiError>)
        ensures
            r matches Err(e) ==> (e matches ApiError::NotFound(m) && m@ == "Device not found: "@ + device_id@),
    {
        let found = self.config_repo.get_device(device_id);
        config_lookup_result(found, device_id)
    }
}

/// The answer to a request for a device's configuration, given what the
/// repository lookup found: the configuration, or `NotFound` naming the id.
pub fn config_lookup_result(found: Option<DeviceConfig>, device_id: &str) -> (r: Result<DeviceConfig, ApiError>)
    ensures
        match found {
            Some(c) => r == Ok::<DeviceConfig, ApiError>(c),
            None => r matches Err(e) && e matches ApiError::NotFound(m) && m@ == "Device not found: "@ + device_id@,
        },
{
    match found {
        Some(c) => Ok(c),
        None => Err(device_not_found(device_id)),
    }
}

/// Device connection details of a request.
#[derive(Debug, Clone)]
pub struct DeviceDetails {
    /// Device type (e.g., cisco_ios, cisco_xr)
    pub device_type: String,
    /// Host address
    pub host: String,
    /// Username for authentication
    pub username: String,
    /// Password for authentication
    pub password: Option<String>,
    /// SSH port (default: 22)
    pub port: Option<u16>,
    /// Connection timeout in seconds
    pub timeout: Option<u64>,
    /// Enable secret (for Cisco devices)
    pub secret: Option<String>,
    /// Session log path
    pub session_log: Option<String>,
}

/// Command execution request.
#[derive(Debug, Clone)]
pub struct CommandRequest {
    /// Device connection details
    pub device: DeviceDetails,
    /// Command to execute
    pub command: String,
}

/// Configuration command request.
#[derive(Debug, Clone)]
pub struct ConfigCommandRequest {
    /// Device connection details
    pub device: DeviceDetails,
    /// Commands to execute
    pub commands: Vec<String>,
}

/// Interface configuration request.
#[derive(Debug, Clone)]
pub struct InterfaceConfigRequest {
    /// Device connection details
    pub device: DeviceDetails,
    /// Interface name
    pub name: String,
    /// Interface description
    pub description: Option<String>,
    /// IP address
    pub ip_address: Option<String>,
    /// Subnet mask
    pub subnet_mask: Option<String>,
    /// Administrative status (up/down)
    pub admin_status: Option<String>,
}

/// The configuration commands of an interface request: enter the interface,
/// then set each part the request gives (description, address with mask,
/// administrative state `up` or `down`).
pub open spec fn interface_commands(r: InterfaceConfigRequest) -> Seq<Seq<char>> {
    let a = seq!["interface "@ + r.name@];
    let b = match r.description { Some(d) => a.push("description "@ + d@), None => a };
    let c = match (r.ip_address, r.subnet_mask) {
        (Some(ip), Some(mask)) => b.push("ip address "@ + ip@ + " "@ + mask@),
        _ => b,
    };
    match r.admin_status {
        Some(s) => if s@ == "up"@ {
            c.push("no shutdown"@)
        } else if s@ == "down"@ {
            c.push("shutdown"@)
        } else {
            c
        },
        None => c,
    }
}

impl InterfaceConfigRequest {
    /// The configuration commands this request asks for.
    pub fn config_commands(&self) -> (v: Vec<String>)
        ensures
            crate::text::strings_view(v@) == interface_commands(*self),
    {
        let mut v: Vec<String> = Vec::new();
        let mut first = String::from_str("interface ");
        first.append(self.name.as_str());
        v.push(first);
        let ghost a = crate::text::strings_view(v@);
        proof { assert(a =~= seq!["interface "@ + self.name@]); }
        match &self.description {
            Some(d) => {
                let mut c = String::from_str("description ");
                c.append(d.as_str());
                v.push(c);
            },
            None => {},
        }
        let ghost b = crate::text::strings_view(v@);
        proof {
            if self.description is Some {
                assert(b =~= a.push("description "@ + self.description->0@));
            } else {
                assert(b =~= a);
            }
        }
        match (&self.ip_address, &self.subnet_mask) {
            (Some(ip), Some(mask)) => {
                let mut c = String::from_str("ip address ");
                c.append(ip.as_str());
                c.append(" ");
                c.append(mask.as_str());
                v.push(c);
            },
            _ => {},
        }
        let ghost c3 = crate::text::strings_view(v@);
        proof {
            if self.ip_address is Some && self.subnet_mask is Some {
                assert(c3 =~= b.push("ip address "@ + self.ip_address->0@ + " "@ + self.subnet_mask->0@));
            } else {
                assert(c3 =~= b);
            }
        }
        match &self.admin_status {
            Some(s) => {
                if crate::text::str_eq(s.as_str(), "up") {
                    v.push(String::from_str("no shutdown"));
                    proof { assert(crate::text::strings_view(v@) =~= c3.push("no shutdown"@)); }
                } else if crate::text::str_eq(s.as_str(), "down") {
                    v.push(String::from_str("shutdown"));
                    proof { assert(crate::text::strings_view(v@) =~= c3.push("shutdown"@)); }
                }
            },
            None => {},
        }
        v
    }
}

impl DeviceDetails {
    /// The device configuration these details describe; the timeout is in seconds.
    pub fn to_device_config(&self) -> (c: DeviceConfig)
        ensures
            c.device_type@ == self.device_type@,
            c.host@ == self.host@,
            c.username@ == self.username@,
            crate::device::ostr(c.password) == crate::device::ostr(self.password),
            c.port == self.port,
            c.timeout == match self.timeout { Some(t) => Some(crate::settings::duration_of_secs(t)), None => None },
            crate::device::ostr(c.secret) == crate::device::ostr(self.secret),
            crate::device::ostr(c.session_log) == crate::device::ostr(self.session_log),
    {
        DeviceConfig {
            host: self.host.clone(),
            username: self.username.clone(),
            password: crate::device::copy_opt(&self.password),
            device_type: self.device_type.clone(),
            port: self.port,
            timeout: match self.timeout {
                Some(t) => Some(crate::settings::duration_from_secs(t)),
                None => None,
            },
            secret: crate::device::copy_opt(&self.secret),
            session_log: crate::device::copy_opt(&self.session_log),
        }
    }
}

} // verus!
