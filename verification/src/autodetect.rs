//! Guessing which driver a device needs from its answers to a few probe
//! commands.
//!
//! The table of candidate drivers, the scoring of a reply against a driver's
//! patterns, and the decisions of a detection session live here; the session
//! asks its caller to send commands or read the SSH banner, and is handed the
//! answers back.

use vstd::prelude::*;
use crate::error::NetsshError;
use crate::keyed::{KeyedList, assoc_get, assoc_insert, has_key, keys_distinct};
use crate::text::{regex_is_match, regex_matches, str_eq, strings_view, strs_view};

verus! {

/// Device families recognised from a version banner.
#[derive(Debug, Clone, Copy, PartialEq, Eq, Structural)]
pub enum DeviceType {
    CiscoIOS,
    CiscoXR,
    CiscoNXOS,
    CiscoASA,
    JuniperJunos,
    Unknown,
}

/// Result of a detection run.
#[derive(Debug, Clone)]
pub struct DetectionResult {
    /// Detected device type.
    pub device_type: DeviceType,
    /// Output seen while detecting.
    pub output: String,
    /// Base prompt observed during detection.
    pub base_prompt: Option<String>,
}

/// How to probe for one driver: the command to send, the patterns that
/// identify the driver in its reply, the score a match earns, and an optional
/// special probing method.
#[derive(Debug, Clone)]
pub struct DeviceMapping {
    pub cmd: String,
    pub search_patterns: Vec<String>,
    pub priority: u8,
    pub dispatch: Option<String>,
}

/// The mathematical content of a `DeviceMapping`.
pub struct MappingView {
    pub cmd: Seq<char>,
    pub search_patterns: Seq<Seq<char>>,
    pub priority: u8,
    pub dispatch: Option<Seq<char>>,
}

/// The view of an optional string.
pub open spec fn opt_view(o: Option<String>) -> Option<Seq<char>> {
    match o {
        Some(s) => Some(s@),
        None => None,
    }
}

/// The view of an optional string slice.
pub open spec fn opt_str_view(o: Option<&str>) -> Option<Seq<char>> {
    match o {
        Some(s) => Some(s@),
        None => None,
    }
}

impl View for DeviceMapping {
    type V = MappingView;

    open spec fn view(&self) -> MappingView {
        MappingView {
            cmd: self.cmd@,
            search_patterns: strings_view(self.search_patterns@),
            priority: self.priority,
            dispatch: opt_view(self.dispatch),
        }
    }
}

/// A mapping written with string literals.
pub open spec fn mv(cmd: &str, patterns: Seq<Seq<char>>, priority: u8, dispatch: Option<&str>) -> MappingView {
    MappingView {
        cmd: cmd@,
        search_patterns: patterns,
        priority,
        dispatch: opt_str_view(dispatch),
    }
}

/// Builds a mapping.
pub fn mapping(cmd: &str, patterns: Vec<String>, priority: u8, dispatch: Option<&str>) -> (m: DeviceMapping)
    ensures
        m@ == mv(cmd, strings_view(patterns@), priority, dispatch),
{
    let d = match dispatch {
        Some(s) => Some(s.to_owned()),
        None => None,
    };
    DeviceMapping { cmd: cmd.to_owned(), search_patterns: patterns, priority, dispatch: d }
}

/// A list of one pattern.
fn one(a: &str) -> (r: Vec<String>)
    ensures
        strings_view(r@) == seq![a@],
{
    let mut r: Vec<String> = Vec::new();
    r.push(a.to_owned());
    proof { assert(strings_view(r@) =~= seq![a@]); }
    r
}

/// A list of two patterns.
fn two(a: &str, b: &str) -> (r: Vec<String>)
    ensures
        strings_view(r@) == seq![a@, b@],
{
    let mut r: Vec<String> = Vec::new();
    r.push(a.to_owned());
    r.push(b.to_owned());
    proof { assert(strings_view(r@) =~= seq![a@, b@]); }
    r
}

/// A list of four patterns.
fn four(a: &str, b: &str, c: &str, d: &str) -> (r: Vec<String>)
    ensures
        strings_view(r@) == seq![a@, b@, c@, d@],
{
    let mut r: Vec<String> = Vec::new();
    r.push(a.to_owned());
    r.push(b.to_owned());
    r.push(c.to_owned());
    r.push(d.to_owned());
    proof { assert(strings_view(r@) =~= seq![a@, b@, c@, d@]); }
    r
}

/// The driver table: driver names and their probes, keys distinct, in the
/// order they were registered.
pub struct DeviceMapper {
    entries: KeyedList<DeviceMapping>,
}

impl View for DeviceMapper {
    type V = Seq<(Seq<char>, MappingView)>;

    closed spec fn view(&self) -> Seq<(Seq<char>, MappingView)> {
        self.entries@
    }
}

impl DeviceMapper {
    /// The table's driver names are distinct.
    pub closed spec fn wf(&self) -> bool {
        self.entries.wf()
    }

    /// An empty table.
    pub fn new() -> (r: Self)
        ensures
            r.wf(),
            r@ == Seq::<(Seq<char>, MappingView)>::empty(),
    {
        DeviceMapper { entries: KeyedList::new() }
    }

    /// Registers (or replaces) the probe of driver `name`.
    pub fn insert(&mut self, name: &str, m: DeviceMapping)
        requires
            old(self).wf(),
        ensures
            final(self).wf(),
            final(self)@ == assoc_insert(old(self)@, name@, m@),
    {
        self.entries.insert(name.to_owned(), m);
    }

    /// Whether driver `name` is in the table.
    pub fn contains_key(&self, name: &str) -> (b: bool)
        requires
            self.wf(),
        ensures
            b == has_key(self@, name@),
    {
        self.entries.contains_key(name)
    }

    /// The probe of driver `name`.
    pub fn get(&self, name: &str) -> (r: Option<&DeviceMapping>)
        requires
            self.wf(),
        ensures
            match r {
                Some(m) => assoc_get(self@, name@) == Some(m@),
                None => assoc_get(self@, name@) is None,
            },
    {
        self.entries.get(name)
    }

    /// Number of drivers.
    pub fn len(&self) -> (n: usize)
        ensures
            n == self@.len(),
    {
        self.entries.len()
    }

    /// Driver name at position `i`.
    pub fn name_at(&self, i: usize) -> (r: &String)
        requires
            i < self@.len(),
        ensures
            r@ == self@[i as int].0,
    {
        self.entries.key_at(i)
    }

    /// Probe at position `i`.
    pub fn mapping_at(&self, i: usize) -> (r: &DeviceMapping)
        requires
            i < self@.len(),
        ensures
            r@ == self@[i as int].1,
    {
        self.entries.value_at(i)
    }
}

/// The driver table: each probe registered, in order, under its driver name.
pub open spec fn device_table() -> Seq<(Seq<char>, MappingView)> {
    let s = Seq::<(Seq<char>, MappingView)>::empty();
    let s = assoc_insert(s, "alcatel_aos"@, mv("show system", seq!["Alcatel-Lucent"@], 99u8, None));
    let s = assoc_insert(s, "alcatel_sros"@, mv("show version", seq!["Nokia"@, "Alcatel"@], 99u8, None));
    let s = assoc_insert(s, "allied_telesis_awplus"@, mv("show version", seq!["AlliedWare Plus"@], 99u8, None));
    let s = assoc_insert(s, "apresia_aeos"@, mv("show system", seq!["Apresia"@], 99u8, None));
    let s = assoc_insert(s, "arista_eos"@, mv("show version", seq!["Arista"@, "vEOS"@], 99u8, None));
    let s = assoc_insert(s, "aruba_aoscx"@, mv("show version", seq!["ArubaOS-CX"@], 99u8, None));
    let s = assoc_insert(s, "ciena_saos"@, mv("software show", seq!["saos"@], 99u8, None));
    let s = assoc_insert(s, "cisco_asa"@, mv("show version", seq!["Cisco Adaptive Security Appliance"@, "Cisco ASA"@], 99u8, None));
    let s = assoc_insert(s, "cisco_ftd"@, mv("show version", seq!["Cisco Firepower"@], 99u8, None));
    let s = assoc_insert(s, "cisco_ios"@, mv("show version", seq!["Cisco IOS Software"@, "Cisco Internetwork Operating System Software"@], 95u8, None));
    let s = assoc_insert(s, "cisco_xe"@, mv("show version", seq!["Cisco IOS XE Software"@], 99u8, None));
    let s = assoc_insert(s, "cisco_nxos"@, mv("show version", seq!["Cisco Nexus Operating System"@, "NX-OS"@], 99u8, None));
    let s = assoc_insert(s, "cisco_xr"@, mv("show version", seq!["Cisco IOS XR"@], 99u8, None));
    let s = assoc_insert(s, "cisco_xr_2"@, mv("show version brief", seq!["Cisco IOS XR"@], 99u8, None));
    let s = assoc_insert(s, "dell_force10"@, mv("show version", seq!["Real Time Operating System Software"@], 99u8, None));
    let s = assoc_insert(s, "dell_os9"@, mv("show system", seq!["Dell Application Software Version:  9"@, "Dell Networking OS Version : 9"@], 99u8, None));
    let s = assoc_insert(s, "dell_os10"@, mv("show version", seq!["Dell EMC Networking OS10.Enterprise"@], 99u8, None));
    let s = assoc_insert(s, "dell_powerconnect"@, mv("show system", seq!["PowerConnect"@], 99u8, None));
    let s = assoc_insert(s, "f5_tmsh"@, mv("show sys version", seq!["BIG-IP"@], 99u8, None));
    let s = assoc_insert(s, "f5_linux"@, mv("cat /etc/issue", seq!["BIG-IP"@], 99u8, None));
    let s = assoc_insert(s, "hp_comware"@, mv("display version", seq!["HPE Comware"@, "HP Comware"@], 99u8, None));
    let s = assoc_insert(s, "hp_procurve"@, mv("show version", seq!["Image stamp.*/code/build"@], 99u8, None));
    let s = assoc_insert(s, "huawei"@, mv("display version", seq!["Huawei Technologies"@, "Huawei Versatile Routing Platform Software"@], 99u8, None));
    let s = assoc_insert(s, "juniper_junos"@, mv("show version", seq!["JUNOS Software Release"@, "JUNOS .+ Software"@, "JUNOS OS Kernel"@, "JUNOS Base Version"@], 99u8, None));
    let s = assoc_insert(s, "linux"@, mv("uname -a", seq!["Linux"@], 99u8, None));
    let s = assoc_insert(s, "ericsson_ipos"@, mv("show version", seq!["Ericsson IPOS Version"@], 99u8, None));
    let s = assoc_insert(s, "extreme_exos"@, mv("show version", seq!["ExtremeXOS"@], 99u8, None));
    let s = assoc_insert(s, "extreme_netiron"@, mv("show version", seq!["(NetIron|MLX)"@], 99u8, None));
    let s = assoc_insert(s, "extreme_slx"@, mv("show version", seq!["SLX-OS Operating System"@], 99u8, None));
    let s = assoc_insert(s, "extreme_tierra"@, mv("show version", seq!["TierraOS Software"@], 99u8, None));
    let s = assoc_insert(s, "ubiquiti_edgeswitch"@, mv("show version", seq!["EdgeSwitch"@], 99u8, None));
    let s = assoc_insert(s, "cisco_wlc"@, mv("", seq!["CISCO_WLC"@], 99u8, Some("remote_version")));
    let s = assoc_insert(s, "cisco_wlc_85"@, mv("show inventory", seq!["Cisco.*Wireless.*Controller"@], 99u8, None));
    let s = assoc_insert(s, "mellanox_mlnxos"@, mv("show version", seq!["Onyx"@, "SX_PPC_M460EX"@], 99u8, None));
    let s = assoc_insert(s, "yamaha"@, mv("show copyright", seq!["Yamaha Corporation"@], 99u8, None));
    let s = assoc_insert(s, "fortinet"@, mv("get system status", seq!["FortiOS"@, "FortiGate"@], 99u8, None));
    let s = assoc_insert(s, "paloalto_panos"@, mv("show system info", seq![r"model:\s+PA"@], 99u8, None));
    let s = assoc_insert(s, "supermicro_smis"@, mv("show system info", seq!["Super Micro Computer"@], 99u8, None));
    let s = assoc_insert(s, "flexvnf"@, mv("show system package-info", seq!["Versa FlexVNF"@], 99u8, None));
    let s = assoc_insert(s, "cisco_viptela"@, mv("show system status", seq!["Viptela, Inc"@], 99u8, None));
    let s = assoc_insert(s, "oneaccess_oneos"@, mv("show version", seq!["OneOS"@], 99u8, None));
    let s = assoc_insert(s, "netgear_prosafe"@, mv("show version", seq!["ProSAFE"@], 99u8, None));
    let s = assoc_insert(s, "huawei_smartax"@, mv("display version", seq!["Huawei Integrated Access Software"@], 99u8, None));
    s
}

/// The driver table used by detection.
#[verifier::rlimit(40)]
pub fn create_device_mapper() -> (m: DeviceMapper)
    ensures
        m.wf(),
        m@ == device_table(),
{
    let mut m = DeviceMapper::new();
    m.insert("alcatel_aos", mapping("show system", one("Alcatel-Lucent"), 99, None));
    m.insert("alcatel_sros", mapping("show version", two("Nokia", "Alcatel"), 99, None));
    m.insert("allied_telesis_awplus", mapping("show version", one("AlliedWare Plus"), 99, None));
    m.insert("apresia_aeos", mapping("show system", one("Apresia"), 99, None));
    m.insert("arista_eos", mapping("show version", two("Arista", "vEOS"), 99, None));
    m.insert("aruba_aoscx", mapping("show version", one("ArubaOS-CX"), 99, None));
    m.insert("ciena_saos", mapping("software show", one("saos"), 99, None));
    m.insert("cisco_asa", mapping("show version", two("Cisco Adaptive Security Appliance", "Cisco ASA"), 99, None));
    m.insert("cisco_ftd", mapping("show version", one("Cisco Firepower"), 99, None));
    m.insert("cisco_ios", mapping("show version", two("Cisco IOS Software", "Cisco Internetwork Operating System Software"), 95, None));
    m.insert("cisco_xe", mapping("show version", one("Cisco IOS XE Software"), 99, None));
    m.insert("cisco_nxos", mapping("show version", two("Cisco Nexus Operating System", "NX-OS"), 99, None));
    m.insert("cisco_xr", mapping("show version", one("Cisco IOS XR"), 99, None));
    m.insert("cisco_xr_2", mapping("show version brief", one("Cisco IOS XR"), 99, None));
    m.insert("dell_force10", mapping("show version", one("Real Time Operating System Software"), 99, None));
    m.insert("dell_os9", mapping("show system", two("Dell Application Software Version:  9", "Dell Networking OS Version : 9"), 99, None));
    m.insert("dell_os10", mapping("show version", one("Dell EMC Networking OS10.Enterprise"), 99, None));
    m.insert("dell_powerconnect", mapping("show system", one("PowerConnect"), 99, None));
    m.insert("f5_tmsh", mapping("show sys version", one("BIG-IP"), 99, None));
    m.insert("f5_linux", mapping("cat /etc/issue", one("BIG-IP"), 99, None));
    m.insert("hp_comware", mapping("display version", two("HPE Comware", "HP Comware"), 99, None));
    m.insert("hp_procurve", mapping("show version", one("Image stamp.*/code/build"), 99, None));
    m.insert("huawei", mapping("display version", two("Huawei Technologies", "Huawei Versatile Routing Platform Software"), 99, None));
    m.insert("juniper_junos", mapping("show version", four("JUNOS Software Release", "JUNOS .+ Software", "JUNOS OS Kernel", "JUNOS Base Version"), 99, None));
    m.insert("linux", mapping("uname -a", one("Linux"), 99, None));
    m.insert("ericsson_ipos", mapping("show version", one("Ericsson IPOS Version"), 99, None));
    m.insert("extreme_exos", mapping("show version", one("ExtremeXOS"), 99, None));
    m.insert("extreme_netiron", mapping("show version", one("(NetIron|MLX)"), 99, None));
    m.insert("extreme_slx", mapping("show version", one("SLX-OS Operating System"), 99, None));
    m.insert("extreme_tierra", mapping("show version", one("TierraOS Software"), 99, None));
    m.insert("ubiquiti_edgeswitch", mapping("show version", one("EdgeSwitch"), 99, None));
    m.insert("cisco_wlc", mapping("", one("CISCO_WLC"), 99, Some("remote_version")));
    m.insert("cisco_wlc_85", mapping("show inventory", one("Cisco.*Wireless.*Controller"), 99, None));
    m.insert("mellanox_mlnxos", mapping("show version", two("Onyx", "SX_PPC_M460EX"), 99, None));
    m.insert("yamaha", mapping("show copyright", one("Yamaha Corporation"), 99, None));
    m.insert("fortinet", mapping("get system status", two("FortiOS", "FortiGate"), 99, None));
    m.insert("paloalto_panos", mapping("show system info", one(r"model:\s+PA"), 99, None));
    m.insert("supermicro_smis", mapping("show system info", one("Super Micro Computer"), 99, None));
    m.insert("flexvnf", mapping("show system package-info", one("Versa FlexVNF"), 99, None));
    m.insert("cisco_viptela", mapping("show system status", one("Viptela, Inc"), 99, None));
    m.insert("oneaccess_oneos", mapping("show version", one("OneOS"), 99, None));
    m.insert("netgear_prosafe", mapping("show version", one("ProSAFE"), 99, None));
    m.insert("huawei_smartax", mapping("display version", one("Huawei Integrated Access Software"), 99, None));
    m
}

/// Some pattern of `patterns` compiles and matches `text`.
pub open spec fn any_matches(patterns: Seq<Seq<char>>, text: Seq<char>) -> bool {
    exists|i: int| 0 <= i < patterns.len() && regex_matches(patterns[i], text)
}

/// The score of a reply: nothing when it matches an error pattern, the
/// driver's priority when it matches one of the driver's patterns, nothing
/// otherwise.
pub open spec fn pattern_accuracy(text: Seq<char>, search: Seq<Seq<char>>, invalid: Seq<Seq<char>>, priority: u8) -> u8 {
    if any_matches(invalid, text) {
        0
    } else if any_matches(search, text) {
        priority
    } else {
        0
    }
}

/// Whether some pattern matches `text`.
fn any_string_matches(patterns: &[String], text: &str) -> (b: bool)
    ensures
        b == any_matches(strings_view(patterns@), text@),
{
    let mut i: usize = 0;
    while i < patterns.len()
        invariant
            0 <= i <= patterns@.len(),
            forall|j: int| 0 <= j < i ==> !regex_matches(strings_view(patterns@)[j], text@),
        decreases patterns@.len() - i,
    {
        if regex_is_match(patterns[i].as_str(), text) {
            assert(strings_view(patterns@)[i as int] == patterns@[i as int]@);
            return true;
        }
        i = i + 1;
    }
    false
}

/// Whether some pattern matches `text`.
fn any_str_matches(patterns: &[&str], text: &str) -> (b: bool)
    ensures
        b == any_matches(strs_view(patterns@), text@),
{
    let mut i: usize = 0;
    while i < patterns.len()
        invariant
            0 <= i <= patterns@.len(),
            forall|j: int| 0 <= j < i ==> !regex_matches(strs_view(patterns@)[j], text@),
        decreases patterns@.len() - i,
    {
        if regex_is_match(patterns[i], text) {
            assert(strs_view(patterns@)[i as int] == patterns@[i as int]@);
            return true;
        }
        i = i + 1;
    }
    false
}

/// Scores `response`: zero when an invalid-response pattern matches, the
/// priority when a search pattern matches, zero otherwise. A pattern that does
/// not compile matches nothing.
pub fn check_patterns(response: &str, search_patterns: &[String], invalid_responses: &[&str], priority: u8) -> (r: Result<u8, NetsshError>)
    ensures
        r matches Ok(a) && a == pattern_accuracy(response@, strings_view(search_patterns@), strs_view(invalid_responses@), priority),
{
    if any_str_matches(invalid_responses, response) {
        return Ok(0);
    }
    if any_string_matches(search_patterns, response) {
        return Ok(priority);
    }
    Ok(0)
}

/// Replies that show the probe command was not understood.
pub open spec fn std_invalid() -> Seq<Seq<char>> {
    seq![
        "% Invalid input detected"@,
        "syntax error, expecting"@,
        "Error: Unrecognized command"@,
        "%Error"@,
        "command not found"@,
        "Syntax Error: unexpected argument"@,
        "% Unrecognized command found at"@,
        "% Unknown command, the error locates at"@,
    ]
}

/// A banner that says nothing.
pub open spec fn banner_invalid() -> Seq<Seq<char>> {
    seq!["^$"@]
}

/// Score of a probe command's reply; a command that failed scores nothing.
pub open spec fn std_accuracy(reply: Option<Seq<char>>, search: Seq<Seq<char>>, priority: u8) -> u8 {
    match reply {
        Some(r) => pattern_accuracy(r, search, std_invalid(), priority),
        None => 0,
    }
}

/// Score of the SSH banner; a missing banner scores nothing.
pub open spec fn remote_accuracy(version: Option<Seq<char>>, search: Seq<Seq<char>>, priority: u8) -> u8 {
    match version {
        Some(v) => pattern_accuracy(v, search, banner_invalid(), priority),
        None => 0,
    }
}

/// Scores the reply to a probe command.
pub fn std_reply_accuracy(reply: Option<&str>, search_patterns: &[String], priority: u8) -> (a: u8)
    ensures
        a == std_accuracy(opt_str_view(reply), strings_view(search_patterns@), priority),
{
    match reply {
        Some(r) => {
            let invalid: &[&str] = &[
                "% Invalid input detected",
                "syntax error, expecting",
                "Error: Unrecognized command",
                "%Error",
                "command not found",
                "Syntax Error: unexpected argument",
                "% Unrecognized command found at",
                "% Unknown command, the error locates at",
            ];
            proof { assert(strs_view(invalid@) =~= std_invalid()); }
            match check_patterns(r, search_patterns, invalid, priority) {
                Ok(a) => a,
                Err(_) => 0,
            }
        },
        None => 0,
    }
}

/// Scores the SSH banner.
pub fn remote_version_accuracy(version: Option<&str>, search_patterns: &[String], priority: u8) -> (a: u8)
    ensures
        a == remote_accuracy(opt_str_view(version), strings_view(search_patterns@), priority),
{
    match version {
        Some(v) => {
            let invalid: &[&str] = &["^$"];
            proof { assert(strs_view(invalid@) =~= banner_invalid()); }
            match check_patterns(v, search_patterns, invalid, priority) {
                Ok(a) => a,
                Err(_) => 0,
            }
        },
        None => 0,
    }
}

/// The driver to load for a detected table entry: two entries share another
/// entry's driver.
pub open spec fn driver_name(name: Seq<char>) -> Seq<char> {
    if name == "cisco_wlc_85"@ {
        "cisco_wlc"@
    } else if name == "cisco_xr_2"@ {
        "cisco_xr"@
    } else {
        name
    }
}

/// The driver to load for table entry `name`.
pub fn driver_for(name: &str) -> (r: String)
    ensures
        r@ == driver_name(name@),
{
    if str_eq(name, "cisco_wlc_85") {
        "cisco_wlc".to_owned()
    } else if str_eq(name, "cisco_xr_2") {
        "cisco_xr".to_owned()
    } else {
        name.to_owned()
    }
}

/// The position of the best score: the last of the highest scores.
pub open spec fn best_index(m: Seq<(Seq<char>, u8)>) -> int
    decreases m.len(),
{
    if m.len() <= 1 {
        0
    } else {
        let b = best_index(m.drop_last());
        if m.last().1 >= m[b].1 { m.len() - 1 } else { b }
    }
}

/// The driver of the best-scoring entry, if any entry scored.
pub open spec fn best_match(m: Seq<(Seq<char>, u8)>) -> Option<Seq<char>> {
    if m.len() == 0 { None } else { Some(driver_name(m[best_index(m)].0)) }
}

/// The best score is at least every other score.
pub proof fn lemma_best_index_is_max(m: Seq<(Seq<char>, u8)>)
    requires
        m.len() > 0,
    ensures
        0 <= best_index(m) < m.len(),
        forall|j: int| 0 <= j < m.len() ==> (#[trigger] m[j]).1 <= m[best_index(m)].1,
    decreases m.len(),
{
    if m.len() > 1 {
        let t = m.drop_last();
        lemma_best_index_is_max(t);
        assert forall|j: int| 0 <= j < m.len() implies (#[trigger] m[j]).1 <= m[best_index(m)].1 by {
            if j < m.len() - 1 { assert(m[j] == t[j]); }
        }
    }
}

/// The driver of the best-scoring entry.
pub fn select_best_match(matches: &KeyedList<u8>) -> (r: Option<String>)
    ensures
        opt_view(r) == best_match(matches@),
{
    let n = matches.len();
    if n == 0 {
        return None;
    }
    let mut b: usize = 0;
    let mut i: usize = 1;
    while i < n
        invariant
            n == matches@.len(),
            1 <= i <= n,
            b == best_index(matches@.take(i as int)),
        decreases n - i,
    {
        proof {
            lemma_best_index_is_max(matches@.take(i as int));
            assert(matches@.take(i as int + 1).drop_last() =~= matches@.take(i as int));
        }
        if *matches.value_at(i) >= *matches.value_at(b) {
            b = i;
        }
        i = i + 1;
    }
    proof {
        assert(matches@.take(n as int) =~= matches@);
        lemma_best_index_is_max(matches@);
    }
    Some(driver_for(matches.key_at(b).as_str()))
}

/// How a table entry is probed.
pub enum ProbeKind {
    /// Nothing to probe: the entry scores nothing.
    Skip,
    /// Match the SSH banner.
    RemoteVersion,
    /// Send this command and match its reply.
    Command(Seq<char>),
}

/// The probe of an entry: its special method if it names the banner, its
/// command otherwise; an entry without a command is skipped.
pub open spec fn probe_of(m: MappingView) -> ProbeKind {
    match m.dispatch {
        Some(d) => if d == "remote_version"@ {
            ProbeKind::RemoteVersion
        } else if m.cmd.len() > 0 {
            ProbeKind::Command(m.cmd)
        } else {
            ProbeKind::Skip
        },
        None => if m.cmd.len() == 0 {
            ProbeKind::Skip
        } else {
            ProbeKind::Command(m.cmd)
        },
    }
}

/// What a detection session asks its caller to do next.
#[derive(Debug, Clone)]
pub enum DetectAction {
    /// The current entry needs no probe: feed `None`.
    Skip,
    /// The current entry's command was answered before: feed `None`.
    UseCached,
    /// Read the SSH banner and feed it.
    AskRemoteVersion,
    /// Send this command and feed its reply (`None` if sending failed).
    Send(String),
    /// Detection is over: the driver found, if any.
    Finished(Option<String>),
}

/// The mathematical content of a `DetectAction`.
pub enum ActionView {
    Skip,
    UseCached,
    AskRemoteVersion,
    Send(Seq<char>),
    Finished(Option<Seq<char>>),
}

impl View for DetectAction {
    type V = ActionView;

    open spec fn view(&self) -> ActionView {
        match self {
            DetectAction::Skip => ActionView::Skip,
            DetectAction::UseCached => ActionView::UseCached,
            DetectAction::AskRemoteVersion => ActionView::AskRemoteVersion,
            DetectAction::Send(c) => ActionView::Send(c@),
            DetectAction::Finished(r) => ActionView::Finished(opt_view(*r)),
        }
    }
}

/// The state of a detection session: the table, the entry being probed, the
/// entries that scored, the replies received so far by command, and the
/// outcome once decided early.
pub struct SessionView {
    pub entries: Seq<(Seq<char>, MappingView)>,
    pub index: int,
    pub matches: Seq<(Seq<char>, u8)>,
    pub cache: Seq<(Seq<char>, Seq<char>)>,
    pub result: Option<Option<Seq<char>>>,
}

/// What the session asks for in state `v`.
pub open spec fn next_action_of(v: SessionView) -> ActionView {
    if v.result is Some {
        ActionView::Finished(v.result->0)
    } else if v.index >= v.entries.len() {
        ActionView::Finished(best_match(v.matches))
    } else {
        match probe_of(v.entries[v.index].1) {
            ProbeKind::Skip => ActionView::Skip,
            ProbeKind::RemoteVersion => ActionView::AskRemoteVersion,
            ProbeKind::Command(c) => if has_key(v.cache, c) {
                ActionView::UseCached
            } else {
                ActionView::Send(c)
            },
        }
    }
}

/// The score of the current entry given the caller's answer.
pub open spec fn entry_accuracy(v: SessionView, reply: Option<Seq<char>>) -> u8 {
    let m = v.entries[v.index].1;
    match probe_of(m) {
        ProbeKind::Skip => 0,
        ProbeKind::RemoteVersion => remote_accuracy(reply, m.search_patterns, m.priority),
        ProbeKind::Command(c) => match assoc_get(v.cache, c) {
            Some(r) => std_accuracy(Some(r), m.search_patterns, m.priority),
            None => std_accuracy(reply, m.search_patterns, m.priority),
        },
    }
}

/// The state after the caller answers for the current entry: a fresh reply
/// to a command is remembered, a positive score is recorded under the entry's
/// name, a score of at least 99 decides the outcome, and the next entry comes.
pub open spec fn feed_of(v: SessionView, reply: Option<Seq<char>>) -> SessionView {
    let name = v.entries[v.index].0;
    let acc = entry_accuracy(v, reply);
    let cache = match probe_of(v.entries[v.index].1) {
        ProbeKind::Command(c) => if !has_key(v.cache, c) && reply is Some {
            assoc_insert(v.cache, c, reply->0)
        } else {
            v.cache
        },
        _ => v.cache,
    };
    SessionView {
        entries: v.entries,
        index: v.index + 1,
        matches: if acc > 0 { assoc_insert(v.matches, name, acc) } else { v.matches },
        cache,
        result: if acc >= 99 { Some(Some(driver_name(name))) } else { None },
    }
}

/// A detection session over the driver table.
pub struct DetectSession {
    mapper: DeviceMapper,
    index: usize,
    matches: KeyedList<u8>,
    cache: KeyedList<String>,
    result: Option<Option<String>>,
}

impl View for DetectSession {
    type V = SessionView;

    closed spec fn view(&self) -> SessionView {
        SessionView {
            entries: self.mapper@,
            index: self.index as int,
            matches: self.matches@,
            cache: self.cache@,
            result: match self.result {
                Some(r) => Some(opt_view(r)),
                None => None,
            },
        }
    }
}

/// The probe of an entry, computed.
fn probe_for(m: &DeviceMapping) -> (p: Option<Option<String>>)
    ensures
        match probe_of(m@) {
            ProbeKind::Skip => p is None,
            ProbeKind::RemoteVersion => p == Some(None::<String>),
            ProbeKind::Command(c) => p matches Some(Some(s)) && s@ == c,
        },
{
    match &m.dispatch {
        Some(d) => {
            if str_eq(d.as_str(), "remote_version") {
                Some(None)
            } else if !m.cmd.as_str().is_empty() {
                Some(Some(m.cmd.clone()))
            } else {
                None
            }
        },
        None => {
            if m.cmd.as_str().is_empty() {
                None
            } else {
                Some(Some(m.cmd.clone()))
            }
        },
    }
}

impl DetectSession {
    /// The session's tables are consistent and its position is in range.
    pub closed spec fn wf(&self) -> bool {
        &&& self.mapper.wf()
        &&& self.matches.wf()
        &&& self.cache.wf()
        &&& self.index <= self.mapper@.len()
    }

    /// A session at the first entry of the driver table.
    pub fn new() -> (s: Self)
        ensures
            s.wf(),
            s@.entries == device_table(),
            s@.index == 0,
            s@.matches.len() == 0,
            s@.cache.len() == 0,
            s@.result is None,
    {
        DetectSession {
            mapper: create_device_mapper(),
            index: 0,
            matches: KeyedList::new(),
            cache: KeyedList::new(),
            result: None,
        }
    }

    /// Whether detection is over.
    pub fn is_finished(&self) -> (b: bool)
        requires
            self.wf(),
        ensures
            b == (next_action_of(self@) is Finished),
    {
        self.result.is_some() || self.index >= self.mapper.len()
    }

    /// What the caller should do next.
    pub fn next_action(&self) -> (a: DetectAction)
        requires
            self.wf(),
        ensures
            a@ == next_action_of(self@),
    {
        match &self.result {
            Some(r) => {
                return DetectAction::Finished(r.clone());
            },
            None => {},
        }
        if self.index >= self.mapper.len() {
            return DetectAction::Finished(select_best_match(&self.matches));
        }
        let m = self.mapper.mapping_at(self.index);
        match probe_for(m) {
            None => DetectAction::Skip,
            Some(None) => DetectAction::AskRemoteVersion,
            Some(Some(c)) => {
                if self.cache.contains_key(c.as_str()) {
                    DetectAction::UseCached
                } else {
                    DetectAction::Send(c)
                }
            },
        }
    }

    /// Hands the session the answer for the current entry: the banner for
    /// `AskRemoteVersion`, the reply for `Send`, `None` otherwise.
    pub fn feed(&mut self, reply: Option<String>)
        requires
            old(self).wf(),
            !(next_action_of(old(self)@) is Finished),
        ensures
            final(self).wf(),
            final(self)@ == feed_of(old(self)@, opt_view(reply)),
    {
        let i = self.index;
        let n = self.mapper.len();
        assert(i < n);
        let name = self.mapper.name_at(i).clone();
        let m = self.mapper.mapping_at(i);
        let reply_ref: Option<&str> = match &reply {
            Some(r) => Some(r.as_str()),
            None => None,
        };
        assert(opt_str_view(reply_ref) == opt_view(reply));
        let acc: u8 = match probe_for(m) {
            None => 0,
            Some(None) => remote_version_accuracy(reply_ref, m.search_patterns.as_slice(), m.priority),
            Some(Some(c)) => {
                match self.cache.get(c.as_str()) {
                    Some(r) => std_reply_accuracy(Some(r.as_str()), m.search_patterns.as_slice(), m.priority),
                    None => {
                        let a = std_reply_accuracy(reply_ref, m.search_patterns.as_slice(), m.priority);
                        match reply {
                            Some(r) => { self.cache.insert(c, r); },
                            None => {},
                        }
                        a
                    },
                }
            },
        };
        if acc > 0 {
            self.matches.insert(name.clone(), acc);
        }
        if acc >= 99 {
            self.result = Some(Some(driver_for(name.as_str())));
        }
        self.index = i + 1;
    }
}

/// Once a reply to a command has been fed, the session never asks to send
/// that command again: the reply is remembered, and remembered replies stay.
pub proof fn lemma_answered_command_not_resent(v: SessionView, reply: Option<Seq<char>>, c: Seq<char>)
    requires
        keys_distinct(v.cache),
        v.result is None,
        0 <= v.index < v.entries.len(),
        has_key(v.cache, c) || (probe_of(v.entries[v.index].1) == ProbeKind::Command(c) && reply is Some),
    ensures
        has_key(feed_of(v, reply).cache, c),
        next_action_of(feed_of(v, reply)) != ActionView::Send(c),
{
    let w = feed_of(v, reply);
    match probe_of(v.entries[v.index].1) {
        ProbeKind::Command(d) => {
            if !has_key(v.cache, d) && reply is Some {
                crate::keyed::lemma_get_after_insert(v.cache, d, reply->0, c);
                crate::keyed::lemma_get_after_insert(v.cache, d, reply->0, d);
            }
        },
        _ => {},
    }
    assert(has_key(w.cache, c));
}

/// A score of at least 99 ends detection with that entry's driver.
pub proof fn lemma_confident_match_finishes(v: SessionView, reply: Option<Seq<char>>)
    requires
        v.result is None,
        0 <= v.index < v.entries.len(),
        entry_accuracy(v, reply) >= 99,
    ensures
        next_action_of(feed_of(v, reply)) == ActionView::Finished(Some(driver_name(v.entries[v.index].0))),
{
}

/// A finished session stays finished with the same outcome.
pub proof fn lemma_finished_is_final(v: SessionView)
    requires
        v.result is Some,
    ensures
        next_action_of(v) == ActionView::Finished(v.result->0),
{
}

} // verus!
