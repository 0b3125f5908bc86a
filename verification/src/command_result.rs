//! Results of running commands on devices, one by one and in batches.

use vstd::prelude::*;
use indexmap::IndexMap;
use crate::error::{NetsshError, error_message};
use crate::keyed::{KeyedList, assoc_get, assoc_insert, has_key, key_index, keys_distinct};
use crate::text::str_eq;

pub mod utils;

verus! {

#[verifier::external_type_specification]
#[verifier::external_body]
#[verifier::reject_recursive_types(K)]
#[verifier::reject_recursive_types(V)]
#[verifier::reject_recursive_types(S)]
pub struct ExIndexMap<K, V, S>(indexmap::IndexMap<K, V, S>);

#[verifier::external_type_specification]
#[verifier::external_body]
pub struct ExJsonValue(serde_json::Value);

#[verifier::external_type_specification]
#[verifier::external_body]
pub struct ExJsonError(serde_json::Error);

/// Calls `serde_json::to_string_pretty` on parsed records. The records are
/// `serde_json` values that the library does not look into, so nothing is
/// stated about the text produced or about when printing fails.
#[verifier::external_body]
pub(crate) fn records_to_json(data: &Vec<IndexMap<String, serde_json::Value>>) -> Result<String, serde_json::Error> {
    serde_json::to_string_pretty(data)
}

/// Represents the output of a command execution.
#[derive(Debug, Clone)]
pub enum CommandOutput {
    /// Raw string output (when parsing not attempted or failed)
    Raw(String),
    /// Parsed structured data (when parsing succeeded)
    Parsed(Vec<IndexMap<String, serde_json::Value>>),
}

impl CommandOutput {
    /// The raw string output, if this output is raw.
    pub fn as_raw(&self) -> (r: Option<&str>)
        ensures
            match self {
                CommandOutput::Raw(s) => r matches Some(t) && t@ == s@,
                CommandOutput::Parsed(_) => r is None,
            },
    {
        match self {
            CommandOutput::Raw(s) => Some(s.as_str()),
            CommandOutput::Parsed(_) => None,
        }
    }

    /// The parsed records, if this output is parsed.
    pub fn as_parsed(&self) -> (r: Option<&Vec<IndexMap<String, serde_json::Value>>>)
        ensures
            match self {
                CommandOutput::Raw(_) => r is None,
                CommandOutput::Parsed(d) => r == Some(d),
            },
    {
        match self {
            CommandOutput::Raw(_) => None,
            CommandOutput::Parsed(d) => Some(d),
        }
    }

    /// Whether the output holds parsed records.
    pub fn is_parsed(&self) -> (b: bool)
        ensures
            b == (self is Parsed),
    {
        match self {
            CommandOutput::Raw(_) => false,
            CommandOutput::Parsed(_) => true,
        }
    }

    /// The parsed records as pretty-printed JSON, if this output is parsed.
    pub fn parsed_as_json(&self) -> (r: Option<Result<String, serde_json::Error>>)
        ensures
            r is Some == (self is Parsed),
    {
        match self {
            CommandOutput::Raw(_) => None,
            CommandOutput::Parsed(d) => Some(records_to_json(d)),
        }
    }

    /// The output as text: raw output as it is, parsed records as
    /// pretty-printed JSON (`Parse error` if they cannot be printed).
    pub fn to_display_string(&self) -> (r: String)
        ensures
            self matches CommandOutput::Raw(s) ==> r@ == s@,
    {
        match self {
            CommandOutput::Raw(s) => s.clone(),
            CommandOutput::Parsed(d) => match records_to_json(d) {
                Ok(j) => j,
                Err(_) => String::from_str("Parse error"),
            },
        }
    }
}

/// Represents the execution status of a command.
#[derive(Debug, Clone, Copy, PartialEq, Eq, Structural)]
pub enum CommandStatus {
    /// Command executed successfully
    Success,
    /// Command execution failed
    Failed,
    /// Command execution timed out
    Timeout,
    /// Command execution was skipped (e.g., due to previous command failure)
    Skipped,
}

/// Represents the status of TextFSM parsing.
#[derive(Debug, Clone, Copy, PartialEq, Eq, Structural)]
pub enum ParseStatus {
    /// Parsing was not attempted
    NotAttempted,
    /// Parsing succeeded
    Success,
    /// Parsing failed, raw output available
    Failed,
    /// No template found for platform/command
    NoTemplate,
}

/// Options for TextFSM parsing.
#[derive(Debug, Clone)]
pub struct ParseOptions {
    /// Whether parsing is enabled
    pub enabled: bool,
    /// Optional custom template directory path
    pub template_dir: Option<String>,
}

impl Default for ParseOptions {
    fn default() -> (r: Self)
        ensures
            !r.enabled,
            r.template_dir is None,
    {
        ParseOptions { enabled: false, template_dir: None }
    }
}

impl ParseOptions {
    /// Parsing enabled, default templates.
    pub fn enabled() -> (r: Self)
        ensures
            r.enabled,
            r.template_dir is None,
    {
        ParseOptions { enabled: true, template_dir: None }
    }

    /// Parsing enabled with templates from `template_dir`.
    pub fn with_template_dir(template_dir: String) -> (r: Self)
        ensures
            r.enabled,
            r.template_dir matches Some(d) && d@ == template_dir@,
    {
        ParseOptions { enabled: true, template_dir: Some(template_dir) }
    }
}

/// Holds the result of executing a command on a device.
#[derive(Debug, Clone)]
pub struct CommandResult {
    /// Optional device identifier
    pub device_id: Option<String>,
    /// Device IP address
    pub device_ip: String,
    /// Device hostname
    pub hostname: String,
    /// Platform type (vendor/model)
    pub platform_type: String,
    /// The command that was executed
    pub command: String,
    /// Command output - either raw string or parsed structured data
    pub output: Option<CommandOutput>,
    /// Status of command execution
    pub status: CommandStatus,
    /// Error message if command failed
    pub error: Option<String>,
    /// Status of TextFSM parsing
    pub parse_status: ParseStatus,
    /// Error message if parsing failed
    pub parse_error: Option<String>,
}

/// The view of an optional string.
pub open spec fn ostr(o: Option<String>) -> Option<Seq<char>> {
    match o {
        Some(s) => Some(s@),
        None => None,
    }
}

/// The raw text of an optional output.
pub open spec fn raw_of(o: Option<CommandOutput>) -> Option<Seq<char>> {
    match o {
        Some(CommandOutput::Raw(s)) => Some(s@),
        _ => None,
    }
}

/// `r` describes the device and command given.
pub open spec fn describes(
    r: CommandResult,
    device_id: Option<String>,
    device_ip: String,
    hostname: String,
    platform_type: String,
    command: String,
) -> bool {
    &&& ostr(r.device_id) == ostr(device_id)
    &&& r.device_ip@ == device_ip@
    &&& r.hostname@ == hostname@
    &&& r.platform_type@ == platform_type@
    &&& r.command@ == command@
}

impl CommandResult {
    /// A command that succeeded with raw output.
    pub fn success(
        device_id: Option<String>,
        device_ip: String,
        hostname: String,
        platform_type: String,
        command: String,
        output: String,
    ) -> (r: Self)
        ensures
            describes(r, device_id, device_ip, hostname, platform_type, command),
            r.output matches Some(CommandOutput::Raw(o)) && o@ == output@,
            r.status == CommandStatus::Success,
            r.error is None,
            r.parse_status == ParseStatus::NotAttempted,
            r.parse_error is None,
    {
        CommandResult {
            device_id,
            device_ip,
            hostname,
            platform_type,
            command,
            output: Some(CommandOutput::Raw(output)),
            status: CommandStatus::Success,
            error: None,
            parse_status: ParseStatus::NotAttempted,
            parse_error: None,
        }
    }

    /// A command that failed, with its output and error message.
    pub fn failure(
        device_id: Option<String>,
        device_ip: String,
        hostname: String,
        platform_type: String,
        command: String,
        output: String,
        error: String,
    ) -> (r: Self)
        ensures
            describes(r, device_id, device_ip, hostname, platform_type, command),
            r.output matches Some(CommandOutput::Raw(o)) && o@ == output@,
            r.status == CommandStatus::Failed,
            ostr(r.error) == Some(error@),
            r.parse_status == ParseStatus::NotAttempted,
            r.parse_error is None,
    {
        CommandResult {
            device_id,
            device_ip,
            hostname,
            platform_type,
            command,
            output: Some(CommandOutput::Raw(output)),
            status: CommandStatus::Failed,
            error: Some(error),
            parse_status: ParseStatus::NotAttempted,
            parse_error: None,
        }
    }

    /// A command that timed out.
    pub fn timeout(
        device_id: Option<String>,
        device_ip: String,
        hostname: String,
        platform_type: String,
        command: String,
        error_message: String,
    ) -> (r: Self)
        ensures
            describes(r, device_id, device_ip, hostname, platform_type, command),
            r.output is None,
            r.status == CommandStatus::Timeout,
            ostr(r.error) == Some(error_message@),
            r.parse_status == ParseStatus::NotAttempted,
            r.parse_error is None,
    {
        CommandResult {
            device_id,
            device_ip,
            hostname,
            platform_type,
            command,
            output: None,
            status: CommandStatus::Timeout,
            error: Some(error_message),
            parse_status: ParseStatus::NotAttempted,
            parse_error: None,
        }
    }

    /// A command that was not run.
    pub fn skipped(
        device_id: Option<String>,
        device_ip: String,
        hostname: String,
        platform_type: String,
        command: String,
    ) -> (r: Self)
        ensures
            describes(r, device_id, device_ip, hostname, platform_type, command),
            r.output is None,
            r.status == CommandStatus::Skipped,
            r.error is None,
            r.parse_status == ParseStatus::NotAttempted,
            r.parse_error is None,
    {
        CommandResult {
            device_id,
            device_ip,
            hostname,
            platform_type,
            command,
            output: None,
            status: CommandStatus::Skipped,
            error: None,
            parse_status: ParseStatus::NotAttempted,
            parse_error: None,
        }
    }

    /// The result of a command that raised `error`: a timeout error gives a
    /// timed-out result, any other error a failed one. A command error keeps
    /// its bare message, an error that carries output keeps its message and
    /// that output; other errors keep their rendered message and the output
    /// given.
    pub fn from_error(
        device_id: Option<String>,
        device_ip: String,
        hostname: String,
        platform_type: String,
        command: String,
        error: NetsshError,
        output: Option<String>,
    ) -> (r: Self)
        ensures
            describes(r, device_id, device_ip, hostname, platform_type, command),
            r.parse_status == ParseStatus::NotAttempted,
            r.parse_error is None,
            r.status == (if error is Timeout { CommandStatus::Timeout } else { CommandStatus::Failed }),
            match error {
                NetsshError::CommandError(m) => ostr(r.error) == Some(m@) && raw_of(r.output) == ostr(output)
                    && (r.output is None <==> output is None),
                NetsshError::CommandErrorWithOutput { error_msg, output: o } => ostr(r.error) == Some(error_msg@)
                    && raw_of(r.output) == Some(o@),
                _ => ostr(r.error) == Some(error_message(error)) && raw_of(r.output) == ostr(output)
                    && (r.output is None <==> output is None),
            },
    {
        let out = match output {
            Some(o) => Some(CommandOutput::Raw(o)),
            None => None,
        };
        match error {
            NetsshError::Timeout { .. } => {
                let m = error.message();
                CommandResult {
                    device_id,
                    device_ip,
                    hostname,
                    platform_type,
                    command,
                    output: out,
                    status: CommandStatus::Timeout,
                    error: Some(m),
                    parse_status: ParseStatus::NotAttempted,
                    parse_error: None,
                }
            },
            NetsshError::CommandError(msg) => CommandResult {
                device_id,
                device_ip,
                hostname,
                platform_type,
                command,
                output: out,
                status: CommandStatus::Failed,
                error: Some(msg),
                parse_status: ParseStatus::NotAttempted,
                parse_error: None,
            },
            NetsshError::CommandErrorWithOutput { error_msg, output: cmd_output } => CommandResult {
                device_id,
                device_ip,
                hostname,
                platform_type,
                command,
                output: Some(CommandOutput::Raw(cmd_output)),
                status: CommandStatus::Failed,
                error: Some(error_msg),
                parse_status: ParseStatus::NotAttempted,
                parse_error: None,
            },
            _ => {
                let m = error.message();
                CommandResult {
                    device_id,
                    device_ip,
                    hostname,
                    platform_type,
                    command,
                    output: out,
                    status: CommandStatus::Failed,
                    error: Some(m),
                    parse_status: ParseStatus::NotAttempted,
                    parse_error: None,
                }
            },
        }
    }

    /// A command whose output was parsed.
    pub fn success_with_parsing(
        device_id: Option<String>,
        device_ip: String,
        hostname: String,
        platform_type: String,
        command: String,
        parsed_data: Vec<IndexMap<String, serde_json::Value>>,
    ) -> (r: Self)
        ensures
            describes(r, device_id, device_ip, hostname, platform_type, command),
            r.output == Some(CommandOutput::Parsed(parsed_data)),
            r.status == CommandStatus::Success,
            r.error is None,
            r.parse_status == ParseStatus::Success,
            r.parse_error is None,
    {
        CommandResult {
            device_id,
            device_ip,
            hostname,
            platform_type,
            command,
            output: Some(CommandOutput::Parsed(parsed_data)),
            status: CommandStatus::Success,
            error: None,
            parse_status: ParseStatus::Success,
            parse_error: None,
        }
    }

    /// A command that ran but whose output could not be parsed; such a result
    /// counts as failed.
    pub fn success_with_parse_failure(
        device_id: Option<String>,
        device_ip: String,
        hostname: String,
        platform_type: String,
        command: String,
        output: String,
        parse_error: String,
    ) -> (r: Self)
        ensures
            describes(r, device_id, device_ip, hostname, platform_type, command),
            r.output matches Some(CommandOutput::Raw(o)) && o@ == output@,
            r.status == CommandStatus::Failed,
            r.error is None,
            r.parse_status == ParseStatus::Failed,
            ostr(r.parse_error) == Some(parse_error@),
    {
        CommandResult {
            device_id,
            device_ip,
            hostname,
            platform_type,
            command,
            output: Some(CommandOutput::Raw(output)),
            status: CommandStatus::Failed,
            error: None,
            parse_status: ParseStatus::Failed,
            parse_error: Some(parse_error),
        }
    }

    /// A command that ran but had no parsing template.
    pub fn success_with_no_template(
        device_id: Option<String>,
        device_ip: String,
        hostname: String,
        platform_type: String,
        command: String,
        output: String,
    ) -> (r: Self)
        ensures
            describes(r, device_id, device_ip, hostname, platform_type, command),
            r.output matches Some(CommandOutput::Raw(o)) && o@ == output@,
            r.status == CommandStatus::Success,
            r.error is None,
            r.parse_status == ParseStatus::NoTemplate,
            r.parse_error is None,
    {
        CommandResult {
            device_id,
            device_ip,
            hostname,
            platform_type,
            command,
            output: Some(CommandOutput::Raw(output)),
            status: CommandStatus::Success,
            error: None,
            parse_status: ParseStatus::NoTemplate,
            parse_error: None,
        }
    }

    /// Whether parsing succeeded.
    pub fn is_parsed(&self) -> (b: bool)
        ensures
            b == (self.parse_status == ParseStatus::Success),
    {
        self.parse_status == ParseStatus::Success
    }

    /// Whether parsing was attempted.
    pub fn parse_attempted(&self) -> (b: bool)
        ensures
            b == (self.parse_status != ParseStatus::NotAttempted),
    {
        self.parse_status != ParseStatus::NotAttempted
    }
}

/// Number of results with status `st`.
pub open spec fn count_in(rs: Seq<CommandResult>, st: CommandStatus) -> nat
    decreases rs.len(),
{
    if rs.len() == 0 {
        0
    } else {
        count_in(rs.drop_last(), st) + (if rs.last().status == st { 1nat } else { 0nat })
    }
}

/// Number of results in a batch.
pub open spec fn batch_len(s: Seq<(Seq<char>, Seq<CommandResult>)>) -> nat
    decreases s.len(),
{
    if s.len() == 0 {
        0
    } else {
        batch_len(s.drop_last()) + s.last().1.len()
    }
}

/// Number of results with status `st` in a batch.
pub open spec fn batch_count(s: Seq<(Seq<char>, Seq<CommandResult>)>, st: CommandStatus) -> nat
    decreases s.len(),
{
    if s.len() == 0 {
        0
    } else {
        batch_count(s.drop_last(), st) + count_in(s.last().1, st)
    }
}

/// All results of a batch, device by device.
pub open spec fn all_results(s: Seq<(Seq<char>, Seq<CommandResult>)>) -> Seq<CommandResult>
    decreases s.len(),
{
    if s.len() == 0 {
        Seq::empty()
    } else {
        all_results(s.drop_last()) + s.last().1
    }
}

/// The results that satisfy `p`, in order.
pub open spec fn keep(rs: Seq<CommandResult>, p: spec_fn(CommandResult) -> bool) -> Seq<CommandResult>
    decreases rs.len(),
{
    if rs.len() == 0 {
        Seq::empty()
    } else if p(rs.last()) {
        keep(rs.drop_last(), p).push(rs.last())
    } else {
        keep(rs.drop_last(), p)
    }
}

proof fn lemma_keep_append(a: Seq<CommandResult>, b: Seq<CommandResult>, p: spec_fn(CommandResult) -> bool)
    ensures
        keep(a + b, p) == keep(a, p) + keep(b, p),
    decreases b.len(),
{
    if b.len() == 0 {
        assert(a + b =~= a);
        assert(keep(a, p) + keep(b, p) =~= keep(a, p));
    } else {
        assert((a + b).drop_last() =~= a + b.drop_last());
        assert((a + b).last() == b.last());
        lemma_keep_append(a, b.drop_last(), p);
        if p(b.last()) {
            assert(keep(a, p) + keep(b, p) =~= (keep(a, p) + keep(b.drop_last(), p)).push(b.last()));
        }
    }
}

proof fn lemma_batch_update(s: Seq<(Seq<char>, Seq<CommandResult>)>, i: int, e: (Seq<char>, Seq<CommandResult>), st: CommandStatus)
    requires
        0 <= i < s.len(),
    ensures
        batch_len(s.update(i, e)) + s[i].1.len() == batch_len(s) + e.1.len(),
        batch_count(s.update(i, e), st) + count_in(s[i].1, st) == batch_count(s, st) + count_in(e.1, st),
    decreases s.len(),
{
    let t = s.update(i, e);
    if i < s.len() - 1 {
        assert(t.drop_last() =~= s.drop_last().update(i, e));
        lemma_batch_update(s.drop_last(), i, e, st);
    } else {
        assert(t.drop_last() =~= s.drop_last());
    }
}

proof fn lemma_count_partition(rs: Seq<CommandResult>)
    ensures
        count_in(rs, CommandStatus::Success) + count_in(rs, CommandStatus::Failed) + count_in(rs, CommandStatus::Timeout)
            + count_in(rs, CommandStatus::Skipped) == rs.len(),
    decreases rs.len(),
{
    if rs.len() > 0 {
        lemma_count_partition(rs.drop_last());
    }
}

/// In any batch, the four status counts add up to the number of results.
pub proof fn lemma_batch_partition(s: Seq<(Seq<char>, Seq<CommandResult>)>)
    ensures
        batch_count(s, CommandStatus::Success) + batch_count(s, CommandStatus::Failed) + batch_count(s, CommandStatus::Timeout)
            + batch_count(s, CommandStatus::Skipped) == batch_len(s),
    decreases s.len(),
{
    if s.len() > 0 {
        lemma_batch_partition(s.drop_last());
        lemma_count_partition(s.last().1);
    }
}

/// In a well-formed batch the command count is the number of results held,
/// and it is split exactly among the four status counts; the device count is
/// the number of devices held. Every batch that `new` and `add_result` build
/// is well formed, so this holds after any sequence of additions.
pub proof fn lemma_batch_counts_agree(b: &BatchCommandResults)
    requires
        b.wf(),
    ensures
        b.command_count == batch_len(b@),
        b.command_count == b.success_count + b.failure_count + b.timeout_count + b.skipped_count,
        b.device_count == b@.len(),
{
    lemma_batch_partition(b@);
}

/// Container for all results from a batch command execution: results per
/// device address, and counters of devices, commands and outcomes.
pub struct BatchCommandResults {
    /// Results per device address
    pub results: KeyedList<Vec<CommandResult>>,
    /// Total number of devices processed
    pub device_count: usize,
    /// Total number of commands executed
    pub command_count: usize,
    /// Number of successful commands
    pub success_count: usize,
    /// Number of failed commands
    pub failure_count: usize,
    /// Number of timed out commands
    pub timeout_count: usize,
    /// Number of skipped commands
    pub skipped_count: usize,
}

impl View for BatchCommandResults {
    type V = Seq<(Seq<char>, Seq<CommandResult>)>;

    open spec fn view(&self) -> Seq<(Seq<char>, Seq<CommandResult>)> {
        self.results@
    }
}

/// The results of `s` whose command is `c`.
pub open spec fn with_command(c: Seq<char>) -> spec_fn(CommandResult) -> bool {
    |r: CommandResult| r.command@ == c
}

/// The results of `s` whose status is `st`.
pub open spec fn with_status(st: CommandStatus) -> spec_fn(CommandResult) -> bool {
    |r: CommandResult| r.status == st
}

impl BatchCommandResults {
    /// The counters agree with the results held, and device keys are distinct.
    pub open spec fn wf(&self) -> bool {
        &&& keys_distinct(self@)
        &&& self.results.wf()
        &&& self.device_count == self@.len()
        &&& self.command_count == batch_len(self@)
        &&& self.success_count == batch_count(self@, CommandStatus::Success)
        &&& self.failure_count == batch_count(self@, CommandStatus::Failed)
        &&& self.timeout_count == batch_count(self@, CommandStatus::Timeout)
        &&& self.skipped_count == batch_count(self@, CommandStatus::Skipped)
    }

    /// An empty batch.
    pub fn new() -> (r: Self)
        ensures
            r.wf(),
            r@.len() == 0,
    {
        BatchCommandResults {
            results: KeyedList::new(),
            device_count: 0,
            command_count: 0,
            success_count: 0,
            failure_count: 0,
            timeout_count: 0,
            skipped_count: 0,
        }
    }

    /// Adds a result under its device's address: after the device's earlier
    /// results, or as a new device at the end. The command count and the
    /// count of the result's status go up by one, the others stay.
    pub fn add_result(&mut self, result: CommandResult)
        requires
            old(self).wf(),
            old(self).command_count < usize::MAX,
        ensures
            final(self).wf(),
            final(self)@ == (if has_key(old(self)@, result.device_ip@) {
                old(self)@.update(key_index(old(self)@, result.device_ip@),
                    (result.device_ip@, old(self)@[key_index(old(self)@, result.device_ip@)].1.push(result)))
            } else {
                old(self)@.push((result.device_ip@, seq![result]))
            }),
            final(self).command_count == old(self).command_count + 1,
            final(self).success_count == old(self).success_count + (if result.status == CommandStatus::Success { 1int } else { 0 }),
            final(self).failure_count == old(self).failure_count + (if result.status == CommandStatus::Failed { 1int } else { 0 }),
            final(self).timeout_count == old(self).timeout_count + (if result.status == CommandStatus::Timeout { 1int } else { 0 }),
            final(self).skipped_count == old(self).skipped_count + (if result.status == CommandStatus::Skipped { 1int } else { 0 }),
            final(self).command_count == final(self).success_count + final(self).failure_count
                + final(self).timeout_count + final(self).skipped_count,
            final(self).command_count == batch_len(final(self)@),
            final(self).device_count == final(self)@.len(),
    {
        proof { lemma_batch_partition(self@); }
        let ghost old_s = self@;
        let ghost st = result.status;
        let key = result.device_ip.clone();
        match result.status {
            CommandStatus::Success => self.success_count = self.success_count + 1,
            CommandStatus::Failed => self.failure_count = self.failure_count + 1,
            CommandStatus::Timeout => self.timeout_count = self.timeout_count + 1,
            CommandStatus::Skipped => self.skipped_count = self.skipped_count + 1,
        }
        self.command_count = self.command_count + 1;
        match self.results.find(key.as_str()) {
            Some(i) => {
                let ghost e = (old_s[i as int].0, old_s[i as int].1.push(result));
                self.results.push_to(i, result);
                proof {
                    assert(old_s[i as int].1.push(result).drop_last() =~= old_s[i as int].1);
                    assert(e.1.drop_last() == old_s[i as int].1);
                    assert(e.1.last() == result);
                    assert(count_in(e.1, CommandStatus::Success) == count_in(old_s[i as int].1, CommandStatus::Success)
                        + (if result.status == CommandStatus::Success { 1nat } else { 0nat }));
                    assert(count_in(e.1, CommandStatus::Failed) == count_in(old_s[i as int].1, CommandStatus::Failed)
                        + (if result.status == CommandStatus::Failed { 1nat } else { 0nat }));
                    assert(count_in(e.1, CommandStatus::Timeout) == count_in(old_s[i as int].1, CommandStatus::Timeout)
                        + (if result.status == CommandStatus::Timeout { 1nat } else { 0nat }));
                    assert(count_in(e.1, CommandStatus::Skipped) == count_in(old_s[i as int].1, CommandStatus::Skipped)
                        + (if result.status == CommandStatus::Skipped { 1nat } else { 0nat }));
                    lemma_batch_update(old_s, i as int, e, CommandStatus::Success);
                    lemma_batch_update(old_s, i as int, e, CommandStatus::Failed);
                    lemma_batch_update(old_s, i as int, e, CommandStatus::Timeout);
                    lemma_batch_update(old_s, i as int, e, CommandStatus::Skipped);
                    assert(self@ == old_s.update(i as int, e));
                }
            },
            None => {
                let mut v: Vec<CommandResult> = Vec::new();
                v.push(result);
                let ghost vv = v@;
                self.results.insert(key, v);
                proof {
                    assert(vv =~= seq![result]);
                    assert(self@ == old_s.push((result.device_ip@, seq![result])));
                    assert(self@.drop_last() =~= old_s);
                    assert(seq![result].drop_last() =~= Seq::<CommandResult>::empty());
                    reveal_with_fuel(count_in, 2);
                    assert(count_in(seq![result], CommandStatus::Success) == (if result.status == CommandStatus::Success { 1nat } else { 0nat }));
                    assert(count_in(seq![result], CommandStatus::Failed) == (if result.status == CommandStatus::Failed { 1nat } else { 0nat }));
                    assert(count_in(seq![result], CommandStatus::Timeout) == (if result.status == CommandStatus::Timeout { 1nat } else { 0nat }));
                    assert(count_in(seq![result], CommandStatus::Skipped) == (if result.status == CommandStatus::Skipped { 1nat } else { 0nat }));
                }
            },
        }
        self.device_count = self.results.len();
        proof { lemma_batch_partition(self@); }
    }

    /// All results for the device with address `device_id`.
    pub fn get_device_results(&self, device_id: &str) -> (r: Option<&Vec<CommandResult>>)
        requires
            self.wf(),
        ensures
            match r {
                Some(v) => assoc_get(self@, device_id@) == Some(v@),
                None => assoc_get(self@, device_id@) is None,
            },
    {
        self.results.get(device_id)
    }

    /// All results whose command is `command`, device by device.
    pub fn get_command_results(&self, command: &str) -> (r: Vec<&CommandResult>)
        ensures
            r@.map_values(|x: &CommandResult| *x) == keep(all_results(self@), with_command(command@)),
    {
        let mut out: Vec<&CommandResult> = Vec::new();
        let n = self.results.len();
        let mut i: usize = 0;
        while i < n
            invariant
                n == self@.len(),
                0 <= i <= n,
                out@.map_values(|x: &CommandResult| *x) == keep(all_results(self@.take(i as int)), with_command(command@)),
            decreases n - i,
        {
            let v = self.results.value_at(i);
            let ghost before = out@.map_values(|x: &CommandResult| *x);
            let mut j: usize = 0;
            while j < v.len()
                invariant
                    n == self@.len(),
                    i < n,
                    v@ == self@[i as int].1,
                    0 <= j <= v@.len(),
                    out@.map_values(|x: &CommandResult| *x) == before + keep(v@.take(j as int), with_command(command@)),
                decreases v@.len() - j,
            {
                let r = &v[j];
                proof {
                    assert(v@.take(j as int + 1).drop_last() =~= v@.take(j as int));
                    assert(v@.take(j as int + 1).last() == *r);
                }
                if str_eq(r.command.as_str(), command) {
                    let ghost prev = out@.map_values(|x: &CommandResult| *x);
                    out.push(r);
                    proof { assert(out@.map_values(|x: &CommandResult| *x) =~= prev.push(*r)); }
                    proof {
                        assert((with_command(command@))(*r));
                        assert(out@.map_values(|x: &CommandResult| *x) =~= before + keep(v@.take(j as int + 1), with_command(command@)));
                    }
                }
                j = j + 1;
            }
            proof {
                assert(v@.take(v@.len() as int) =~= v@);
                assert(self@.take(i as int + 1).drop_last() =~= self@.take(i as int));
                lemma_keep_append(all_results(self@.take(i as int)), v@, with_command(command@));
            }
            i = i + 1;
        }
        proof { assert(self@.take(n as int) =~= self@); }
        out
    }

    /// All results with status `status`, device by device.
    pub fn filter_by_status(&self, status: CommandStatus) -> (r: Vec<&CommandResult>)
        ensures
            r@.map_values(|x: &CommandResult| *x) == keep(all_results(self@), with_status(status)),
    {
        let mut out: Vec<&CommandResult> = Vec::new();
        let n = self.results.len();
        let mut i: usize = 0;
        while i < n
            invariant
                n == self@.len(),
                0 <= i <= n,
                out@.map_values(|x: &CommandResult| *x) == keep(all_results(self@.take(i as int)), with_status(status)),
            decreases n - i,
        {
            let v = self.results.value_at(i);
            let ghost before = out@.map_values(|x: &CommandResult| *x);
            let mut j: usize = 0;
            while j < v.len()
                invariant
                    n == self@.len(),
                    i < n,
                    v@ == self@[i as int].1,
                    0 <= j <= v@.len(),
                    out@.map_values(|x: &CommandResult| *x) == before + keep(v@.take(j as int), with_status(status)),
                decreases v@.len() - j,
            {
                let r = &v[j];
                proof {
                    assert(v@.take(j as int + 1).drop_last() =~= v@.take(j as int));
                    assert(v@.take(j as int + 1).last() == *r);
                }
                if r.status == status {
                    let ghost prev = out@.map_values(|x: &CommandResult| *x);
                    out.push(r);
                    proof { assert(out@.map_values(|x: &CommandResult| *x) =~= prev.push(*r)); }
                    proof {
                        assert((with_status(status))(*r));
                        assert(out@.map_values(|x: &CommandResult| *x) =~= before + keep(v@.take(j as int + 1), with_status(status)));
                    }
                }
                j = j + 1;
            }
            proof {
                assert(v@.take(v@.len() as int) =~= v@);
                assert(self@.take(i as int + 1).drop_last() =~= self@.take(i as int));
                lemma_keep_append(all_results(self@.take(i as int)), v@, with_status(status));
            }
            i = i + 1;
        }
        proof { assert(self@.take(n as int) =~= self@); }
        out
    }

    /// The successful results.
    pub fn successful_results(&self) -> (r: Vec<&CommandResult>)
        ensures
            r@.map_values(|x: &CommandResult| *x) == keep(all_results(self@), with_status(CommandStatus::Success)),
    {
        self.filter_by_status(CommandStatus::Success)
    }

    /// The failed results.
    pub fn failed_results(&self) -> (r: Vec<&CommandResult>)
        ensures
            r@.map_values(|x: &CommandResult| *x) == keep(all_results(self@), with_status(CommandStatus::Failed)),
    {
        self.filter_by_status(CommandStatus::Failed)
    }

    /// The timed-out results.
    pub fn timeout_results(&self) -> (r: Vec<&CommandResult>)
        ensures
            r@.map_values(|x: &CommandResult| *x) == keep(all_results(self@), with_status(CommandStatus::Timeout)),
    {
        self.filter_by_status(CommandStatus::Timeout)
    }

    /// The skipped results.
    pub fn skipped_results(&self) -> (r: Vec<&CommandResult>)
        ensures
            r@.map_values(|x: &CommandResult| *x) == keep(all_results(self@), with_status(CommandStatus::Skipped)),
    {
        self.filter_by_status(CommandStatus::Skipped)
    }

    /// Number of devices with results.
    pub fn len(&self) -> (n: usize)
        ensures
            n == self@.len(),
    {
        self.results.len()
    }

    /// The address of the device at position `i`.
    pub fn device_at(&self, i: usize) -> (r: &String)
        requires
            i < self@.len(),
        ensures
            r@ == self@[i as int].0,
    {
        self.results.key_at(i)
    }

    /// The results of the device at position `i`.
    pub fn results_at(&self, i: usize) -> (r: &Vec<CommandResult>)
        requires
            i < self@.len(),
        ensures
            r@ == self@[i as int].1,
    {
        self.results.value_at(i)
    }
}

} // verus!
