//! Running commands on many devices: the execution settings, the command
//! sequence of one device under a failure strategy, and the gathering of all
//! devices' results into a batch.
//!
//! Connecting, sending and waiting happen outside; the types here decide
//! what to run next and what each outcome is recorded as.

use vstd::prelude::*;
use std::time::Duration;
use crate::command_result::{BatchCommandResults, CommandResult, CommandStatus, ostr};
use crate::settings::{duration_from_secs, duration_of_secs};

verus! {

/// Batch execution strategy for handling failures.
#[derive(Debug, Clone, Copy, PartialEq, Eq, Structural)]
pub enum FailureStrategy {
    /// Continue executing commands on the device, skipping only the failed command
    ContinueOnDevice,
    /// Skip remaining commands for the device where the failure occurred
    SkipDevice,
    /// Abort the entire batch operation across all devices
    AbortBatch,
}

/// Configuration for parallel execution.
#[derive(Debug)]
pub struct ParallelExecutionConfig {
    /// Maximum number of concurrent connections (default: 10)
    pub max_concurrent_devices: usize,
    /// Strategy to handle command failures (default: SkipDevice)
    pub failure_strategy: FailureStrategy,
    /// Command timeout (default: 30 seconds)
    pub command_timeout: Duration,
    /// Whether to stop on first failure (default: false); it also decides
    /// whether connections are reused
    pub stop_on_first_failure: bool,
}

impl Clone for ParallelExecutionConfig {
    fn clone(&self) -> (r: Self)
        ensures
            r == *self,
    {
        ParallelExecutionConfig {
            max_concurrent_devices: self.max_concurrent_devices,
            failure_strategy: self.failure_strategy,
            command_timeout: self.command_timeout,
            stop_on_first_failure: self.stop_on_first_failure,
        }
    }
}

impl Default for ParallelExecutionConfig {
    fn default() -> (r: Self)
        ensures
            r.max_concurrent_devices == 10,
            r.failure_strategy == FailureStrategy::SkipDevice,
            r.command_timeout == duration_of_secs(30),
            !r.stop_on_first_failure,
    {
        ParallelExecutionConfig {
            max_concurrent_devices: 10,
            failure_strategy: FailureStrategy::SkipDevice,
            command_timeout: duration_from_secs(30),
            stop_on_first_failure: false,
        }
    }
}

impl ParallelExecutionConfig {
    /// Sets the maximum concurrency.
    pub fn set_max_concurrency(&mut self, max_concurrency: usize)
        ensures
            *final(self) == (ParallelExecutionConfig { max_concurrent_devices: max_concurrency, ..*old(self) }),
    {
        self.max_concurrent_devices = max_concurrency;
    }

    /// Sets the command timeout.
    pub fn set_command_timeout(&mut self, timeout: Duration)
        ensures
            *final(self) == (ParallelExecutionConfig { command_timeout: timeout, ..*old(self) }),
    {
        self.command_timeout = timeout;
    }

    /// Sets the failure strategy.
    pub fn set_failure_strategy(&mut self, strategy: FailureStrategy)
        ensures
            *final(self) == (ParallelExecutionConfig { failure_strategy: strategy, ..*old(self) }),
    {
        self.failure_strategy = strategy;
    }

    /// Sets whether connections are reused: the stop-on-first-failure flag
    /// is its negation.
    pub fn set_reuse_connections(&mut self, reuse: bool)
        ensures
            *final(self) == (ParallelExecutionConfig { stop_on_first_failure: !reuse, ..*old(self) }),
    {
        self.stop_on_first_failure = !reuse;
    }

    /// Whether connections are taken from the reuse pool: the run reads the
    /// stop-on-first-failure flag for this.
    pub fn reuse_connection(&self) -> (b: bool)
        ensures
            b == self.stop_on_first_failure,
    {
        self.stop_on_first_failure
    }
}

/// The timeout of one command: the device's own when it has one, else the
/// configured one.
pub fn command_timeout_for(device_timeout: Option<Duration>, config_timeout: Duration) -> (d: Duration)
    ensures
        d == match device_timeout {
            Some(t) => t,
            None => config_timeout,
        },
{
    match device_timeout {
        Some(t) => t,
        None => config_timeout,
    }
}

/// A failed result for every command of a device that could not be reached,
/// each carrying `prefix` followed by the error's message.
pub fn unreachable_device_results(host: &str, device_type: &str, commands: &Vec<String>, prefix: &str, error: &str) -> (r: Vec<CommandResult>)
    ensures
        r@.len() == commands@.len(),
        forall|i: int| 0 <= i < r@.len() ==> {
            let x = #[trigger] r@[i];
            &&& x.status == CommandStatus::Failed
            &&& x.command@ == commands@[i]@
            &&& x.device_ip@ == host@
            &&& x.platform_type@ == device_type@
            &&& ostr(x.error) == Some(prefix@ + error@)
        },
{
    let mut r: Vec<CommandResult> = Vec::new();
    let mut i: usize = 0;
    while i < commands.len()
        invariant
            0 <= i <= commands@.len(),
            r@.len() == i,
            forall|j: int| 0 <= j < i ==> {
                let x = #[trigger] r@[j];
                &&& x.status == CommandStatus::Failed
                &&& x.command@ == commands@[j]@
                &&& x.device_ip@ == host@
                &&& x.platform_type@ == device_type@
                &&& ostr(x.error) == Some(prefix@ + error@)
            },
        decreases commands@.len() - i,
    {
        let mut msg = prefix.to_owned();
        msg.append(error);
        r.push(CommandResult::failure(None, host.to_owned(), host.to_owned(), device_type.to_owned(),
            commands[i].clone(), String::new(), msg));
        i = i + 1;
    }
    r
}

/// What happened to one command sent to a device.
#[derive(Debug, Clone)]
pub enum CommandOutcome {
    /// The device answered with this output.
    Output(String),
    /// Sending failed with this message.
    Error(String),
    /// No answer came in time.
    TimedOut,
}

/// The commands of one device, run in order under a failure strategy.
pub struct DeviceRun {
    host: String,
    device_type: String,
    commands: Vec<String>,
    strategy: FailureStrategy,
    index: usize,
    device_failed: bool,
    results: Vec<CommandResult>,
}

/// The state of a device run.
pub struct RunView {
    pub host: Seq<char>,
    pub device_type: Seq<char>,
    pub commands: Seq<Seq<char>>,
    pub strategy: FailureStrategy,
    pub index: int,
    pub device_failed: bool,
    pub results: Seq<CommandResult>,
}

impl View for DeviceRun {
    type V = RunView;

    closed spec fn view(&self) -> RunView {
        RunView {
            host: self.host@,
            device_type: self.device_type@,
            commands: crate::text::strings_view(self.commands@),
            strategy: self.strategy,
            index: self.index as int,
            device_failed: self.device_failed,
            results: self.results@,
        }
    }
}

/// A result that ends the device's success: a failure or a timeout.
pub open spec fn is_bad(r: CommandResult) -> bool {
    r.status == CommandStatus::Failed || r.status == CommandStatus::Timeout
}

/// A result is about the device: its address and host name are the host and
/// its platform is the device type.
pub open spec fn for_device(r: CommandResult, host: Seq<char>, device_type: Seq<char>) -> bool {
    r.device_ip@ == host && r.hostname@ == host && r.platform_type@ == device_type
}

/// The invariant of a run: one result per command run so far, for that
/// command, the failure flag set exactly when a result was bad, and, when
/// skipping, every result after a bad one skipped; no skipped result under
/// another strategy.
pub open spec fn run_inv(v: RunView) -> bool {
    &&& 0 <= v.index <= v.commands.len()
    &&& v.results.len() == v.index
    &&& forall|i: int| 0 <= i < v.index ==> (#[trigger] v.results[i]).command@ == v.commands[i]
    &&& forall|i: int| 0 <= i < v.index ==> for_device(#[trigger] v.results[i], v.host, v.device_type)
    &&& v.device_failed == exists|i: int| 0 <= i < v.index && is_bad(#[trigger] v.results[i])
    &&& v.strategy == FailureStrategy::SkipDevice ==> forall|i: int, j: int|
        0 <= i < j < v.index && is_bad(#[trigger] v.results[i]) ==> (#[trigger] v.results[j]).status == CommandStatus::Skipped
    &&& v.strategy != FailureStrategy::SkipDevice ==> forall|i: int|
        0 <= i < v.index ==> (#[trigger] v.results[i]).status != CommandStatus::Skipped
}

impl DeviceRun {
    /// The run's bookkeeping holds.
    pub open spec fn wf(&self) -> bool {
        run_inv(self@)
    }

    /// A run about to start with the first command.
    pub fn new(host: String, device_type: String, commands: Vec<String>, strategy: FailureStrategy) -> (r: Self)
        ensures
            r.wf(),
            r@.host == host@,
            r@.device_type == device_type@,
            r@.commands == crate::text::strings_view(commands@),
            r@.strategy == strategy,
            r@.index == 0,
            !r@.device_failed,
            r@.results.len() == 0,
    {
        let r = DeviceRun { host, device_type, commands, strategy, index: 0, device_failed: false, results: Vec::new() };
        r
    }

    /// The next command to send: none when all are done; after a failure under
    /// the skipping strategy, the remaining commands are recorded as skipped
    /// and none is sent.
    pub fn next_command(&mut self) -> (c: Option<String>)
        requires
            old(self).wf(),
        ensures
            final(self).wf(),
            final(self)@.host == old(self)@.host,
            final(self)@.device_type == old(self)@.device_type,
            final(self)@.strategy == old(self)@.strategy,
            final(self)@.commands == old(self)@.commands,
            final(self)@.device_failed == old(self)@.device_failed,
            old(self)@.device_failed && old(self)@.strategy == FailureStrategy::SkipDevice ==> {
                &&& c is None
                &&& final(self)@.index == old(self)@.commands.len()
                &&& final(self)@.results.take(old(self)@.index) == old(self)@.results
                &&& forall|i: int| old(self)@.index <= i < final(self)@.index
                    ==> (#[trigger] final(self)@.results[i]).status == CommandStatus::Skipped
            },
            !(old(self)@.device_failed && old(self)@.strategy == FailureStrategy::SkipDevice) ==> {
                &&& final(self)@ == old(self)@
                &&& match c {
                    Some(s) => old(self)@.index < old(self)@.commands.len() && s@ == old(self)@.commands[old(self)@.index],
                    None => old(self)@.index == old(self)@.commands.len(),
                }
            },
    {
        if self.device_failed && self.strategy == FailureStrategy::SkipDevice {
            let ghost old_v = self@;
            while self.index < self.commands.len()
                invariant
                    run_inv(self@),
                    self@.device_failed,
                    self@.strategy == FailureStrategy::SkipDevice,
                    self@.commands == old_v.commands,
                    old_v.index <= self@.index,
                    self@.results.take(old_v.index) == old_v.results,
                    forall|i: int| old_v.index <= i < self@.index ==> (#[trigger] self@.results[i]).status == CommandStatus::Skipped,
                decreases self@.commands.len() - self@.index,
            {
                let ghost before = self@;
                let cmd = self.commands[self.index].clone();
                let r = CommandResult::skipped(None, self.host.clone(), self.host.clone(), self.device_type.clone(), cmd);
                self.results.push(r);
                self.index = self.index + 1;
                proof {
                    assert(self@.results == before.results.push(r));
                    assert(self@.results.take(old_v.index) =~= old_v.results) by {
                        assert(before.results.take(old_v.index) == old_v.results);
                    }
                    assert(self@.commands[before.index] == self.commands@[before.index]@);
                    let k = choose|k: int| 0 <= k < before.index && is_bad(#[trigger] before.results[k]);
                    assert(self@.results[k] == before.results[k]);
                }
            }
            return None;
        }
        if self.index < self.commands.len() {
            proof { assert(self@.commands[self@.index] == self.commands@[self@.index]@); }
            Some(self.commands[self.index].clone())
        } else {
            None
        }
    }

    /// Records the outcome of the command just sent.
    pub fn record(&mut self, outcome: CommandOutcome)
        requires
            old(self).wf(),
            old(self)@.index < old(self)@.commands.len(),
            !(old(self)@.device_failed && old(self)@.strategy == FailureStrategy::SkipDevice),
        ensures
            final(self).wf(),
            final(self)@.host == old(self)@.host,
            final(self)@.device_type == old(self)@.device_type,
            final(self)@.commands == old(self)@.commands,
            final(self)@.strategy == old(self)@.strategy,
            final(self)@.index == old(self)@.index + 1,
            final(self)@.device_failed == (old(self)@.device_failed || !(outcome is Output)),
            final(self)@.results.drop_last() == old(self)@.results,
            ({
                let r = final(self)@.results.last();
                &&& r.command@ == old(self)@.commands[old(self)@.index]
                &&& for_device(r, old(self)@.host, old(self)@.device_type)
                &&& match outcome {
                    CommandOutcome::Output(o) => r.status == CommandStatus::Success
                        && (r.output matches Some(crate::command_result::CommandOutput::Raw(t)) && t@ == o@),
                    CommandOutcome::Error(e) => r.status == CommandStatus::Failed
                        && ostr(r.error) == Some("Command execution error: "@ + e@),
                    CommandOutcome::TimedOut => r.status == CommandStatus::Timeout
                        && ostr(r.error) == Some("Command execution timed out"@),
                }
            }),
    {
        let ghost before = self@;
        let n = self.commands.len();
        assert(self.index < n);
        let cmd = self.commands[self.index].clone();
        proof { assert(before.commands[before.index] == self.commands@[before.index]@); }
        let r = match outcome {
            CommandOutcome::Output(o) => CommandResult::success(None, self.host.clone(), self.host.clone(),
                self.device_type.clone(), cmd, o),
            CommandOutcome::Error(e) => {
                let mut msg = String::from_str("Command execution error: ");
                msg.append(e.as_str());
                CommandResult::failure(None, self.host.clone(), self.host.clone(), self.device_type.clone(), cmd,
                    String::new(), msg)
            },
            CommandOutcome::TimedOut => CommandResult::timeout(None, self.host.clone(), self.host.clone(),
                self.device_type.clone(), cmd, String::from_str("Command execution timed out")),
        };
        let bad = r.status != CommandStatus::Success;
        self.results.push(r);
        self.index = self.index + 1;
        if bad {
            self.device_failed = true;
        }
        proof {
            assert(self@.results == before.results.push(r));
            assert(self@.results.drop_last() =~= before.results);
            assert(self@.results[before.index] == r);
            if bad {
                assert(is_bad(self@.results[before.index]));
            } else {
                if self@.device_failed {
                    let k = choose|k: int| 0 <= k < self@.index && is_bad(#[trigger] self@.results[k]);
                    assert(k < before.index);
                    assert(before.results[k] == self@.results[k]);
                }
            }
        }
    }

    /// Whether every command has a result.
    pub fn is_done(&self) -> (b: bool)
        ensures
            b == (self@.index >= self@.commands.len()),
    {
        self.index >= self.commands.len()
    }

    /// The results recorded, one per command in order.
    pub fn into_results(self) -> (r: Vec<CommandResult>)
        ensures
            r@ == self@.results,
    {
        self.results
    }
}

/// Once a device's run has had a failure or timeout under the skipping
/// strategy, every later command of that device is skipped.
pub proof fn lemma_skip_after_failure(v: RunView, i: int, j: int)
    requires
        run_inv(v),
        v.strategy == FailureStrategy::SkipDevice,
        0 <= i < j < v.index,
        is_bad(v.results[i]),
    ensures
        v.results[j].status == CommandStatus::Skipped,
{
    assert(is_bad(v.results[i]));
}

/// Under the other strategies no command of a device is skipped.
pub proof fn lemma_no_skip_without_skip_strategy(v: RunView, i: int)
    requires
        run_inv(v),
        v.strategy != FailureStrategy::SkipDevice,
        0 <= i < v.index,
    ensures
        v.results[i].status != CommandStatus::Skipped,
{
    assert(v.results[i].status != CommandStatus::Skipped);
}

/// How gathering one device's results ended.
#[derive(Debug, Clone, Copy, PartialEq, Eq, Structural)]
pub struct GatherOutcome {
    /// The batch is aborted: no more devices are gathered.
    pub stop_all: bool,
    /// Some result of the device failed.
    pub has_failures: bool,
}

/// Adds a device's results to the batch in order. Under the aborting
/// strategy, adding stops after the first failed result and the batch stops.
pub fn gather_device_results(batch: &mut BatchCommandResults, results: Vec<CommandResult>, strategy: FailureStrategy) -> (g: GatherOutcome)
    requires
        old(batch).wf(),
        old(batch).command_count + results@.len() < usize::MAX,
    ensures
        final(batch).wf(),
        g.has_failures == exists|i: int| 0 <= i < results@.len() && (#[trigger] results@[i]).status == CommandStatus::Failed,
        g.stop_all == (strategy == FailureStrategy::AbortBatch && g.has_failures),
        final(batch).command_count == old(batch).command_count + (if g.stop_all {
            (choose|i: int| 0 <= i < results@.len() && (#[trigger] results@[i]).status == CommandStatus::Failed
                && forall|j: int| 0 <= j < i ==> (#[trigger] results@[j]).status != CommandStatus::Failed) + 1
        } else {
            results@.len() as int
        }),
{
    let mut has_failures = false;
    let mut k: usize = 0;
    while k < results.len()
        invariant
            0 <= k <= results@.len(),
            has_failures == exists|i: int| 0 <= i < k && (#[trigger] results@[i]).status == CommandStatus::Failed,
        decreases results@.len() - k,
    {
        if results[k].status == CommandStatus::Failed {
            has_failures = true;
        }
        k = k + 1;
    }
    let ghost start = batch.command_count;
    let mut stop_all = false;
    let mut added: usize = 0;
    let n = results.len();
    let mut rest = results;
    let ghost all = rest@;
    proof { assert(rest@ =~= all.subrange(0, n as int)); }
    while added < n && !stop_all
        invariant
            n == all.len(),
            0 <= added <= n,
            rest@ == all.subrange(added as int, n as int),
            batch.wf(),
            batch.command_count == start + added,
            start + n < usize::MAX,
            !stop_all ==> forall|j: int| 0 <= j < added ==> (#[trigger] all[j]).status != CommandStatus::Failed
                || strategy != FailureStrategy::AbortBatch,
            stop_all ==> strategy == FailureStrategy::AbortBatch && added >= 1
                && all[added - 1].status == CommandStatus::Failed
                && forall|j: int| 0 <= j < added - 1 ==> (#[trigger] all[j]).status != CommandStatus::Failed,
        decreases n - added,
    {
        proof { assert(rest@.len() == n - added); }
        let r = rest.remove(0);
        proof {
            assert(r == all[added as int]);
        }
        let should_stop = r.status == CommandStatus::Failed && strategy == FailureStrategy::AbortBatch;
        batch.add_result(r);
        added = added + 1;
        proof {
            assert(rest@ =~= all.subrange(added as int, n as int));
        }
        if should_stop {
            stop_all = true;
        }
    }
    proof {
        if stop_all {
            let i = (added - 1) as int;
            let c = choose|c: int| 0 <= c < all.len() && (#[trigger] all[c]).status == CommandStatus::Failed
                && forall|j: int| 0 <= j < c ==> (#[trigger] all[j]).status != CommandStatus::Failed;
            assert(0 <= i < all.len() && all[i].status == CommandStatus::Failed
                && forall|j: int| 0 <= j < i ==> (#[trigger] all[j]).status != CommandStatus::Failed);
            if c < i { assert(all[c].status != CommandStatus::Failed); }
            if c > i { assert(all[i].status != CommandStatus::Failed); }
            assert(has_failures);
        } else {
            assert(added == n);
            if strategy == FailureStrategy::AbortBatch && has_failures {
                let i = choose|i: int| 0 <= i < all.len() && (#[trigger] all[i]).status == CommandStatus::Failed;
                assert(all[i].status != CommandStatus::Failed);
            }
        }
    }
    GatherOutcome { stop_all, has_failures }
}

} // verus!
