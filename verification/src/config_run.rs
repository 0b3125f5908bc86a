//! The sequence of a configuration run: entering configuration mode, sending
//! the commands the way the chosen mode asks, stopping at the first command
//! the device rejects, and leaving configuration mode. The caller performs
//! each action on the connection and feeds back what it gave.

use vstd::prelude::*;
use crate::error::NetsshError;
use crate::session::{
    choose_config_send_mode, command_text, compiles, config_command_error, config_send_mode, normalize_command,
    opt_view, sanitize_output, sanitized, ConfigSendMode,
};
use crate::text::{regex_escape, regex_escaped, regex_matches, strings_view, trim, trim_str};

verus! {

/// Where a configuration run stands.
#[derive(Debug, Clone, Copy, PartialEq, Eq, Structural)]
pub enum ConfigStage {
    /// Entering configuration mode.
    Enter,
    /// Writing the current command.
    Write,
    /// Pausing after the current command (sending without verification).
    Pause,
    /// Reading what the current command gave (sending without verification,
    /// with an error pattern).
    ReadAfter,
    /// Reading the current command's echo (verified sending).
    Echo,
    /// Reading what all the commands gave, once.
    FinalRead,
    /// Leaving configuration mode.
    Exit,
    /// Nothing more to do.
    Done,
}

/// What the caller does next on the connection.
#[derive(Debug)]
pub enum ConfigAction {
    /// Enter configuration mode and feed back its output.
    EnterConfigMode,
    /// Write this text and feed back `Ok` (or the write's error).
    Write(String),
    /// Wait a short while (50 ms), then feed back anything.
    Pause,
    /// Read for the run's read timeout and feed back what came.
    ReadTiming,
    /// Read until this pattern (the command's echo) and feed back the result.
    ReadEcho(String),
    /// Leave configuration mode and feed back its output.
    ExitConfigMode,
    /// The run is over: take its outcome with `finish`.
    Done,
}

/// Why a configuration run failed.
#[derive(Debug)]
pub enum ConfigFailure {
    /// An action on the connection failed with this error.
    Io(NetsshError),
    /// The device rejected the command with this index.
    Rejected(usize),
}

/// The state of a configuration run.
pub struct ConfigRunView {
    pub commands: Seq<Seq<char>>,
    pub mode: ConfigSendMode,
    pub error_pattern: Option<Seq<char>>,
    pub exit: bool,
    pub stage: ConfigStage,
    pub index: int,
    pub output: Seq<char>,
    pub failure: Option<ConfigFailure>,
}

/// The run checks each command's output against an error pattern: one is
/// given and it compiles.
pub open spec fn checks_errors(v: ConfigRunView) -> bool {
    v.error_pattern matches Some(p) && compiles(p)
}

/// The output gathered so far shows the device rejecting a command.
pub open spec fn rejected(v: ConfigRunView) -> bool {
    v.error_pattern matches Some(p) && compiles(p) && regex_matches(p, v.output)
}

/// On to leaving configuration mode, or straight to the end when the run
/// stays in it.
pub open spec fn to_exit(v: ConfigRunView) -> ConfigRunView {
    ConfigRunView { stage: if v.exit { ConfigStage::Exit } else { ConfigStage::Done }, ..v }
}

/// After the last command: one read of everything when the commands were sent
/// without reading in between, else on to leaving configuration mode.
pub open spec fn after_commands(v: ConfigRunView) -> ConfigRunView {
    match v.mode {
        ConfigSendMode::Fast => ConfigRunView { stage: ConfigStage::FinalRead, ..v },
        ConfigSendMode::Unverified => if checks_errors(v) {
            to_exit(v)
        } else {
            ConfigRunView { stage: ConfigStage::FinalRead, ..v }
        },
        _ => to_exit(v),
    }
}

/// The current command is handled: on to the next one, or past the last.
pub open spec fn advance(v: ConfigRunView) -> ConfigRunView {
    if v.index + 1 < v.commands.len() {
        ConfigRunView { stage: ConfigStage::Write, index: v.index + 1, ..v }
    } else {
        after_commands(v)
    }
}

/// The run ends with `f`.
pub open spec fn fail(v: ConfigRunView, f: ConfigFailure) -> ConfigRunView {
    ConfigRunView { stage: ConfigStage::Done, failure: Some(f), ..v }
}

/// After the output so far was checked: the run ends when the device rejected
/// the current command, and goes on otherwise.
pub open spec fn check_then_advance(v: ConfigRunView) -> ConfigRunView {
    if rejected(v) {
        fail(v, ConfigFailure::Rejected(v.index as usize))
    } else {
        advance(v)
    }
}

/// `v` with `o` added to its output.
pub open spec fn with_output(v: ConfigRunView, o: Seq<char>) -> ConfigRunView {
    ConfigRunView { output: v.output + o, ..v }
}

/// The state after the result `r` of the current action.
pub open spec fn config_after(v: ConfigRunView, r: Result<String, NetsshError>) -> ConfigRunView {
    match v.stage {
        ConfigStage::Enter => match r {
            Ok(o) => ConfigRunView { stage: ConfigStage::Write, index: 0, ..with_output(v, o@) },
            Err(e) => fail(v, ConfigFailure::Io(e)),
        },
        ConfigStage::Write => match r {
            Ok(_) => match v.mode {
                ConfigSendMode::Fast => advance(v),
                ConfigSendMode::Unverified => ConfigRunView { stage: ConfigStage::Pause, ..v },
                _ => ConfigRunView { stage: ConfigStage::Echo, ..v },
            },
            Err(e) => fail(v, ConfigFailure::Io(e)),
        },
        ConfigStage::Pause => if checks_errors(v) {
            ConfigRunView { stage: ConfigStage::ReadAfter, ..v }
        } else {
            advance(v)
        },
        ConfigStage::ReadAfter => match r {
            Ok(o) => check_then_advance(with_output(v, o@)),
            Err(e) => fail(v, ConfigFailure::Io(e)),
        },
        ConfigStage::Echo => match r {
            Ok(o) => check_then_advance(with_output(v, o@)),
            Err(_) => check_then_advance(v),
        },
        ConfigStage::FinalRead => match r {
            Ok(o) => to_exit(with_output(v, o@)),
            Err(e) => fail(v, ConfigFailure::Io(e)),
        },
        ConfigStage::Exit => match r {
            Ok(o) => ConfigRunView { stage: ConfigStage::Done, ..with_output(v, o@) },
            Err(e) => fail(v, ConfigFailure::Io(e)),
        },
        ConfigStage::Done => v,
    }
}

/// The action that stage of `v` asks for is `a`.
pub open spec fn action_of(v: ConfigRunView, a: ConfigAction) -> bool {
    match v.stage {
        ConfigStage::Enter => a is EnterConfigMode,
        ConfigStage::Write => a matches ConfigAction::Write(t) && t@ == command_text(v.commands[v.index], true),
        ConfigStage::Pause => a is Pause,
        ConfigStage::ReadAfter => a is ReadTiming,
        ConfigStage::Echo => a matches ConfigAction::ReadEcho(p) && p@ == regex_escaped(trim(v.commands[v.index])),
        ConfigStage::FinalRead => a is ReadTiming,
        ConfigStage::Exit => a is ExitConfigMode,
        ConfigStage::Done => a is Done,
    }
}

/// The state a run starts in: nothing to do without commands; otherwise
/// entering configuration mode first when asked, else writing the first
/// command.
pub open spec fn config_start(
    commands: Seq<Seq<char>>,
    cmd_verify: bool,
    error_pattern: Option<Seq<char>>,
    bypass: Option<Seq<char>>,
    fast_cli: bool,
    enter: bool,
    exit: bool,
) -> ConfigRunView {
    let mode = config_send_mode(commands, cmd_verify, error_pattern, bypass, fast_cli);
    ConfigRunView {
        commands,
        mode,
        error_pattern,
        exit,
        stage: if mode == ConfigSendMode::Nothing {
            ConfigStage::Done
        } else if enter {
            ConfigStage::Enter
        } else {
            ConfigStage::Write
        },
        index: 0,
        output: Seq::empty(),
        failure: None,
    }
}

/// The well-formed states: the mode sends nothing exactly when there are no
/// commands, and the current command and a rejected one are commands of the
/// run.
pub open spec fn config_run_wf(v: ConfigRunView) -> bool {
    &&& (v.mode == ConfigSendMode::Nothing <==> v.commands.len() == 0)
    &&& 0 <= v.index
    &&& (v.stage is Write || v.stage is Pause || v.stage is ReadAfter || v.stage is Echo) ==> v.index < v.commands.len()
    &&& (v.mode == ConfigSendMode::Nothing ==> v.stage is Done && v.output.len() == 0 && v.failure is None)
    &&& (v.failure matches Some(ConfigFailure::Rejected(i)) ==> i < v.commands.len())
    &&& (v.failure is Some ==> v.stage is Done)
}

/// An upper bound on the actions a run has left: three for each command
/// still to handle (write, pause or echo, read), then a final read and
/// leaving configuration mode.
pub open spec fn steps_left(v: ConfigRunView) -> int {
    let n = v.commands.len() as int;
    match v.stage {
        ConfigStage::Enter => 3 * n + 3,
        ConfigStage::Write => 3 * (n - v.index) + 2,
        ConfigStage::Pause => 3 * (n - v.index) + 1,
        ConfigStage::ReadAfter => 3 * (n - v.index),
        ConfigStage::Echo => 3 * (n - v.index),
        ConfigStage::FinalRead => 2,
        ConfigStage::Exit => 1,
        ConfigStage::Done => 0,
    }
}

/// Every result moves a run that is not over strictly closer to its end,
/// keeping it well formed, and a run that is over stays as it is: a run of
/// `n` commands ends after at most `3 * n + 3` actions, and nothing is sent
/// once it ended (in particular after the device rejected a command).
pub proof fn lemma_config_run_progress(v: ConfigRunView, r: Result<String, NetsshError>)
    requires
        config_run_wf(v),
    ensures
        config_run_wf(config_after(v, r)),
        v.stage is Done ==> config_after(v, r) == v,
        !(v.stage is Done) ==> 0 <= steps_left(config_after(v, r)) < steps_left(v),
        steps_left(v) <= 3 * v.commands.len() + 3,
{
}

/// A run ends in a rejection exactly when the output read after a command
/// matches the error pattern, and then it names that command and ends.
pub proof fn lemma_rejection_ends_run(v: ConfigRunView, r: Result<String, NetsshError>)
    requires
        config_run_wf(v),
        v.stage is ReadAfter || v.stage is Echo,
        r is Ok,
        rejected(with_output(v, r->Ok_0@)),
    ensures
        config_after(v, r).stage is Done,
        config_after(v, r).failure == Some(ConfigFailure::Rejected(v.index as usize)),
{
}

/// What happens after the last command, by mode, for a run that has not
/// failed: when the commands were sent without reading in between (all at
/// once, or one by one without a compiling error pattern), the run next does
/// one timing read, and the text it reads is added to the output before
/// configuration mode is left; when each command was already read (verified
/// sending, or an error pattern to check), the run goes straight on to
/// leaving configuration mode (or ends, when it stays in it).
pub proof fn lemma_after_last_command(v: ConfigRunView, r: Result<String, NetsshError>)
    requires
        config_run_wf(v),
        v.failure is None,
        v.commands.len() > 0,
        v.index == v.commands.len() - 1,
    ensures
        (v.mode == ConfigSendMode::Fast && v.stage == ConfigStage::Write && r is Ok) ==> {
            &&& config_after(v, r).stage == ConfigStage::FinalRead
            &&& config_after(v, r).output == v.output
        },
        (v.mode == ConfigSendMode::Unverified && v.stage == ConfigStage::Pause
            && !(v.error_pattern matches Some(p) && compiles(p))) ==> {
            &&& config_after(v, r).stage == ConfigStage::FinalRead
            &&& config_after(v, r).output == v.output
        },
        (v.mode == ConfigSendMode::Verified && v.stage == ConfigStage::Echo
            && !(v.error_pattern matches Some(p) && compiles(p))) ==> {
            &&& config_after(v, r).stage == (if v.exit { ConfigStage::Exit } else { ConfigStage::Done })
            &&& config_after(v, r).failure is None
        },
{
}

/// The final timing read asks for a read, and what it reads is added to the
/// output; the run then leaves configuration mode (or ends when it stays in
/// it), and a failed read ends the run with that read's error.
pub proof fn lemma_final_read(v: ConfigRunView, o: String, e: NetsshError, a: ConfigAction)
    requires
        config_run_wf(v),
        v.stage == ConfigStage::FinalRead,
    ensures
        action_of(v, a) <==> a is ReadTiming,
        config_after(v, Ok(o)).output == v.output + o@,
        config_after(v, Ok(o)).stage == (if v.exit { ConfigStage::Exit } else { ConfigStage::Done }),
        config_after(v, Ok(o)).failure == v.failure,
        config_after(v, Err(e)).failure == Some(ConfigFailure::Io(e)),
        config_after(v, Err(e)).stage == ConfigStage::Done,
{
}

/// A configuration run in progress.
pub struct ConfigSetRun {
    commands: Vec<String>,
    mode: ConfigSendMode,
    error_pattern: Option<String>,
    checks: bool,
    exit: bool,
    stage: ConfigStage,
    index: usize,
    output: String,
    failure: Option<ConfigFailure>,
}

impl View for ConfigSetRun {
    type V = ConfigRunView;

    closed spec fn view(&self) -> ConfigRunView {
        ConfigRunView {
            commands: strings_view(self.commands@),
            mode: self.mode,
            error_pattern: match self.error_pattern { Some(p) => Some(p@), None => None },
            exit: self.exit,
            stage: self.stage,
            index: self.index as int,
            output: self.output@,
            failure: self.failure,
        }
    }
}

impl ConfigSetRun {
    /// The run's invariant.
    pub closed spec fn wf(&self) -> bool {
        &&& config_run_wf(self@)
        &&& self.checks == checks_errors(self@)
    }

    /// A run of `commands`, sent as `choose_config_send_mode` decides;
    /// `enter` and `exit` say whether it enters and leaves configuration mode.
    pub fn new(
        commands: Vec<String>,
        cmd_verify: bool,
        error_pattern: Option<&str>,
        bypass_commands: Option<&str>,
        fast_cli: bool,
        enter: bool,
        exit: bool,
    ) -> (r: Self)
        ensures
            r.wf(),
            r@ == config_start(strings_view(commands@), cmd_verify, opt_view(error_pattern), opt_view(bypass_commands),
                fast_cli, enter, exit),
    {
        let mode = choose_config_send_mode(&commands, cmd_verify, error_pattern, bypass_commands, fast_cli);
        let checks = match error_pattern {
            Some(p) => crate::session::pattern_compiles(p),
            None => false,
        };
        let stage = if mode == ConfigSendMode::Nothing {
            ConfigStage::Done
        } else if enter {
            ConfigStage::Enter
        } else {
            ConfigStage::Write
        };
        let pattern = match error_pattern {
            Some(p) => Some(p.to_owned()),
            None => None,
        };
        ConfigSetRun {
            commands,
            mode,
            error_pattern: pattern,
            checks,
            exit,
            stage,
            index: 0,
            output: String::new(),
            failure: None,
        }
    }

    /// Where the run stands.
    pub fn stage(&self) -> (s: ConfigStage)
        ensures
            s == self@.stage,
    {
        self.stage
    }

    /// The next action on the connection.
    pub fn next_action(&self) -> (a: ConfigAction)
        requires
            self.wf(),
        ensures
            action_of(self@, a),
    {
        match self.stage {
            ConfigStage::Enter => ConfigAction::EnterConfigMode,
            ConfigStage::Write => ConfigAction::Write(normalize_command(self.commands[self.index].as_str(), true)),
            ConfigStage::Pause => ConfigAction::Pause,
            ConfigStage::ReadAfter => ConfigAction::ReadTiming,
            ConfigStage::Echo => {
                let t = trim_str(self.commands[self.index].as_str());
                ConfigAction::ReadEcho(regex_escape(t.as_str()))
            },
            ConfigStage::FinalRead => ConfigAction::ReadTiming,
            ConfigStage::Exit => ConfigAction::ExitConfigMode,
            ConfigStage::Done => ConfigAction::Done,
        }
    }

    /// On to the next command, or past the last one.
    fn advance(&mut self)
        requires
            old(self).wf(),
            old(self)@.stage is Write || old(self)@.stage is Pause || old(self)@.stage is ReadAfter || old(self)@.stage is Echo,
            old(self)@.failure is None,
        ensures
            final(self).wf(),
            final(self)@ == advance(old(self)@),
    {
        if self.index < self.commands.len() - 1 {
            self.index = self.index + 1;
            self.stage = ConfigStage::Write;
        } else {
            self.stage = match self.mode {
                ConfigSendMode::Fast => ConfigStage::FinalRead,
                ConfigSendMode::Unverified => if self.checks {
                    if self.exit { ConfigStage::Exit } else { ConfigStage::Done }
                } else {
                    ConfigStage::FinalRead
                },
                _ => if self.exit { ConfigStage::Exit } else { ConfigStage::Done },
            };
        }
    }

    /// Checks the output so far against the error pattern: the run ends when
    /// the device rejected the current command, and goes on otherwise.
    fn check_then_advance(&mut self)
        requires
            old(self).wf(),
            old(self)@.stage is ReadAfter || old(self)@.stage is Echo,
            old(self)@.failure is None,
        ensures
            final(self).wf(),
            final(self)@ == check_then_advance(old(self)@),
    {
        let pattern: Option<&str> = match &self.error_pattern {
            Some(p) => Some(p.as_str()),
            None => None,
        };
        let verdict = config_command_error(self.output.as_str(), pattern, self.commands[self.index].as_str());
        match verdict {
            Err(_) => {
                self.failure = Some(ConfigFailure::Rejected(self.index));
                self.stage = ConfigStage::Done;
            },
            Ok(()) => self.advance(),
        }
    }

    /// Ends the run with the error of a failed action.
    fn fail_with(&mut self, e: NetsshError)
        requires
            old(self).wf(),
            old(self)@.stage != ConfigStage::Done,
        ensures
            final(self).wf(),
            final(self)@ == fail(old(self)@, ConfigFailure::Io(e)),
    {
        self.failure = Some(ConfigFailure::Io(e));
        self.stage = ConfigStage::Done;
    }

    /// Takes in the result of the current action.
    pub fn feed(&mut self, r: Result<String, NetsshError>)
        requires
            old(self).wf(),
        ensures
            final(self).wf(),
            final(self)@ == config_after(old(self)@, r),
    {
        match self.stage {
            ConfigStage::Enter => match r {
                Ok(o) => {
                    self.output.append(o.as_str());
                    self.index = 0;
                    self.stage = ConfigStage::Write;
                },
                Err(e) => self.fail_with(e),
            },
            ConfigStage::Write => match r {
                Ok(_) => match self.mode {
                    ConfigSendMode::Fast => self.advance(),
                    ConfigSendMode::Unverified => self.stage = ConfigStage::Pause,
                    _ => self.stage = ConfigStage::Echo,
                },
                Err(e) => self.fail_with(e),
            },
            ConfigStage::Pause => {
                if self.checks {
                    self.stage = ConfigStage::ReadAfter;
                } else {
                    self.advance();
                }
            },
            ConfigStage::ReadAfter => match r {
                Ok(o) => {
                    self.output.append(o.as_str());
                    self.check_then_advance();
                },
                Err(e) => self.fail_with(e),
            },
            ConfigStage::Echo => {
                match r {
                    Ok(o) => self.output.append(o.as_str()),
                    Err(_) => {},
                }
                self.check_then_advance();
            },
            ConfigStage::FinalRead => match r {
                Ok(o) => {
                    self.output.append(o.as_str());
                    self.stage = if self.exit { ConfigStage::Exit } else { ConfigStage::Done };
                },
                Err(e) => self.fail_with(e),
            },
            ConfigStage::Exit => match r {
                Ok(o) => {
                    self.output.append(o.as_str());
                    self.stage = ConfigStage::Done;
                },
                Err(e) => self.fail_with(e),
            },
            ConfigStage::Done => {},
        }
    }

    /// The outcome of the run: the error of a failed action; a configuration
    /// error naming the first command the device rejected; otherwise the
    /// output gathered, cleaned as `sanitize_output` does (with no command
    /// to strip), or nothing at all for a run without commands.
    pub fn finish(self, strip_command: bool, strip_prompt: bool, base_prompt: Option<&str>) -> (r: Result<String, NetsshError>)
        requires
            self.wf(),
        ensures
            match self@.failure {
                Some(ConfigFailure::Io(e)) => r == Err::<String, NetsshError>(e),
                Some(ConfigFailure::Rejected(i)) => r matches Err(NetsshError::ConfigError(m))
                    && m@ == "Invalid input detected at command: "@ + self@.commands[i as int],
                None => r matches Ok(o) && o@ == if self@.mode == ConfigSendMode::Nothing {
                    Seq::<char>::empty()
                } else {
                    sanitized(self@.output, strip_command, None, strip_prompt, opt_view(base_prompt))
                },
            },
    {
        match self.failure {
            Some(ConfigFailure::Io(e)) => Err(e),
            Some(ConfigFailure::Rejected(i)) => {
                let mut m = String::from_str("Invalid input detected at command: ");
                m.append(self.commands[i].as_str());
                Err(NetsshError::ConfigError(m))
            },
            None => {
                if self.mode == ConfigSendMode::Nothing {
                    Ok(String::new())
                } else {
                    Ok(sanitize_output(self.output.as_str(), strip_command, None, strip_prompt, base_prompt))
                }
            },
        }
    }
}

} // verus!
