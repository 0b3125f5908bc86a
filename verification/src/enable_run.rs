//! The sequence of entering privileged (enable) mode: checking the mode,
//! sending the enable command, answering the password prompt with the
//! secret, and checking the mode again. The caller performs each action on
//! the connection and feeds back what it gave.

use vstd::prelude::*;
use crate::error::NetsshError;
use crate::session::{command_text, enable_pattern, enable_read_pattern, normalize_command, opt_view};
use crate::text::{contains, push_char, regex_escape, regex_escaped, str_contains, trim, trim_str};

verus! {

/// Where an enable run stands.
#[derive(Debug, Clone, Copy, PartialEq, Eq, Structural)]
pub enum EnableStage {
    /// Checking whether privileged mode is already on.
    CheckBefore,
    /// Writing the enable command.
    WriteCommand,
    /// Reading the command's echo.
    Echo,
    /// Reading up to the password prompt or the base prompt.
    ReadPrompt,
    /// Writing the secret.
    WriteSecret,
    /// Reading up to the prompt after the secret.
    ReadAfterSecret,
    /// Reading up to the enable pattern.
    ReadEnablePattern,
    /// Checking that privileged mode is now on.
    CheckAfter,
    /// Nothing more to do.
    Done,
}

/// What the caller does next on the connection.
#[derive(Debug)]
pub enum EnableAction {
    /// Check whether privileged mode is on and feed back `Checked`.
    CheckEnableMode,
    /// Write this text and feed back `Wrote`.
    Write(String),
    /// Read until this pattern and feed back `Read`.
    ReadUntil(String),
    /// Read until the base prompt and feed back `Read`.
    ReadUntilPrompt,
    /// The run is over: take its outcome with `finish`.
    Done,
}

/// What an action gave.
#[derive(Debug)]
pub enum EnableEvent {
    /// The mode check's answer.
    Checked(bool),
    /// The text was written.
    Wrote,
    /// The text read.
    Read(String),
    /// The action failed with this error.
    Failed(NetsshError),
}

/// Why an enable run failed.
#[derive(Debug)]
pub enum EnableFailure {
    /// An action on the connection failed with this error.
    Io(NetsshError),
    /// The device asked for a password and no secret is configured.
    NoSecret,
    /// Privileged mode is still off at the end.
    NotEnabled,
}

/// The state of an enable run.
pub struct EnableRunView {
    pub command: Seq<char>,
    pub password_pattern: Seq<char>,
    pub enable_pattern: Option<Seq<char>>,
    pub secret: Option<Seq<char>>,
    pub base_prompt: Option<Seq<char>>,
    pub stage: EnableStage,
    pub output: Seq<char>,
    pub failure: Option<EnableFailure>,
}

/// The answer of a mode check: anything but `Checked(true)` counts as off.
pub open spec fn checked_on(e: EnableEvent) -> bool {
    e matches EnableEvent::Checked(true)
}

/// The text an event read: none unless it is `Read`.
pub open spec fn read_text(e: EnableEvent) -> Seq<char> {
    match e {
        EnableEvent::Read(o) => o@,
        _ => Seq::empty(),
    }
}

/// The run ends with `f`.
pub open spec fn enable_fail(v: EnableRunView, f: EnableFailure) -> EnableRunView {
    EnableRunView { stage: EnableStage::Done, failure: Some(f), ..v }
}

/// After the password prompt was dealt with: read up to the enable pattern
/// when one is given and not seen yet, then check the mode.
pub open spec fn after_password(v: EnableRunView) -> EnableRunView {
    match v.enable_pattern {
        Some(p) => if !contains(v.output, p) {
            EnableRunView { stage: EnableStage::ReadEnablePattern, ..v }
        } else {
            EnableRunView { stage: EnableStage::CheckAfter, ..v }
        },
        None => EnableRunView { stage: EnableStage::CheckAfter, ..v },
    }
}

/// The state after the event `e` of the current action.
pub open spec fn enable_after(v: EnableRunView, e: EnableEvent) -> EnableRunView {
    match e {
        EnableEvent::Failed(err) => match v.stage {
            EnableStage::Echo => EnableRunView { stage: EnableStage::ReadPrompt, ..v },
            EnableStage::Done => v,
            _ => enable_fail(v, EnableFailure::Io(err)),
        },
        _ => match v.stage {
            EnableStage::CheckBefore => if checked_on(e) {
                EnableRunView { stage: EnableStage::Done, ..v }
            } else {
                EnableRunView { stage: EnableStage::WriteCommand, ..v }
            },
            EnableStage::WriteCommand => EnableRunView { stage: EnableStage::Echo, ..v },
            EnableStage::Echo => EnableRunView { stage: EnableStage::ReadPrompt, output: v.output + read_text(e), ..v },
            EnableStage::ReadPrompt => {
                let w = EnableRunView { output: v.output + read_text(e), ..v };
                if contains(w.output, w.password_pattern) {
                    if w.secret is Some {
                        EnableRunView { stage: EnableStage::WriteSecret, ..w }
                    } else {
                        enable_fail(w, EnableFailure::NoSecret)
                    }
                } else {
                    after_password(w)
                }
            },
            EnableStage::WriteSecret => EnableRunView { stage: EnableStage::ReadAfterSecret, ..v },
            EnableStage::ReadAfterSecret => after_password(EnableRunView { output: v.output + read_text(e), ..v }),
            EnableStage::ReadEnablePattern => EnableRunView {
                stage: EnableStage::CheckAfter,
                output: v.output + read_text(e),
                ..v
            },
            EnableStage::CheckAfter => if checked_on(e) {
                EnableRunView { stage: EnableStage::Done, ..v }
            } else {
                enable_fail(v, EnableFailure::NotEnabled)
            },
            EnableStage::Done => v,
        },
    }
}

/// The action that the stage of `v` asks for is `a`.
pub open spec fn enable_action_of(v: EnableRunView, a: EnableAction) -> bool {
    match v.stage {
        EnableStage::CheckBefore => a is CheckEnableMode,
        EnableStage::WriteCommand => a matches EnableAction::Write(t) && t@ == command_text(v.command, true),
        EnableStage::Echo => a matches EnableAction::ReadUntil(p) && p@ == regex_escaped(trim(v.command)),
        EnableStage::ReadPrompt => a matches EnableAction::ReadUntil(p)
            && p@ == enable_pattern(v.password_pattern, v.base_prompt),
        EnableStage::WriteSecret => a matches EnableAction::Write(t) && v.secret matches Some(s) && t@ == s.push('\n'),
        EnableStage::ReadAfterSecret => a is ReadUntilPrompt,
        EnableStage::ReadEnablePattern => a matches EnableAction::ReadUntil(p) && v.enable_pattern == Some(p@),
        EnableStage::CheckAfter => a is CheckEnableMode,
        EnableStage::Done => a is Done,
    }
}

/// The well-formed states: the secret is there when it is to be written, and
/// so is the enable pattern when it is to be read.
pub open spec fn enable_run_wf(v: EnableRunView) -> bool {
    &&& (v.stage is WriteSecret ==> v.secret is Some)
    &&& (v.stage is ReadEnablePattern ==> v.enable_pattern is Some)
    &&& (v.failure is Some ==> v.stage is Done)
}

/// An upper bound on the actions an enable run has left.
pub open spec fn enable_steps_left(v: EnableRunView) -> int {
    match v.stage {
        EnableStage::CheckBefore => 8,
        EnableStage::WriteCommand => 7,
        EnableStage::Echo => 6,
        EnableStage::ReadPrompt => 5,
        EnableStage::WriteSecret => 4,
        EnableStage::ReadAfterSecret => 3,
        EnableStage::ReadEnablePattern => 2,
        EnableStage::CheckAfter => 1,
        EnableStage::Done => 0,
    }
}

/// Every event moves an enable run that is not over strictly closer to its
/// end, keeping it well formed, and one that is over stays as it is: a run
/// ends after at most eight actions, and a failure ends it at once.
pub proof fn lemma_enable_run_progress(v: EnableRunView, e: EnableEvent)
    requires
        enable_run_wf(v),
    ensures
        enable_run_wf(enable_after(v, e)),
        v.stage is Done ==> enable_after(v, e) == v,
        !(v.stage is Done) ==> 0 <= enable_steps_left(enable_after(v, e)) < enable_steps_left(v),
        enable_after(v, e).failure is Some ==> enable_after(v, e).stage is Done,
{
}

/// An enable run in progress.
pub struct EnableRun {
    command: String,
    password_pattern: String,
    enable_pattern: Option<String>,
    secret: Option<String>,
    base_prompt: Option<String>,
    stage: EnableStage,
    output: String,
    failure: Option<EnableFailure>,
}

/// The view of an optional string.
pub open spec fn owned_view(o: Option<String>) -> Option<Seq<char>> {
    match o {
        Some(s) => Some(s@),
        None => None,
    }
}

/// An owned copy of an optional string slice.
fn owned(o: Option<&str>) -> (r: Option<String>)
    ensures
        owned_view(r) == opt_view(o),
{
    match o {
        Some(s) => Some(s.to_owned()),
        None => None,
    }
}

impl View for EnableRun {
    type V = EnableRunView;

    closed spec fn view(&self) -> EnableRunView {
        EnableRunView {
            command: self.command@,
            password_pattern: self.password_pattern@,
            enable_pattern: owned_view(self.enable_pattern),
            secret: owned_view(self.secret),
            base_prompt: owned_view(self.base_prompt),
            stage: self.stage,
            output: self.output@,
            failure: self.failure,
        }
    }
}

impl EnableRun {
    /// A run that sends `command` and answers a prompt matching
    /// `password_pattern` with `secret`; with `check_state` it first checks
    /// whether privileged mode is already on. `enable_pattern`, when given,
    /// is read up to before the final check unless it was already seen.
    pub fn new(
        command: &str,
        password_pattern: &str,
        enable_pattern: Option<&str>,
        secret: Option<&str>,
        base_prompt: Option<&str>,
        check_state: bool,
    ) -> (r: Self)
        ensures
            r@ == (EnableRunView {
                command: command@,
                password_pattern: password_pattern@,
                enable_pattern: opt_view(enable_pattern),
                secret: opt_view(secret),
                base_prompt: opt_view(base_prompt),
                stage: if check_state { EnableStage::CheckBefore } else { EnableStage::WriteCommand },
                output: Seq::empty(),
                failure: None,
            }),
            enable_run_wf(r@),
    {
        EnableRun {
            command: command.to_owned(),
            password_pattern: password_pattern.to_owned(),
            enable_pattern: owned(enable_pattern),
            secret: owned(secret),
            base_prompt: owned(base_prompt),
            stage: if check_state { EnableStage::CheckBefore } else { EnableStage::WriteCommand },
            output: String::new(),
            failure: None,
        }
    }

    /// The next action on the connection.
    pub fn next_action(&self) -> (a: EnableAction)
        requires
            enable_run_wf(self@),
        ensures
            enable_action_of(self@, a),
    {
        match self.stage {
            EnableStage::CheckBefore => EnableAction::CheckEnableMode,
            EnableStage::WriteCommand => EnableAction::Write(normalize_command(self.command.as_str(), true)),
            EnableStage::Echo => {
                let t = trim_str(self.command.as_str());
                EnableAction::ReadUntil(regex_escape(t.as_str()))
            },
            EnableStage::ReadPrompt => {
                let base: Option<&str> = match &self.base_prompt {
                    Some(b) => Some(b.as_str()),
                    None => None,
                };
                EnableAction::ReadUntil(enable_read_pattern(self.password_pattern.as_str(), base))
            },
            EnableStage::WriteSecret => {
                let s = self.secret.as_ref().unwrap();
                let mut t = s.as_str().to_owned();
                push_char(&mut t, '\n');
                EnableAction::Write(t)
            },
            EnableStage::ReadAfterSecret => EnableAction::ReadUntilPrompt,
            EnableStage::ReadEnablePattern => {
                let p = self.enable_pattern.as_ref().unwrap();
                EnableAction::ReadUntil(p.as_str().to_owned())
            },
            EnableStage::CheckAfter => EnableAction::CheckEnableMode,
            EnableStage::Done => EnableAction::Done,
        }
    }

    /// After the password prompt was dealt with.
    fn after_password(&mut self)
        requires
            enable_run_wf(old(self)@),
            old(self)@.failure is None,
        ensures
            enable_run_wf(final(self)@),
            final(self)@ == after_password(old(self)@),
    {
        let next = match &self.enable_pattern {
            Some(p) => if !str_contains(self.output.as_str(), p.as_str()) {
                EnableStage::ReadEnablePattern
            } else {
                EnableStage::CheckAfter
            },
            None => EnableStage::CheckAfter,
        };
        self.stage = next;
    }

    /// Takes in what the current action gave.
    pub fn feed(&mut self, e: EnableEvent)
        requires
            enable_run_wf(old(self)@),
        ensures
            enable_run_wf(final(self)@),
            final(self)@ == enable_after(old(self)@, e),
    {
        if self.stage == EnableStage::Done {
            return;
        }
        match e {
            EnableEvent::Failed(err) => {
                if self.stage == EnableStage::Echo {
                    self.stage = EnableStage::ReadPrompt;
                } else {
                    self.failure = Some(EnableFailure::Io(err));
                    self.stage = EnableStage::Done;
                }
            },
            _ => self.step(e),
        }
    }

    /// One step on an event that did not fail.
    fn step(&mut self, e: EnableEvent)
        requires
            enable_run_wf(old(self)@),
            old(self)@.stage != EnableStage::Done,
            old(self)@.failure is None,
            !(e is Failed),
        ensures
            enable_run_wf(final(self)@),
            final(self)@ == enable_after(old(self)@, e),
    {
        let on = match &e {
            EnableEvent::Checked(b) => *b,
            _ => false,
        };
        let text = match e {
            EnableEvent::Read(o) => o,
            _ => String::new(),
        };
        proof { assert(text@ == read_text(e)); }
        match self.stage {
            EnableStage::CheckBefore => {
                self.stage = if on { EnableStage::Done } else { EnableStage::WriteCommand };
            },
            EnableStage::WriteCommand => self.stage = EnableStage::Echo,
            EnableStage::Echo => {
                self.output.append(text.as_str());
                self.stage = EnableStage::ReadPrompt;
            },
            EnableStage::ReadPrompt => {
                self.output.append(text.as_str());
                if str_contains(self.output.as_str(), self.password_pattern.as_str()) {
                    if self.secret.is_some() {
                        self.stage = EnableStage::WriteSecret;
                    } else {
                        self.failure = Some(EnableFailure::NoSecret);
                        self.stage = EnableStage::Done;
                    }
                } else {
                    self.after_password();
                }
            },
            EnableStage::WriteSecret => self.stage = EnableStage::ReadAfterSecret,
            EnableStage::ReadAfterSecret => {
                self.output.append(text.as_str());
                self.after_password();
            },
            EnableStage::ReadEnablePattern => {
                self.output.append(text.as_str());
                self.stage = EnableStage::CheckAfter;
            },
            EnableStage::CheckAfter => {
                if on {
                    self.stage = EnableStage::Done;
                } else {
                    self.failure = Some(EnableFailure::NotEnabled);
                    self.stage = EnableStage::Done;
                }
            },
            EnableStage::Done => {},
        }
    }

    /// The outcome: the output gathered, or the error of the failure.
    pub fn finish(self) -> (r: Result<String, NetsshError>)
        ensures
            match self@.failure {
                None => r matches Ok(o) && o@ == self@.output,
                Some(EnableFailure::Io(e)) => r == Err::<String, NetsshError>(e),
                Some(EnableFailure::NoSecret) => r matches Err(NetsshError::AuthenticationError(m))
                    && m@ == "Enable password required but not provided"@,
                Some(EnableFailure::NotEnabled) => r matches Err(NetsshError::AuthenticationError(m))
                    && m@ == "Failed to enter enable mode"@,
            },
    {
        match self.failure {
            None => Ok(self.output),
            Some(EnableFailure::Io(e)) => Err(e),
            Some(EnableFailure::NoSecret) =>
                Err(NetsshError::AuthenticationError(String::from_str("Enable password required but not provided"))),
            Some(EnableFailure::NotEnabled) =>
                Err(NetsshError::AuthenticationError(String::from_str("Failed to enter enable mode"))),
        }
    }
}

} // verus!
