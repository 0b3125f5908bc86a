//! What a Junos session decides from the text the device sends: its base
//! prompt, whether it is in configuration mode, whether entering or leaving
//! configuration mode worked, and whether a commit failed.

use vstd::prelude::*;
use crate::error::NetsshError;
use crate::text::{
    chars_of, contains, first_char_index, first_index_of, lines_of, slice_chars, split_lines, str_contains,
    string_of, strings_view, trim, trim_end, trim_end_chars, trim_str,
};

verus! {

/// A line shows a prompt terminator: `>`, `#` or `%`.
pub open spec fn has_prompt_char(line: Seq<char>) -> bool {
    line.contains('>') || line.contains('#') || line.contains('%')
}

/// The last line that shows a prompt terminator.
pub open spec fn last_prompt_line(lines: Seq<Seq<char>>) -> Option<Seq<char>>
    decreases lines.len(),
{
    if lines.len() == 0 {
        None
    } else if has_prompt_char(lines.last()) {
        Some(lines.last())
    } else {
        last_prompt_line(lines.drop_last())
    }
}

/// Where the prompt of a line ends: at its first `>`, else its first `#`,
/// else its first `%`, else at its end.
pub open spec fn prompt_end(line: Seq<char>) -> int {
    match first_index_of(line, '>') {
        Some(i) => i,
        None => match first_index_of(line, '#') {
            Some(i) => i,
            None => match first_index_of(line, '%') {
                Some(i) => i,
                None => line.len() as int,
            },
        },
    }
}

/// The base prompt read from a device's answer: the last line that shows a
/// terminator, cut before its terminator and without trailing white space;
/// `juniper` when no line shows one.
pub open spec fn juniper_prompt_of(output: Seq<char>) -> Seq<char> {
    match last_prompt_line(split_lines(output)) {
        Some(line) => trim_end(line.take(prompt_end(line))),
        None => "juniper"@,
    }
}

proof fn lemma_first_index_bounds(s: Seq<char>, c: char)
    ensures
        first_index_of(s, c) matches Some(i) ==> 0 <= i < s.len() && s[i] == c,
        first_index_of(s, c) is None ==> !s.contains(c),
    decreases s.len(),
{
    if s.len() > 0 && s[0] != c {
        lemma_first_index_bounds(s.drop_first(), c);
        if first_index_of(s, c) is None {
            assert forall|k: int| 0 <= k < s.len() implies s[k] != c by {
                if k > 0 { assert(s[k] == s.drop_first()[k - 1]); }
            }
        }
    }
}

/// Whether `c` occurs in `line`.
fn has_char(line: &[char], c: char) -> (b: bool)
    ensures
        b == line@.contains(c),
{
    proof { lemma_first_index_bounds(line@, c); }
    first_char_index(line, c).is_some()
}

/// The end of the prompt in a line, as `find` gives it.
fn prompt_end_of(line: &[char]) -> (r: usize)
    ensures
        r == prompt_end(line@),
        r <= line@.len(),
{
    proof {
        lemma_first_index_bounds(line@, '>');
        lemma_first_index_bounds(line@, '#');
        lemma_first_index_bounds(line@, '%');
    }
    let a = first_char_index(line, '>');
    if let Some(i) = a {
        assert(first_index_of(line@, '>') == Some(i as int));
        return i;
    }
    let b = first_char_index(line, '#');
    if let Some(i) = b {
        assert(first_index_of(line@, '#') == Some(i as int));
        return i;
    }
    let c = first_char_index(line, '%');
    if let Some(i) = c {
        assert(first_index_of(line@, '%') == Some(i as int));
        return i;
    }
    line.len()
}

/// Reads the base prompt from a device's answer to a line feed.
pub fn juniper_base_prompt(output: &str) -> (r: String)
    ensures
        r@ == juniper_prompt_of(output@),
{
    let lines = lines_of(output);
    let ghost ls = strings_view(lines@);
    let mut k: usize = lines.len();
    proof { assert(ls.take(k as int) =~= ls); }
    while k > 0
        invariant
            k <= lines@.len(),
            ls == strings_view(lines@),
            ls == split_lines(output@),
            last_prompt_line(ls) == last_prompt_line(ls.take(k as int)),
        decreases k,
    {
        let line = chars_of(lines[k - 1].as_str());
        proof {
            assert(ls.take(k as int).last() == ls[k - 1]);
            assert(ls.take(k as int).drop_last() =~= ls.take(k - 1));
        }
        if has_char(line.as_slice(), '>') || has_char(line.as_slice(), '#') || has_char(line.as_slice(), '%') {
            let end = prompt_end_of(line.as_slice());
            let head = slice_chars(line.as_slice(), 0, end);
            let cut = trim_end_chars(head.as_slice());
            proof { assert(line@.subrange(0, end as int) =~= line@.take(end as int)); }
            return string_of(cut.as_slice());
        }
        k = k - 1;
    }
    proof { reveal_strlit("juniper"); }
    String::from_str("juniper")
}

/// A line shows the configuration prompt: trimmed, it ends with `#`.
pub open spec fn config_prompt_line(line: Seq<char>) -> bool {
    trim(line).len() > 0 && trim(line).last() == '#'
}

/// Some line of the answer shows the configuration prompt.
pub open spec fn juniper_config_mode_of(output: Seq<char>) -> bool {
    exists|i: int| 0 <= i < split_lines(output).len() && config_prompt_line(#[trigger] split_lines(output)[i])
}

/// Whether a device's answer to a line feed shows configuration mode.
pub fn juniper_in_config_mode(output: &str) -> (b: bool)
    ensures
        b == juniper_config_mode_of(output@),
{
    let lines = lines_of(output);
    let ghost ls = strings_view(lines@);
    let mut i: usize = 0;
    while i < lines.len()
        invariant
            i <= lines@.len(),
            ls == strings_view(lines@),
            ls == split_lines(output@),
            forall|j: int| 0 <= j < i ==> !config_prompt_line(#[trigger] ls[j]),
        decreases lines@.len() - i,
    {
        let t = trim_str(lines[i].as_str());
        assert(ls[i as int] == lines@[i as int]@);
        let v = chars_of(t.as_str());
        if v.len() > 0 && v[v.len() - 1] == '#' {
            assert(config_prompt_line(ls[i as int]));
            return true;
        }
        i = i + 1;
    }
    false
}

/// Entering configuration mode worked when the answer shows a `#`.
pub fn juniper_config_entered(output: &str) -> (r: Result<(), NetsshError>)
    ensures
        contains(output@, "#"@) ==> r is Ok,
        !contains(output@, "#"@) ==> (r matches Err(NetsshError::CommandError(m)) && m@ == "Failed to enter config mode"@),
{
    if str_contains(output, "#") {
        Ok(())
    } else {
        Err(NetsshError::CommandError(String::from_str("Failed to enter config mode")))
    }
}

/// Leaving configuration mode worked when the trimmed answer ends with `>`.
pub fn juniper_config_exited(output: &str) -> (r: Result<(), NetsshError>)
    ensures
        trim(output@).len() > 0 && trim(output@).last() == '>' ==> r is Ok,
        !(trim(output@).len() > 0 && trim(output@).last() == '>') ==> (r matches Err(NetsshError::CommandError(m))
            && m@ == "Failed to exit config mode"@),
{
    let t = trim_str(output);
    let v = chars_of(t.as_str());
    if v.len() > 0 && v[v.len() - 1] == '>' {
        Ok(())
    } else {
        Err(NetsshError::CommandError(String::from_str("Failed to exit config mode")))
    }
}

/// A commit failed when its output mentions `error` or `failed` without
/// `commit complete` or `configuration not changed`.
pub open spec fn commit_failed(output: Seq<char>) -> bool {
    (contains(output, "error"@) || contains(output, "failed"@))
        && !contains(output, "commit complete"@) && !contains(output, "configuration not changed"@)
}

/// The outcome of a commit: its output, or the error that carries it.
pub fn commit_result(output: String) -> (r: Result<String, NetsshError>)
    ensures
        commit_failed(output@) ==> (r matches Err(NetsshError::CommandErrorWithOutput { error_msg, output: o })
            && error_msg@ == "Failed to commit configuration"@ && o@ == output@),
        !commit_failed(output@) ==> (r matches Ok(s) && s@ == output@),
{
    let failed = (str_contains(output.as_str(), "error") || str_contains(output.as_str(), "failed"))
        && !str_contains(output.as_str(), "commit complete")
        && !str_contains(output.as_str(), "configuration not changed");
    if failed {
        Err(NetsshError::command_error_with_output(String::from_str("Failed to commit configuration"), output))
    } else {
        Ok(output)
    }
}

/// The next thing a Junos configuration run does.
#[derive(Debug, Clone, Copy, PartialEq, Eq, Structural)]
pub enum JunosStep {
    /// Send the configuration commands in configuration mode.
    SendConfig,
    /// Commit the configuration.
    Commit,
    /// Roll the candidate configuration back (`rollback 0`).
    Rollback,
    /// Leave configuration mode, whatever happened.
    ExitConfig,
    /// Nothing more: the outcome is known.
    Done,
}

/// The state of a Junos configuration run: its next step, the output
/// gathered, whether something failed, and whether it was the commands.
pub struct JunosRunView {
    pub step: JunosStep,
    pub output: Seq<char>,
    pub failed: bool,
    pub commands_failed: bool,
}

/// The state after the result of the current step: the commands' output is
/// kept and followed by a commit; when the commands fail, the output their
/// error carries is kept and the configuration is rolled back; a commit's
/// output is added, and a failed commit is rolled back; a rollback's output is
/// added (after a line feed when the commands had failed), a failed rollback
/// adds nothing; configuration mode is left in every case.
pub open spec fn junos_after(v: JunosRunView, r: Result<String, NetsshError>) -> JunosRunView {
    match v.step {
        JunosStep::SendConfig => match r {
            Ok(o) => JunosRunView { step: JunosStep::Commit, output: v.output + o@, ..v },
            Err(e) => JunosRunView {
                step: JunosStep::Rollback,
                output: match e {
                    NetsshError::CommandErrorWithOutput { error_msg: _, output } => output@,
                    _ => v.output,
                },
                failed: true,
                commands_failed: true,
            },
        },
        JunosStep::Commit => match r {
            Ok(o) => JunosRunView { step: JunosStep::ExitConfig, output: v.output + o@, ..v },
            Err(_) => JunosRunView { step: JunosStep::Rollback, failed: true, ..v },
        },
        JunosStep::Rollback => match r {
            Ok(o) => JunosRunView {
                step: JunosStep::ExitConfig,
                output: if v.commands_failed { v.output + "\n"@ + o@ } else { v.output + o@ },
                ..v
            },
            Err(_) => JunosRunView { step: JunosStep::ExitConfig, ..v },
        },
        JunosStep::ExitConfig => JunosRunView { step: JunosStep::Done, ..v },
        JunosStep::Done => v,
    }
}

/// Sends configuration commands to a Junos device, commits them, rolls back
/// on failure and always leaves configuration mode.
pub struct JunosConfigRun {
    step: JunosStep,
    output: String,
    failed: bool,
    commands_failed: bool,
}

impl View for JunosConfigRun {
    type V = JunosRunView;

    closed spec fn view(&self) -> JunosRunView {
        JunosRunView { step: self.step, output: self.output@, failed: self.failed, commands_failed: self.commands_failed }
    }
}

impl JunosConfigRun {
    /// A run that starts by sending the commands.
    pub fn new() -> (r: Self)
        ensures
            r@ == (JunosRunView { step: JunosStep::SendConfig, output: Seq::empty(), failed: false, commands_failed: false }),
    {
        JunosConfigRun { step: JunosStep::SendConfig, output: String::new(), failed: false, commands_failed: false }
    }

    /// The next step.
    pub fn next_step(&self) -> (s: JunosStep)
        ensures
            s == self@.step,
    {
        self.step
    }

    /// Takes in the result of the current step (leaving configuration mode
    /// gives none that matters).
    pub fn feed(&mut self, r: Result<String, NetsshError>)
        ensures
            final(self)@ == junos_after(old(self)@, r),
    {
        proof { reveal_strlit("\n"); }
        match self.step {
            JunosStep::SendConfig => match r {
                Ok(o) => {
                    self.output.append(o.as_str());
                    self.step = JunosStep::Commit;
                },
                Err(e) => {
                    match e {
                        NetsshError::CommandErrorWithOutput { error_msg: _, output } => {
                            self.output = output;
                        },
                        _ => {},
                    }
                    self.failed = true;
                    self.commands_failed = true;
                    self.step = JunosStep::Rollback;
                },
            },
            JunosStep::Commit => match r {
                Ok(o) => {
                    self.output.append(o.as_str());
                    self.step = JunosStep::ExitConfig;
                },
                Err(_) => {
                    self.failed = true;
                    self.step = JunosStep::Rollback;
                },
            },
            JunosStep::Rollback => {
                match r {
                    Ok(o) => {
                        if self.commands_failed {
                            self.output.append("\n");
                        }
                        self.output.append(o.as_str());
                    },
                    Err(_) => {},
                }
                self.step = JunosStep::ExitConfig;
            },
            JunosStep::ExitConfig => {
                self.step = JunosStep::Done;
            },
            JunosStep::Done => {},
        }
    }

    /// The outcome: the gathered output, or, when something failed, the
    /// error that carries it.
    pub fn finish(self) -> (r: Result<String, NetsshError>)
        ensures
            !self@.failed ==> (r matches Ok(o) && o@ == self@.output),
            self@.failed ==> (r matches Err(NetsshError::CommandErrorWithOutput { error_msg, output })
                && error_msg@ == "Configuration command(s) failed"@ && output@ == self@.output),
    {
        if self.failed {
            Err(NetsshError::command_error_with_output(String::from_str("Configuration command(s) failed"), self.output))
        } else {
            Ok(self.output)
        }
    }
}

/// A run whose commands and commit succeed gives the commands' output
/// followed by the commit's, and leaves configuration mode.
pub proof fn lemma_junos_success(config_out: String, commit_out: String, exit: Result<String, NetsshError>)
    ensures
        ({
            let start = JunosRunView { step: JunosStep::SendConfig, output: Seq::empty(), failed: false, commands_failed: false };
            let end = junos_after(junos_after(junos_after(start, Ok(config_out)), Ok(commit_out)), exit);
            &&& end.step == JunosStep::Done
            &&& !end.failed
            &&& end.output == config_out@ + commit_out@
        }),
{
    assert(Seq::<char>::empty() + config_out@ =~= config_out@);
}

/// A run whose commands fail always fails, carrying the output of the failed
/// commands and of the rollback, and still leaves configuration mode.
pub proof fn lemma_junos_command_failure(err: NetsshError, rollback: Result<String, NetsshError>, exit: Result<String, NetsshError>)
    ensures
        ({
            let start = JunosRunView { step: JunosStep::SendConfig, output: Seq::empty(), failed: false, commands_failed: false };
            let after = junos_after(start, Err(err));
            let end = junos_after(junos_after(after, rollback), exit);
            &&& after.step == JunosStep::Rollback
            &&& end.step == JunosStep::Done
            &&& end.failed
        }),
{
}

} // verus!
