//! What an interactive session decides about the text it exchanges with a
//! device: which pattern ends a read, how the base prompt is taken from the
//! prompt, and how command output is cleaned before it is returned.

use vstd::prelude::*;
use crate::config::NetsshConfig;
use crate::device::DeviceType;
use std::time::Duration;
use crate::error::NetsshError;
use crate::text::{
    chars_of, contains, first_index_of, last_index_of, push_char, regex_escape, regex_escaped, regex_find,
    regex_is_match, regex_matches, regex_replace_all, regex_replace_first, regex_replaced, regex_replaced_first,
    regex_search, rfind_char, slice_chars, starts_with, starts_with_chars, str_contains, string_of, trim,
    trim_chars, trim_str, utf8_size, utf8_width, debug_quote, debug_str, decimal, usize_to_string,
};
use crate::vendor_error_patterns::{check_command_output, error_patterns_of, first_error};

verus! {

/// `output` without the echo of `command` in front: when the output starts
/// with the trimmed command, what follows it.
pub open spec fn stripped_command(command: Seq<char>, output: Seq<char>) -> Seq<char> {
    let cmd = trim(command);
    if starts_with(output, cmd) { output.skip(cmd.len() as int) } else { output }
}

/// Removes the echo of `command_string` from the start of `output`.
pub fn strip_command(command_string: &str, output: &str) -> (r: String)
    ensures
        r@ == stripped_command(command_string@, output@),
{
    let cmd = trim_chars(chars_of(command_string).as_slice());
    let out = chars_of(output);
    if starts_with_chars(out.as_slice(), cmd.as_slice()) {
        let rest = slice_chars(out.as_slice(), cmd.len(), out.len());
        proof { assert(out@.subrange(cmd@.len() as int, out@.len() as int) =~= out@.skip(cmd@.len() as int)); }
        string_of(rest.as_slice())
    } else {
        output.to_owned()
    }
}

/// `s` without its last line when that line holds the base prompt: the text
/// before the last line feed, or nothing when there is none.
pub open spec fn stripped_prompt(base_prompt: Option<Seq<char>>, s: Seq<char>) -> Seq<char> {
    match base_prompt {
        Some(bp) => {
            let last_line = match last_index_of(s, '\n') {
                Some(k) => s.skip(k + 1),
                None => s,
            };
            if contains(last_line, bp) {
                match last_index_of(s, '\n') {
                    Some(k) => s.take(k),
                    None => Seq::empty(),
                }
            } else {
                s
            }
        },
        None => s,
    }
}

/// The view of an optional string slice.
pub open spec fn opt_view(o: Option<&str>) -> Option<Seq<char>> {
    match o {
        Some(s) => Some(s@),
        None => None,
    }
}

/// Removes a trailing line that holds the base prompt.
pub fn strip_prompt(base_prompt: Option<&str>, a_string: &str) -> (r: String)
    ensures
        r@ == stripped_prompt(opt_view(base_prompt), a_string@),
{
    match base_prompt {
        Some(bp) => {
            let v = chars_of(a_string);
            let n = v.len();
            let nl = rfind_char(v.as_slice(), '\n');
            let last_line = match nl {
                Some(k) => slice_chars(v.as_slice(), k + 1, v.len()),
                None => slice_chars(v.as_slice(), 0, v.len()),
            };
            proof {
                match nl {
                    Some(k) => {
                        assert(v@.subrange(k + 1, v@.len() as int) =~= v@.skip(k + 1));
                    },
                    None => { assert(v@.subrange(0, v@.len() as int) =~= v@); },
                }
            }
            let bpv = chars_of(bp);
            if crate::text::contains_chars(last_line.as_slice(), bpv.as_slice()) {
                match nl {
                    Some(k) => {
                        let head = slice_chars(v.as_slice(), 0, k);
                        proof { assert(v@.subrange(0, k as int) =~= v@.take(k as int)); }
                        string_of(head.as_slice())
                    },
                    None => String::new(),
                }
            } else {
                a_string.to_owned()
            }
        },
        None => a_string.to_owned(),
    }
}

/// Output with the command echo and the trailing prompt removed as asked.
pub open spec fn sanitized(
    output: Seq<char>,
    strip_command: bool,
    command: Option<Seq<char>>,
    strip_prompt: bool,
    base_prompt: Option<Seq<char>>,
) -> Seq<char> {
    let a = if strip_command && command is Some { stripped_command(command->0, output) } else { output };
    if strip_prompt { stripped_prompt(base_prompt, a) } else { a }
}

/// Removes the command echo (when asked and a command is given) and then the
/// trailing prompt line (when asked).
pub fn sanitize_output(
    output: &str,
    strip_command_flag: bool,
    command_string: Option<&str>,
    strip_prompt_flag: bool,
    base_prompt: Option<&str>,
) -> (r: String)
    ensures
        r@ == sanitized(output@, strip_command_flag, opt_view(command_string), strip_prompt_flag, opt_view(base_prompt)),
{
    let a = match command_string {
        Some(c) => if strip_command_flag { strip_command(c, output) } else { output.to_owned() },
        None => output.to_owned(),
    };
    if strip_prompt_flag {
        strip_prompt(base_prompt, a.as_str())
    } else {
        a
    }
}

/// `s` without its backspace characters.
pub open spec fn without_backspaces(s: Seq<char>) -> Seq<char>
    decreases s.len(),
{
    if s.len() == 0 {
        Seq::empty()
    } else if s.last() == '\u{8}' {
        without_backspaces(s.drop_last())
    } else {
        without_backspaces(s.drop_last()).push(s.last())
    }
}

/// Removes every backspace character.
pub fn strip_backspaces(output: &str) -> (r: String)
    ensures
        r@ == without_backspaces(output@),
{
    let v = chars_of(output);
    let mut r = String::new();
    let mut i: usize = 0;
    while i < v.len()
        invariant
            v@ == output@,
            0 <= i <= v@.len(),
            r@ == without_backspaces(v@.take(i as int)),
        decreases v@.len() - i,
    {
        proof { assert(v@.take(i as int + 1).drop_last() =~= v@.take(i as int)); }
        if v[i] != '\u{8}' {
            push_char(&mut r, v[i]);
        }
        i = i + 1;
    }
    proof { assert(v@.take(v@.len() as int) =~= v@); }
    r
}

/// The pattern of a carriage return and line feed.
pub open spec fn crlf_pattern() -> Seq<char> {
    r"\r\n"@
}

/// The pattern of an ANSI escape sequence.
pub open spec fn ansi_escape_pattern() -> Seq<char> {
    r"\x1b\[[0-9;]*[a-zA-Z]"@
}

/// The text after a regex replacement, or the text itself if the pattern
/// does not compile.
pub open spec fn replaced_or_same(pattern: Seq<char>, text: Seq<char>, replacement: Seq<char>) -> Seq<char> {
    match regex_replaced(pattern, text, replacement) {
        Some(t) => t,
        None => text,
    }
}

/// Turns each carriage return and line feed into a line feed.
pub fn normalize_linefeeds(data: &str) -> (r: String)
    ensures
        r@ == replaced_or_same(crlf_pattern(), data@, "\n"@),
{
    match regex_replace_all(r"\r\n", data, "\n") {
        Some(t) => t,
        None => data.to_owned(),
    }
}

/// Removes ANSI escape sequences.
pub fn strip_ansi_escape_codes(data: &str) -> (r: String)
    ensures
        r@ == replaced_or_same(ansi_escape_pattern(), data@, ""@),
{
    match regex_replace_all(r"\x1b\[[0-9;]*[a-zA-Z]", data, "") {
        Some(t) => t,
        None => data.to_owned(),
    }
}

/// The pattern that finds the prompt while setting the base prompt: the
/// given pattern, else a class of both terminators, else the one terminator
/// escaped, else nothing.
pub open spec fn prompt_pattern(pri: Seq<char>, alt: Seq<char>, pattern: Option<Seq<char>>) -> Seq<char> {
    match pattern {
        Some(p) => p,
        None => if pri.len() > 0 && alt.len() > 0 {
            "["@ + pri + alt + "]"@
        } else if pri.len() > 0 {
            regex_escaped(pri)
        } else if alt.len() > 0 {
            regex_escaped(alt)
        } else {
            Seq::empty()
        },
    }
}

/// Builds the pattern that finds the prompt while setting the base prompt.
pub fn base_prompt_search_pattern(pri: &str, alt: &str, pattern: Option<&str>) -> (r: String)
    ensures
        r@ == prompt_pattern(pri@, alt@, opt_view(pattern)),
{
    match pattern {
        Some(p) => p.to_owned(),
        None => {
            if !pri.is_empty() && !alt.is_empty() {
                let mut s = String::from_str("[");
                s.append(pri);
                s.append(alt);
                s.append("]");
                proof { reveal_strlit("["); reveal_strlit("]"); }
                s
            } else if !pri.is_empty() {
                regex_escape(pri)
            } else if !alt.is_empty() {
                regex_escape(alt)
            } else {
                String::new()
            }
        },
    }
}

/// The pattern of the base prompt when reading up to it: the trimmed base
/// prompt escaped, or, to read the whole prompt line, the trimmed base prompt
/// as it is followed by `.*`.
pub open spec fn prompt_read_pattern(base_prompt: Seq<char>, entire_line: bool) -> Seq<char> {
    if entire_line { trim(base_prompt) + ".*"@ } else { regex_escaped(trim(base_prompt)) }
}

/// Builds the pattern that reads up to the base prompt; there is none before
/// the base prompt is set.
pub fn prompt_read_pattern_of(base_prompt: Option<&str>, entire_line: bool) -> (r: Result<String, NetsshError>)
    ensures
        base_prompt is None ==> (r matches Err(NetsshError::ConnectionError(m)) && m@ == "Base prompt not set"@),
        base_prompt matches Some(b) ==> (r matches Ok(p) && p@ == prompt_read_pattern(b@, entire_line)),
{
    match base_prompt {
        None => Err(NetsshError::ConnectionError(String::from_str("Base prompt not set"))),
        Some(b) => {
            let t = trim_str(b);
            if entire_line {
                let mut p = t;
                p.append(".*");
                Ok(p)
            } else {
                Ok(regex_escape(t.as_str()))
            }
        },
    }
}

/// The pattern that reads up to the base prompt or another pattern: the
/// escaped base prompt (followed by `.*` to read the whole line), in a
/// non-capturing alternation with the other pattern when there is one.
pub open spec fn prompt_or_pattern(base_prompt: Seq<char>, pattern: Option<Seq<char>>, entire_line: bool) -> Seq<char> {
    let p = if entire_line { regex_escaped(base_prompt) + ".*"@ } else { regex_escaped(base_prompt) };
    match pattern {
        Some(pat) => "(?:"@ + p + "|"@ + pat + ")"@,
        None => p,
    }
}

/// Builds the pattern that reads up to the base prompt or another pattern;
/// there is none before the base prompt is set.
pub fn prompt_or_pattern_of(base_prompt: Option<&str>, pattern: Option<&str>, entire_line: bool) -> (r: Result<String, NetsshError>)
    ensures
        base_prompt is None ==> (r matches Err(NetsshError::ConnectionError(m)) && m@ == "Base prompt not set"@),
        base_prompt matches Some(b) ==> (r matches Ok(p) && p@ == prompt_or_pattern(b@, opt_view(pattern), entire_line)),
{
    match base_prompt {
        None => Err(NetsshError::ConnectionError(String::from_str("Base prompt not set"))),
        Some(b) => {
            let mut p = regex_escape(b);
            if entire_line {
                p.append(".*");
            }
            match pattern {
                Some(pat) => {
                    let mut c = String::from_str("(?:");
                    c.append(p.as_str());
                    c.append("|");
                    c.append(pat);
                    c.append(")");
                    Ok(c)
                },
                None => Ok(p),
            }
        },
    }
}

/// The base prompt taken from a prompt: the trimmed prompt must end with a
/// terminator; a lone terminator is kept, otherwise the terminator is cut off.
pub open spec fn base_prompt_of(prompt: Seq<char>, pri: Seq<char>, alt: Seq<char>) -> Result<Seq<char>, Seq<char>> {
    let p = trim(prompt);
    if p.len() > 0 && (seq![p.last()] == pri || seq![p.last()] == alt) {
        if p.len() == 1 { Ok(p) } else { Ok(p.drop_last()) }
    } else {
        Err("Router prompt not found: "@ + p)
    }
}

/// A prompt whose terminator cannot be cut off by bytes: a terminator of more
/// than one byte after other characters.
pub open spec fn prompt_cut_panics(prompt: Seq<char>, pri: Seq<char>, alt: Seq<char>) -> bool {
    let p = trim(prompt);
    p.len() > 1 && (seq![p.last()] == pri || seq![p.last()] == alt) && (p.last() as u32) >= 0x80
}

/// Takes the base prompt from the prompt a device printed.
pub fn base_prompt_from(prompt: &str, pri: &str, alt: &str) -> (r: Result<String, NetsshError>)
    requires
        !prompt_cut_panics(prompt@, pri@, alt@),
    ensures
        match base_prompt_of(prompt@, pri@, alt@) {
            Ok(b) => r matches Ok(s) && s@ == b,
            Err(m) => r matches Err(NetsshError::PromptError(e)) && e@ == m,
        },
        trim(prompt@).len() > 1 && (pri@ == seq![trim(prompt@).last()] || alt@ == seq![trim(prompt@).last()])
            ==> (r matches Ok(s) && s@ == trim(prompt@).subrange(0, trim(prompt@).len() - 1)),
{
    proof {
        let tp = trim(prompt@);
        if tp.len() > 1 {
            assert(tp.drop_last() =~= tp.subrange(0, tp.len() - 1));
        }
    }
    let p = trim_chars(chars_of(prompt).as_slice());
    let pri_v = chars_of(pri);
    let alt_v = chars_of(alt);
    let n = p.len();
    let ends = if n > 0 {
        let c = p[n - 1];
        (pri_v.len() == 1 && pri_v[0] == c) || (alt_v.len() == 1 && alt_v[0] == c)
    } else {
        false
    };
    proof {
        if n > 0 {
            let c = p@[n - 1];
            assert((seq![c] == pri@) == (pri_v@.len() == 1 && pri_v@[0] == c)) by {
                if pri_v@.len() == 1 && pri_v@[0] == c { assert(seq![c] =~= pri@); }
            }
            assert((seq![c] == alt@) == (alt_v@.len() == 1 && alt_v@[0] == c)) by {
                if alt_v@.len() == 1 && alt_v@[0] == c { assert(seq![c] =~= alt@); }
            }
        }
    }
    if !ends {
        let mut m = String::from_str("Router prompt not found: ");
        let ps = string_of(p.as_slice());
        m.append(ps.as_str());
        return Err(NetsshError::PromptError(m));
    }
    if n == 1 {
        return Ok(string_of(p.as_slice()));
    }
    let head = slice_chars(p.as_slice(), 0, n - 1);
    proof { assert(p@.subrange(0, n - 1) =~= p@.drop_last()); }
    Ok(string_of(head.as_slice()))
}

/// The pattern that ends the reading of a command's output: the expected
/// string when given; else the escaped prompt found, when looking for it
/// succeeded; else the escaped base prompt; else an error.
pub open spec fn command_pattern(
    expect: Option<Seq<char>>,
    auto_find_prompt: bool,
    found_prompt: Option<Seq<char>>,
    base_prompt: Option<Seq<char>>,
) -> Result<Seq<char>, Seq<char>> {
    match expect {
        Some(p) => Ok(p),
        None => if auto_find_prompt && found_prompt is Some {
            Ok(regex_escaped(found_prompt->0))
        } else {
            match base_prompt {
                Some(b) => Ok(regex_escaped(b)),
                None => Err(if auto_find_prompt { "No prompt found for pattern"@ } else { "No base prompt set"@ }),
            }
        },
    }
}

/// Chooses the pattern that ends the reading of a command's output.
/// `found_prompt` is what looking for the prompt gave, `None` when it failed
/// or was not tried.
pub fn send_command_pattern(
    expect_string: Option<&str>,
    auto_find_prompt: bool,
    found_prompt: Option<&str>,
    base_prompt: Option<&str>,
) -> (r: Result<String, NetsshError>)
    ensures
        match command_pattern(opt_view(expect_string), auto_find_prompt, opt_view(found_prompt), opt_view(base_prompt)) {
            Ok(p) => r matches Ok(s) && s@ == p,
            Err(m) => r matches Err(NetsshError::PromptError(e)) && e@ == m,
        },
{
    match expect_string {
        Some(p) => Ok(p.to_owned()),
        None => {
            if auto_find_prompt {
                match found_prompt {
                    Some(fp) => { return Ok(regex_escape(fp)); },
                    None => {},
                }
            }
            match base_prompt {
                Some(b) => Ok(regex_escape(b)),
                None => if auto_find_prompt {
                    Err(NetsshError::PromptError(String::from_str("No prompt found for pattern")))
                } else {
                    Err(NetsshError::PromptError(String::from_str("No base prompt set")))
                },
            }
        },
    }
}

/// The text written for a command: trimmed with a line feed when normalising.
pub open spec fn command_text(command: Seq<char>, normalize: bool) -> Seq<char> {
    if normalize { trim(command).push('\n') } else { command }
}

/// Builds the text written to send a command.
pub fn normalize_command(command_string: &str, normalize: bool) -> (r: String)
    ensures
        r@ == command_text(command_string@, normalize),
{
    if normalize {
        let mut s = trim_str(command_string);
        push_char(&mut s, '\n');
        s
    } else {
        command_string.to_owned()
    }
}

/// The result of a command once its output is read: the output cleaned as
/// asked, or the error that the device's error patterns find in it.
pub fn finish_command_output(
    output: &str,
    strip_command_flag: bool,
    command_string: &str,
    strip_prompt_flag: bool,
    base_prompt: Option<&str>,
    device_type: &DeviceType,
) -> (r: Result<String, NetsshError>)
    ensures
        ({
            let clean = sanitized(output@, strip_command_flag, Some(command_string@), strip_prompt_flag, opt_view(base_prompt));
            match first_error(error_patterns_of(*device_type), clean) {
                Some(m) => r matches Err(NetsshError::CommandErrorWithOutput { error_msg, output: o })
                    && error_msg@ == m && o@ == clean,
                None => r matches Ok(s) && s@ == clean,
            }
        }),
{
    let clean = sanitize_output(output, strip_command_flag, Some(command_string), strip_prompt_flag, base_prompt);
    match check_command_output(clean.as_str(), device_type) {
        Ok(()) => Ok(clean),
        Err(e) => Err(e),
    }
}

/// Whether the prompt read shows configuration mode: a regex search when
/// forced (a pattern that does not compile finds nothing), else a plain
/// substring test.
pub fn in_config_mode(output: &str, check_string: &str, force_regex: bool) -> (b: bool)
    ensures
        b == (if force_regex { regex_matches(check_string@, output@) } else { contains(output@, check_string@) }),
{
    if force_regex {
        regex_is_match(check_string, output)
    } else {
        str_contains(output, check_string)
    }
}

/// Whether the prompt read shows privileged mode.
pub fn in_enable_mode(output: &str, check_string: &str) -> (b: bool)
    ensures
        b == contains(output@, check_string@),
{
    str_contains(output, check_string)
}

/// The pattern read after sending the enable command: the password prompt or
/// the escaped base prompt, when there is a non-empty one.
pub open spec fn enable_pattern(password_pattern: Seq<char>, base_prompt: Option<Seq<char>>) -> Seq<char> {
    match base_prompt {
        Some(b) => if regex_escaped(b).len() > 0 {
            "(?:"@ + password_pattern + "|"@ + regex_escaped(b) + ")"@
        } else {
            password_pattern
        },
        None => password_pattern,
    }
}

/// Builds the pattern read after sending the enable command.
pub fn enable_read_pattern(password_pattern: &str, base_prompt: Option<&str>) -> (r: String)
    ensures
        r@ == enable_pattern(password_pattern@, opt_view(base_prompt)),
{
    match base_prompt {
        Some(b) => {
            let e = regex_escape(b);
            if e.as_str().is_empty() {
                password_pattern.to_owned()
            } else {
                let mut s = String::from_str("(?:");
                s.append(password_pattern);
                s.append("|");
                s.append(e.as_str());
                s.append(")");
                s
            }
        },
        None => password_pattern.to_owned(),
    }
}

/// What to answer after the enable command: when the output asks for the
/// password, the secret and a line feed, or an error when there is no secret;
/// nothing otherwise.
pub fn enable_secret_reply(output: &str, password_pattern: &str, secret: Option<&str>) -> (r: Result<Option<String>, NetsshError>)
    ensures
        contains(output@, password_pattern@) ==> match secret {
            Some(s) => r matches Ok(Some(t)) && t@ == s@.push('\n'),
            None => r matches Err(NetsshError::AuthenticationError(m))
                && m@ == "Enable password required but not provided"@,
        },
        !contains(output@, password_pattern@) ==> r matches Ok(None),
{
    if str_contains(output, password_pattern) {
        match secret {
            Some(s) => {
                let mut t = s.to_owned();
                push_char(&mut t, '\n');
                Ok(Some(t))
            },
            None => Err(NetsshError::AuthenticationError(String::from_str("Enable password required but not provided"))),
        }
    } else {
        Ok(None)
    }
}

/// Whether `pattern` is found in the output read so far; a pattern that does
/// not compile is an error that quotes the compiler's message.
pub fn pattern_in_output(pattern: &str, output: &str) -> (r: Result<bool, NetsshError>)
    ensures
        match regex_search(pattern@, output@) {
            None => r matches Err(NetsshError::PatternError(m)) && "Invalid regex pattern: "@.is_prefix_of(m@),
            Some(found) => r == Ok::<bool, NetsshError>(found is Some),
        },
{
    match regex_find(pattern, output) {
        Ok(m) => Ok(m.is_some()),
        Err(e) => {
            let mut m = String::from_str("Invalid regex pattern: ");
            m.append(e.as_str());
            proof { assert("Invalid regex pattern: "@.is_prefix_of(m@)) by { assert(m@.take(23) =~= "Invalid regex pattern: "@) by { reveal_strlit("Invalid regex pattern: "); } } }
            Err(NetsshError::PatternError(m))
        },
    }
}

/// The output read so far, cut after the first match of `pattern`: the text
/// up to and including the match, and what follows it; `None` when the
/// pattern does not match (or does not compile).
pub open spec fn cut_at_match(pattern: Seq<char>, output: Seq<char>) -> Option<(Seq<char>, Seq<char>)> {
    match regex_search(pattern, output) {
        Some(Some(found)) => Some((found.0 + found.1, output.skip((found.0 + found.1).len() as int))),
        _ => None,
    }
}

/// Cuts the output read so far after the first match of `pattern`: the text
/// up to and including the match, and the rest, which together are the
/// whole output; `None` when the pattern does not match; a pattern that does
/// not compile is an error that quotes the compiler's message.
pub fn output_through_match(pattern: &str, output: &str) -> (r: Result<Option<(String, String)>, NetsshError>)
    ensures
        match regex_search(pattern@, output@) {
            None => r matches Err(NetsshError::PatternError(m)) && "Invalid regex pattern: "@.is_prefix_of(m@),
            Some(None) => r matches Ok(None),
            Some(Some(_)) => r matches Ok(Some((head, rest)))
                && cut_at_match(pattern@, output@) == Some((head@, rest@))
                && head@ + rest@ == output@,
        },
{
    match regex_find(pattern, output) {
        Ok(None) => Ok(None),
        Ok(Some((before, matched))) => {
            let mut head = before;
            head.append(matched.as_str());
            let chars = chars_of(output);
            let n = chars_of(head.as_str()).len();
            proof { assert(head@.is_prefix_of(output@)); }
            let tail = slice_chars(chars.as_slice(), n, chars.len());
            let rest = string_of(tail.as_slice());
            proof { assert(head@ + rest@ =~= output@); }
            Ok(Some((head, rest)))
        },
        Err(e) => {
            let mut m = String::from_str("Invalid regex pattern: ");
            m.append(e.as_str());
            proof { assert("Invalid regex pattern: "@.is_prefix_of(m@)) by { assert(m@.take(23) =~= "Invalid regex pattern: "@) by { reveal_strlit("Invalid regex pattern: "); } } }
            Err(NetsshError::PatternError(m))
        },
    }
}

/// The output of a command with its first line cleaned: when the first line
/// holds a backspace, the search pattern (taken literally) and what follows
/// it on that line are removed.
pub open spec fn first_line_handled(data: Seq<char>, search_pattern: Seq<char>) -> Seq<char> {
    let k = match first_index_of(data, '\n') { Some(i) => i, None => data.len() as int };
    let first = data.take(k);
    let rest = data.skip(k);
    if contains(first, seq!['\u{8}']) {
        match regex_replaced_first(regex_escaped(search_pattern) + ".*$"@, first, ""@) {
            Some(f) => f + rest,
            None => data,
        }
    } else {
        data
    }
}

/// Cleans the first line of a command's output.
pub fn first_line_handler(data: &str, search_pattern: &str) -> (r: String)
    ensures
        r@ == first_line_handled(data@, search_pattern@),
{
    let v = chars_of(data);
    let n = v.len();
    let mut k: usize = 0;
    while k < n && v[k] != '\n'
        invariant
            v@ == data@,
            n == v@.len(),
            0 <= k <= n,
            forall|j: int| 0 <= j < k ==> v@[j] != '\n',
        decreases n - k,
    {
        k = k + 1;
    }
    proof {
        crate::text::lemma_first_index_of(v@, '\n', k as int);
    }
    let first = slice_chars(v.as_slice(), 0, k);
    let rest = slice_chars(v.as_slice(), k, n);
    proof {
        assert(v@.subrange(0, k as int) =~= v@.take(k as int));
        assert(v@.subrange(k as int, n as int) =~= v@.skip(k as int));
    }
    let bs: Vec<char> = vec!['\u{8}'];
    proof { assert(bs@ =~= seq!['\u{8}']); }
    if crate::text::contains_chars(first.as_slice(), bs.as_slice()) {
        let mut pat = regex_escape(search_pattern);
        pat.append(".*$");
        let first_s = string_of(first.as_slice());
        match regex_replace_first(pat.as_str(), first_s.as_str(), "") {
            Some(f) => {
                let mut out = f;
                let rest_s = string_of(rest.as_slice());
                out.append(rest_s.as_str());
                out
            },
            None => data.to_owned(),
        }
    } else {
        data.to_owned()
    }
}

/// Output larger than this many bytes is searched in its latest reads only.
pub const MAX_SEARCHED_BYTES: usize = 2000000;

/// Number of latest reads kept for searching large output.
pub const RECENT_READS: usize = 20;

/// The state of reading a command's output.
pub struct ReaderView {
    pub pattern: Seq<char>,
    pub output: Seq<char>,
    pub first_line_done: bool,
    pub recent: Seq<Seq<char>>,
    pub found: bool,
}

/// The concatenation of the latest reads.
pub open spec fn joined(reads: Seq<Seq<char>>) -> Seq<char>
    decreases reads.len(),
{
    if reads.len() == 0 { Seq::empty() } else { joined(reads.drop_last()) + reads.last() }
}

/// The latest reads after one more: at most `RECENT_READS` kept.
pub open spec fn recent_after(reads: Seq<Seq<char>>, data: Seq<char>) -> Seq<Seq<char>> {
    let r = reads.push(data);
    if r.len() > RECENT_READS { r.drop_first() } else { r }
}

/// Reads a command's output until its search pattern shows up.
pub struct CommandReader {
    pattern: String,
    output: String,
    first_line_done: bool,
    recent: Vec<String>,
    size: usize,
    found: bool,
}

impl View for CommandReader {
    type V = ReaderView;

    closed spec fn view(&self) -> ReaderView {
        ReaderView {
            pattern: self.pattern@,
            output: self.output@,
            first_line_done: self.first_line_done,
            recent: crate::text::strings_view(self.recent@),
            found: self.found,
        }
    }
}

/// Whether the search pattern is seen: in the whole output while it is small,
/// in the latest reads once it is large.
pub open spec fn pattern_seen(v: ReaderView) -> bool {
    if utf8_size(v.output) <= MAX_SEARCHED_BYTES {
        regex_matches(v.pattern, v.output)
    } else {
        regex_matches(v.pattern, joined(v.recent))
    }
}

/// `n` counts the UTF-8 bytes of `s`, or exceeds the search limit when they do.
pub open spec fn size_tracks(n: usize, s: Seq<char>) -> bool {
    if utf8_size(s) <= MAX_SEARCHED_BYTES { n == utf8_size(s) } else { n == MAX_SEARCHED_BYTES + 1 }
}

fn add_size(n: usize, s: &str) -> (r: usize)
    requires
        n <= MAX_SEARCHED_BYTES + 1,
    ensures
        r <= MAX_SEARCHED_BYTES + 1,
        forall|old_s: Seq<char>| size_tracks(n, old_s) ==> size_tracks(r, old_s + s@),
{
    let v = chars_of(s);
    let mut r: usize = n;
    let mut i: usize = 0;
    while i < v.len()
        invariant
            v@ == s@,
            0 <= i <= v@.len(),
            r <= MAX_SEARCHED_BYTES + 1,
            forall|old_s: Seq<char>| size_tracks(n, old_s) ==> size_tracks(r, old_s + v@.take(i as int)),
        decreases v@.len() - i,
    {
        let w: usize = if (v[i] as u32) < 0x80 { 1 } else if (v[i] as u32) < 0x800 { 2 } else if (v[i] as u32) < 0x10000 { 3 } else { 4 };
        assert(w == utf8_width(v@[i as int]));
        proof {
            assert forall|old_s: Seq<char>| size_tracks(n, old_s) implies size_tracks(
                if r + w > MAX_SEARCHED_BYTES { (MAX_SEARCHED_BYTES + 1) as usize } else { (r + w) as usize },
                old_s + v@.take(i as int + 1),
            ) by {
                let t = old_s + v@.take(i as int + 1);
                assert(t.drop_last() =~= old_s + v@.take(i as int));
                assert(t.last() == v@[i as int]);
            }
        }
        if r + w > MAX_SEARCHED_BYTES {
            r = MAX_SEARCHED_BYTES + 1;
        } else {
            r = r + w;
        }
        i = i + 1;
    }
    proof { assert(v@.take(v@.len() as int) =~= v@); }
    r
}

impl CommandReader {
    /// The byte count of the output is tracked.
    pub closed spec fn wf(&self) -> bool {
        &&& self.size <= MAX_SEARCHED_BYTES + 1
        &&& size_tracks(self.size, self.output@)
        &&& self.recent@.len() <= RECENT_READS
    }

    /// Starts reading with what the command echo gave: non-empty echo output
    /// is cleaned at its first line and searched right away.
    pub fn new(search_pattern: String, echo: String) -> (r: Self)
        ensures
            r.wf(),
            r@.pattern == search_pattern@,
            echo@.len() == 0 ==> r@ == (ReaderView {
                pattern: search_pattern@,
                output: echo@,
                first_line_done: false,
                recent: Seq::empty(),
                found: false,
            }),
            echo@.len() > 0 ==> r@ == (ReaderView {
                pattern: search_pattern@,
                output: first_line_handled(echo@, search_pattern@),
                first_line_done: true,
                recent: seq![echo@],
                found: regex_matches(search_pattern@, first_line_handled(echo@, search_pattern@)),
            }),
    {
        if echo.as_str().is_empty() {
            let r = CommandReader {
                pattern: search_pattern,
                output: echo,
                first_line_done: false,
                recent: Vec::new(),
                size: 0,
                found: false,
            };
            proof {
                assert(crate::text::strings_view(r.recent@) =~= Seq::<Seq<char>>::empty());
            }
            r
        } else {
            let handled = first_line_handler(echo.as_str(), search_pattern.as_str());
            let found = regex_is_match(search_pattern.as_str(), handled.as_str());
            let size = add_size(0, handled.as_str());
            proof { assert(size_tracks(0, Seq::<char>::empty())); assert(Seq::<char>::empty() + handled@ =~= handled@); }
            let mut recent: Vec<String> = Vec::new();
            let ghost e = echo@;
            recent.push(echo);
            let r = CommandReader {
                pattern: search_pattern,
                output: handled,
                first_line_done: true,
                recent,
                size,
                found,
            };
            proof {
                assert(crate::text::strings_view(r.recent@) =~= seq![e]);
            }
            r
        }
    }

    /// Whether the pattern has been found.
    pub fn found(&self) -> (b: bool)
        ensures
            b == self@.found,
    {
        self.found
    }

    /// The output read so far.
    pub fn output(&self) -> (r: &String)
        ensures
            r@ == self@.output,
    {
        &self.output
    }

    /// One search step: the first line is cleaned the first time, then the
    /// pattern is looked for; true when it is seen.
    pub fn check(&mut self) -> (b: bool)
        requires
            old(self).wf(),
        ensures
            final(self).wf(),
            !old(self)@.first_line_done ==> {
                let out = first_line_handled(old(self)@.output, old(self)@.pattern);
                &&& final(self)@ == (ReaderView { output: out, first_line_done: true, found: b, ..old(self)@ })
                &&& b == regex_matches(old(self)@.pattern, out)
            },
            old(self)@.first_line_done ==> final(self)@ == (ReaderView { found: b, ..old(self)@ })
                && b == pattern_seen(old(self)@),
    {
        if !self.first_line_done {
            let handled = first_line_handler(self.output.as_str(), self.pattern.as_str());
            let b = regex_is_match(self.pattern.as_str(), handled.as_str());
            let size = add_size(0, handled.as_str());
            proof { assert(size_tracks(0, Seq::<char>::empty())); assert(Seq::<char>::empty() + handled@ =~= handled@); }
            self.output = handled;
            self.size = size;
            self.first_line_done = true;
            self.found = b;
            b
        } else {
            let b = if self.size <= MAX_SEARCHED_BYTES {
                regex_is_match(self.pattern.as_str(), self.output.as_str())
            } else {
                let mut all = String::new();
                let mut i: usize = 0;
                while i < self.recent.len()
                    invariant
                        0 <= i <= self.recent@.len(),
                        all@ == joined(crate::text::strings_view(self.recent@).take(i as int)),
                    decreases self.recent@.len() - i,
                {
                    proof {
                        let rv = crate::text::strings_view(self.recent@);
                        assert(rv.take(i as int + 1).drop_last() =~= rv.take(i as int));
                    }
                    all.append(self.recent[i].as_str());
                    i = i + 1;
                }
                proof {
                    let rv = crate::text::strings_view(self.recent@);
                    assert(rv.take(rv.len() as int) =~= rv);
                }
                regex_is_match(self.pattern.as_str(), all.as_str())
            };
            self.found = b;
            b
        }
    }

    /// Adds what one read gave; an empty read changes nothing.
    pub fn push_data(&mut self, data: String)
        requires
            old(self).wf(),
        ensures
            final(self).wf(),
            data@.len() == 0 ==> final(self)@ == old(self)@,
            data@.len() > 0 ==> final(self)@ == (ReaderView {
                output: old(self)@.output + data@,
                recent: recent_after(old(self)@.recent, data@),
                ..old(self)@
            }),
    {
        if data.as_str().is_empty() {
            return;
        }
        let ghost old_out = self.output@;
        self.size = add_size(self.size, data.as_str());
        self.output.append(data.as_str());
        let ghost d = data@;
        let ghost before = crate::text::strings_view(self.recent@);
        self.recent.push(data);
        if self.recent.len() > RECENT_READS {
            self.recent.remove(0);
            proof {
                assert(crate::text::strings_view(self.recent@) =~= before.push(d).drop_first());
            }
        } else {
            proof {
                assert(crate::text::strings_view(self.recent@) =~= before.push(d));
            }
        }
    }
}

/// The message of a command whose output never showed its pattern.
pub open spec fn command_timeout_message(pattern: Seq<char>) -> Seq<char> {
    "Pattern not detected: "@ + debug_str(pattern) + " in output.\n\nThings you might try to fix this:\n1. Explicitly set your pattern using the expect_string argument.\n2. Increase the read_timeout to a larger value.\n\nYou can also look at the session log or debug log for more information.\n"@
}

/// The error of a command whose output never showed its pattern.
pub fn send_command_timeout_error(pattern: &str) -> (e: NetsshError)
    ensures
        e matches NetsshError::TimeoutError(m) && m@ == command_timeout_message(pattern@),
{
    let mut m = String::from_str("Pattern not detected: ");
    let q = debug_quote(pattern);
    m.append(q.as_str());
    m.append(" in output.\n\nThings you might try to fix this:\n1. Explicitly set your pattern using the expect_string argument.\n2. Increase the read_timeout to a larger value.\n\nYou can also look at the session log or debug log for more information.\n");
    NetsshError::TimeoutError(m)
}

/// The message of a read that never saw its pattern.
pub open spec fn read_timeout_message(pattern: Seq<char>) -> Seq<char> {
    "\n\nPattern not detected: "@ + debug_str(pattern) + " in output.\n\nThings you might try to fix this:\n1. Adjust the regex pattern to better identify the terminating string. Note, in\nmany situations the pattern is automatically based on the network device's prompt.\n2. Increase the read_timeout to a larger value.\n\nYou can also look at the session log or debug log for more information.\n\n"@
}

/// The error of a read that never saw its pattern.
pub fn read_timeout_error(pattern: &str) -> (e: NetsshError)
    ensures
        e matches NetsshError::TimeoutError(m) && m@ == read_timeout_message(pattern@),
{
    let mut m = String::from_str("\n\nPattern not detected: ");
    let q = debug_quote(pattern);
    m.append(q.as_str());
    m.append(" in output.\n\nThings you might try to fix this:\n1. Adjust the regex pattern to better identify the terminating string. Note, in\nmany situations the pattern is automatically based on the network device's prompt.\n2. Increase the read_timeout to a larger value.\n\nYou can also look at the session log or debug log for more information.\n\n");
    NetsshError::TimeoutError(m)
}

/// Where and how to connect.
#[derive(Debug)]
pub struct ConnectTarget {
    pub host: String,
    pub username: String,
    pub password: Option<String>,
    pub port: u16,
    pub timeout: Duration,
    /// `host:port`
    pub addr: String,
}

/// The view of an optional string.
pub open spec fn ostr(o: Option<String>) -> Option<Seq<char>> {
    match o {
        Some(s) => Some(s@),
        None => None,
    }
}

/// Chooses the connection parameters: each given argument, else the
/// configured value; a missing host or user name is an error.
pub fn resolve_connect_target(
    host: Option<&str>,
    username: Option<&str>,
    password: Option<&str>,
    port: Option<u16>,
    connect_timeout: Option<Duration>,
    config: &NetsshConfig,
) -> (r: Result<ConnectTarget, NetsshError>)
    ensures
        ({
            let h = match host { Some(x) => x@, None => config.host@ };
            let u = match username { Some(x) => x@, None => config.username@ };
            if h.len() == 0 && host is None {
                r matches Err(NetsshError::ConnectionError(m)) && m@ == "No host specified"@
            } else if u.len() == 0 && username is None {
                r matches Err(NetsshError::ConnectionError(m)) && m@ == "No username specified"@
            } else {
                r matches Ok(t) && {
                    &&& t.host@ == h
                    &&& t.username@ == u
                    &&& ostr(t.password) == match password { Some(x) => Some(x@), None => ostr(config.password) }
                    &&& t.port == match port { Some(p) => p, None => config.default_port }
                    &&& t.timeout == match connect_timeout { Some(d) => d, None => config.connection_timeout }
                    &&& t.addr@ == h + ":"@ + decimal(t.port as nat)
                }
            }
        }),
{
    let h: String = match host {
        Some(x) => x.to_owned(),
        None => {
            if config.host.as_str().is_empty() {
                return Err(NetsshError::ConnectionError(String::from_str("No host specified")));
            }
            config.host.clone()
        },
    };
    let u: String = match username {
        Some(x) => x.to_owned(),
        None => {
            if config.username.as_str().is_empty() {
                return Err(NetsshError::ConnectionError(String::from_str("No username specified")));
            }
            config.username.clone()
        },
    };
    let pw: Option<String> = match password {
        Some(x) => Some(x.to_owned()),
        None => match &config.password {
            Some(p) => Some(p.clone()),
            None => None,
        },
    };
    let pt: u16 = match port {
        Some(p) => p,
        None => config.default_port,
    };
    let to: Duration = match connect_timeout {
        Some(d) => d,
        None => config.connection_timeout,
    };
    let mut addr = h.clone();
    addr.append(":");
    let ps = usize_to_string(pt as usize);
    addr.append(ps.as_str());
    Ok(ConnectTarget { host: h, username: u, password: pw, port: pt, timeout: to, addr })
}

/// How configuration commands are sent.
#[derive(Debug, Clone, Copy, PartialEq, Eq, Structural)]
pub enum ConfigSendMode {
    /// No commands: nothing is sent, not even the change into configuration
    /// mode, and the output is empty.
    Nothing,
    /// All commands at once, then one read.
    Fast,
    /// One by one without waiting for their echo.
    Unverified,
    /// One by one, each echo read before the next.
    Verified,
}

/// The pattern compiles.
pub open spec fn compiles(p: Seq<char>) -> bool {
    regex_search(p, Seq::<char>::empty()) is Some
}

/// Whether `pattern` compiles.
pub fn pattern_compiles(pattern: &str) -> (b: bool)
    ensures
        b == compiles(pattern@),
{
    let empty = String::new();
    proof { assert(empty@ == Seq::<char>::empty()); }
    regex_find(pattern, empty.as_str()).is_ok()
}

/// The pattern of commands whose echo is not waited for.
pub open spec fn default_bypass() -> Seq<char> {
    "^banner .*$"@
}

/// Some command matches the bypass pattern: the given one when it compiles,
/// the banner pattern when none is given.
pub open spec fn bypass_detected(commands: Seq<Seq<char>>, bypass: Option<Seq<char>>) -> bool {
    let p = match bypass { Some(b) => b, None => default_bypass() };
    compiles(p) && exists|i: int| 0 <= i < commands.len() && regex_matches(p, #[trigger] commands[i])
}

/// The sending mode: nothing without commands; all at once when fast and no
/// error pattern compiles,
/// else unverified when verification is off or a bypass command is present,
/// else verified.
pub open spec fn config_send_mode(
    commands: Seq<Seq<char>>,
    cmd_verify: bool,
    error_pattern: Option<Seq<char>>,
    bypass: Option<Seq<char>>,
    fast_cli: bool,
) -> ConfigSendMode {
    let has_error_regex = error_pattern is Some && compiles(error_pattern->0);
    if commands.len() == 0 {
        ConfigSendMode::Nothing
    } else if fast_cli && !has_error_regex {
        ConfigSendMode::Fast
    } else if !cmd_verify || bypass_detected(commands, bypass) {
        ConfigSendMode::Unverified
    } else {
        ConfigSendMode::Verified
    }
}

/// Chooses how to send configuration commands.
pub fn choose_config_send_mode(
    commands: &Vec<String>,
    cmd_verify: bool,
    error_pattern: Option<&str>,
    bypass_commands: Option<&str>,
    fast_cli: bool,
) -> (m: ConfigSendMode)
    ensures
        m == config_send_mode(crate::text::strings_view(commands@), cmd_verify, opt_view(error_pattern),
            opt_view(bypass_commands), fast_cli),
{
    if commands.len() == 0 {
        return ConfigSendMode::Nothing;
    }
    let has_error_regex = match error_pattern {
        Some(p) => pattern_compiles(p),
        None => false,
    };
    if fast_cli && !has_error_regex {
        return ConfigSendMode::Fast;
    }
    if !cmd_verify {
        return ConfigSendMode::Unverified;
    }
    let p: &str = match bypass_commands {
        Some(b) => b,
        None => "^banner .*$",
    };
    let mut detected = false;
    if pattern_compiles(p) {
        let mut i: usize = 0;
        while i < commands.len()
            invariant
                0 <= i <= commands@.len(),
                detected == exists|j: int| 0 <= j < i && regex_matches(p@, #[trigger] crate::text::strings_view(commands@)[j]),
            decreases commands@.len() - i,
        {
            proof { assert(crate::text::strings_view(commands@)[i as int] == commands@[i as int]@); }
            if regex_is_match(p, commands[i].as_str()) {
                detected = true;
            }
            i = i + 1;
        }
    }
    if detected { ConfigSendMode::Unverified } else { ConfigSendMode::Verified }
}

/// After a configuration command, the output so far is checked with the
/// error pattern, when one compiles: a match is an error naming the command.
pub fn config_command_error(output: &str, error_pattern: Option<&str>, command: &str) -> (r: Result<(), NetsshError>)
    ensures
        match error_pattern {
            Some(p) if compiles(p@) && regex_matches(p@, output@) =>
                r matches Err(NetsshError::ConfigError(m)) && m@ == "Invalid input detected at command: "@ + command@,
            _ => r is Ok,
        },
{
    match error_pattern {
        Some(p) => {
            if pattern_compiles(p) && regex_is_match(p, output) {
                let mut m = String::from_str("Invalid input detected at command: ");
                m.append(command);
                return Err(NetsshError::ConfigError(m));
            }
            Ok(())
        },
        None => Ok(()),
    }
}

/// The command that sets the terminal width.
pub open spec fn terminal_width_text(width: u32) -> Seq<char> {
    "terminal width "@ + decimal(width as nat) + "\n"@
}

/// Builds the command that sets the terminal width.
pub fn terminal_width_command(width: u32) -> (r: String)
    ensures
        r@ == terminal_width_text(width),
{
    let mut r = String::from_str("terminal width ");
    let d = usize_to_string(width as usize);
    r.append(d.as_str());
    r.append("\n");
    r
}

/// Without a secret, privileged mode is reached when the trimmed output
/// ends with `#`.
pub fn enable_prompt_reached(output: &str) -> (r: Result<(), NetsshError>)
    ensures
        ({
            let t = trim(output@);
            if t.len() > 0 && t.last() == '#' {
                r is Ok
            } else {
                r matches Err(NetsshError::CommandError(m)) && m@ == "Failed to enter enable mode"@
            }
        }),
{
    let t = trim_chars(chars_of(output).as_slice());
    if t.len() > 0 && t[t.len() - 1] == '#' {
        Ok(())
    } else {
        Err(NetsshError::CommandError(String::from_str("Failed to enter enable mode")))
    }
}

/// The outcome of saving the configuration (NX-OS `copy`, IOS-XR `commit`):
/// output that mentions `Error` is a failure quoting it.
pub fn save_config_result(output: String) -> (r: Result<String, NetsshError>)
    ensures
        contains(output@, "Error"@) ==> (r matches Err(NetsshError::CommandError(m))
            && m@ == "Failed to save configuration: "@ + output@),
        !contains(output@, "Error"@) ==> (r matches Ok(s) && s@ == output@),
{
    if str_contains(output.as_str(), "Error") {
        let mut m = String::from_str("Failed to save configuration: ");
        m.append(output.as_str());
        Err(NetsshError::CommandError(m))
    } else {
        Ok(output)
    }
}

/// NX-OS line endings made plain: `\r\r\n\r`, `\r\r\n`, `\r\n` and then any
/// lone `\r` each become `\n`, in that order.
pub open spec fn nxos_linefeeds(s: Seq<char>) -> Seq<char> {
    let a = crate::text::replace_lit(s, "\r\r\n\r"@, "\n"@);
    let b = crate::text::replace_lit(a, "\r\r\n"@, "\n"@);
    let c = crate::text::replace_lit(b, "\r\n"@, "\n"@);
    crate::text::replace_lit(c, "\r"@, "\n"@)
}

/// Normalises NX-OS line endings.
pub fn nxos_normalize_linefeeds(data: &str) -> (r: String)
    ensures
        r@ == nxos_linefeeds(data@),
{
    proof {
        reveal_strlit("\r\r\n\r");
        reveal_strlit("\r\r\n");
        reveal_strlit("\r\n");
        reveal_strlit("\r");
    }
    let a = crate::text::replace_str(data, "\r\r\n\r", "\n");
    let b = crate::text::replace_str(a.as_str(), "\r\r\n", "\n");
    let c = crate::text::replace_str(b.as_str(), "\r\n", "\n");
    crate::text::replace_str(c.as_str(), "\r", "\n")
}

/// What one read from the channel gave.
#[derive(Debug, Clone)]
pub enum ChannelRead {
    /// These bytes arrived.
    Data(Vec<u8>),
    /// The remote end closed the stream.
    Closed,
    /// Nothing was ready (the read would block or timed out).
    NoData,
    /// The read failed with this message.
    Failed(String),
}

/// The text a read gives: the bytes decoded (lossily when they are not valid
/// UTF-8), nothing when no data was ready, and an error when the stream was
/// closed or the read failed.
pub fn channel_read_text(r: ChannelRead) -> (t: Result<String, NetsshError>)
    ensures
        match r {
            ChannelRead::Data(b) => t matches Ok(s) && s@ == match crate::buffer_pool::utf8_decoded(b@) {
                Some(d) => d,
                None => crate::buffer_pool::utf8_lossy(b@),
            },
            ChannelRead::Closed => t matches Err(NetsshError::ReadError(m)) && m@ == "Channel stream closed by remote device."@,
            ChannelRead::NoData => t matches Ok(s) && s@.len() == 0,
            ChannelRead::Failed(e) => t matches Err(NetsshError::IoError(m)) && m@ == e@,
        },
{
    match r {
        ChannelRead::Data(b) => match crate::buffer_pool::utf8_decode(&b) {
            Ok(s) => Ok(s),
            Err(_) => Ok(crate::buffer_pool::utf8_decode_lossy(&b)),
        },
        ChannelRead::Closed => Err(NetsshError::ReadError(String::from_str("Channel stream closed by remote device."))),
        ChannelRead::NoData => Ok(String::new()),
        ChannelRead::Failed(e) => Err(NetsshError::IoError(e)),
    }
}

/// The pattern the channel uses to spot the prompt: the escaped base prompt
/// followed by `>` or `#`.
pub fn channel_prompt_pattern(prompt: &str) -> (r: String)
    ensures
        r@ == regex_escaped(prompt@) + "[>#]"@,
{
    let mut r = regex_escape(prompt);
    r.append("[>#]");
    r
}

/// Log levels.
#[derive(Debug, Clone, Copy, PartialEq, Eq, Structural)]
pub enum LogLevel {
    Error,
    Warn,
    Info,
    Debug,
    Trace,
}

/// The log level a name asks for, ignoring ASCII case; anything else is `Info`.
pub open spec fn log_level_of(name: Seq<char>) -> LogLevel {
    if crate::device::name_matches(name, "error"@) {
        LogLevel::Error
    } else if crate::device::name_matches(name, "warn"@) {
        LogLevel::Warn
    } else if crate::device::name_matches(name, "debug"@) {
        LogLevel::Debug
    } else if crate::device::name_matches(name, "trace"@) {
        LogLevel::Trace
    } else {
        LogLevel::Info
    }
}

/// Reads a log level name.
pub fn parse_log_level(name: &str) -> (l: LogLevel)
    ensures
        l == log_level_of(name@),
{
    if crate::device::name_eq(name, "error") {
        LogLevel::Error
    } else if crate::device::name_eq(name, "warn") {
        LogLevel::Warn
    } else if crate::device::name_eq(name, "debug") {
        LogLevel::Debug
    } else if crate::device::name_eq(name, "trace") {
        LogLevel::Trace
    } else {
        LogLevel::Info
    }
}

/// The file logs go to: the given path, else `logs/debug.log`.
pub fn log_file_path(given: Option<&str>) -> (p: String)
    ensures
        p@ == match given { Some(g) => g@, None => "logs/debug.log"@ },
{
    match given {
        Some(g) => g.to_owned(),
        None => String::from_str("logs/debug.log"),
    }
}

/// The command that switches an ASA to another security context.
pub fn context_change_command(context_name: &str) -> (r: String)
    ensures
        r@ == "changeto context "@ + context_name@ + "\n"@,
{
    let mut r = String::from_str("changeto context ");
    r.append(context_name);
    r.append("\n");
    r
}

/// The outcome of switching an ASA context: output that mentions `ERROR` or
/// `Invalid` is a failure naming the context and quoting the output.
pub fn context_change_result(context_name: &str, output: &str) -> (r: Result<(), NetsshError>)
    ensures
        (contains(output@, "ERROR"@) || contains(output@, "Invalid"@)) ==> (r matches Err(NetsshError::CommandError(m))
            && m@ == "Failed to change to context "@ + context_name@ + ": "@ + output@),
        !(contains(output@, "ERROR"@) || contains(output@, "Invalid"@)) ==> r is Ok,
{
    if str_contains(output, "ERROR") || str_contains(output, "Invalid") {
        let mut m = String::from_str("Failed to change to context ");
        m.append(context_name);
        m.append(": ");
        m.append(output);
        Err(NetsshError::CommandError(m))
    } else {
        Ok(())
    }
}

/// The pattern that confirms a command's echo: the escaped trimmed command,
/// none for a blank command.
pub fn echo_pattern(command: &str) -> (r: Option<String>)
    ensures
        trim(command@).len() == 0 ==> r is None,
        trim(command@).len() > 0 ==> (r matches Some(p) && p@ == regex_escaped(trim(command@))),
{
    let t = trim_str(command);
    if t.as_str().is_empty() {
        None
    } else {
        Some(regex_escape(t.as_str()))
    }
}

/// The command and expected text of one multiline step: a lone command waits
/// for the default pattern, a command with an empty expectation too, a
/// command with an expectation waits for it; an empty step is skipped.
pub open spec fn multiline_step(item: Seq<Seq<char>>, default_expect: Seq<char>) -> Option<(Seq<char>, Seq<char>)> {
    if item.len() == 0 {
        None
    } else if item.len() == 1 || item[1].len() == 0 {
        Some((item[0], default_expect))
    } else {
        Some((item[0], item[1]))
    }
}

/// The command and expected text of each multiline step, empty steps dropped.
pub fn multiline_steps(commands: &Vec<Vec<String>>, default_expect: &str) -> (r: Vec<(String, String)>)
    ensures
        r@.len() <= commands@.len(),
        forall|i: int| 0 <= i < r@.len() ==> exists|j: int| 0 <= j < commands@.len()
            && multiline_step(crate::text::strings_view(#[trigger] commands@[j]@), default_expect@) == Some(((#[trigger] r@[i]).0@, r@[i].1@)),
        (forall|j: int| 0 <= j < commands@.len() ==> (#[trigger] commands@[j])@.len() > 0) ==> r@.len() == commands@.len(),
{
    let mut r: Vec<(String, String)> = Vec::new();
    let mut i: usize = 0;
    while i < commands.len()
        invariant
            0 <= i <= commands@.len(),
            r@.len() <= i,
            forall|k: int| 0 <= k < r@.len() ==> exists|j: int| 0 <= j < commands@.len()
                && multiline_step(crate::text::strings_view(#[trigger] commands@[j]@), default_expect@) == Some(((#[trigger] r@[k]).0@, r@[k].1@)),
            (forall|j: int| 0 <= j < commands@.len() ==> (#[trigger] commands@[j])@.len() > 0) ==> r@.len() == i,
        decreases commands@.len() - i,
    {
        let item = &commands[i];
        let ghost iv = crate::text::strings_view(item@);
        if item.len() >= 1 {
            let cmd = item[0].clone();
            let expect = if item.len() == 1 || item[1].as_str().is_empty() {
                default_expect.to_owned()
            } else {
                item[1].clone()
            };
            proof {
                assert(iv[0] == item@[0]@);
                if item@.len() > 1 { assert(iv[1] == item@[1]@); }
                assert(multiline_step(iv, default_expect@) == Some((cmd@, expect@)));
            }
            let ghost before = r@;
            r.push((cmd, expect));
            proof {
                assert forall|k: int| 0 <= k < r@.len() implies exists|j: int| 0 <= j < commands@.len()
                    && multiline_step(crate::text::strings_view(#[trigger] commands@[j]@), default_expect@) == Some(((#[trigger] r@[k]).0@, r@[k].1@)) by {
                    if k < before.len() {
                        assert(r@[k] == before[k]);
                    } else {
                        assert(commands@[i as int] == *item);
                    }
                }
            }
        }
        i = i + 1;
    }
    r
}

/// How a base prompt relates to the prompt it is taken from: for a trimmed
/// prompt of more than one character that ends with either the primary or
/// the alternate terminator (each a single character), the base prompt is the
/// trimmed prompt without that last character; a lone terminator is kept as
/// it is; a trimmed prompt that ends with neither terminator (or is empty)
/// is refused with an error that quotes it. So a user-mode prompt such as
/// `router>` gives `router` just as `router#` does.
pub proof fn lemma_base_prompt_terminators(prompt: Seq<char>, pri: char, alt: char)
    ensures
        ({
            let p = trim(prompt);
            &&& (p.len() > 1 && (p.last() == pri || p.last() == alt))
                ==> base_prompt_of(prompt, seq![pri], seq![alt]) == Ok::<Seq<char>, Seq<char>>(p.subrange(0, p.len() - 1))
            &&& (p.len() == 1 && (p[0] == pri || p[0] == alt))
                ==> base_prompt_of(prompt, seq![pri], seq![alt]) == Ok::<Seq<char>, Seq<char>>(p)
            &&& (p.len() == 0 || (p.last() != pri && p.last() != alt))
                ==> base_prompt_of(prompt, seq![pri], seq![alt]) == Err::<Seq<char>, Seq<char>>("Router prompt not found: "@ + p)
        }),
{
    let p = trim(prompt);
    if p.len() > 0 {
        assert(seq![p.last()] == seq![pri] <==> p.last() == pri) by {
            if seq![p.last()] == seq![pri] { assert(seq![p.last()][0] == seq![pri][0]); }
        }
        assert(seq![p.last()] == seq![alt] <==> p.last() == alt) by {
            if seq![p.last()] == seq![alt] { assert(seq![p.last()][0] == seq![alt][0]); }
        }
        assert(p.drop_last() =~= p.subrange(0, p.len() - 1));
    }
}

} // verus!
