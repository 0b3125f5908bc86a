//! Recognising the error messages that devices print in command output.

use vstd::prelude::*;
use crate::device::DeviceType;
use crate::error::NetsshError;
use crate::text::{owned_strings, regex_find, regex_matches, regex_search, strings_view, strs_view};

verus! {

/// Patterns of error messages in Cisco IOS output.
pub open spec fn cisco_ios_errors() -> Seq<Seq<char>> {
    seq![
        r"% (?:Invalid|Incomplete|Ambiguous) (?:input|command)"@,
        r"% Error in authentication"@,
        r"% Bad passwords"@,
        r"% Unknown command"@,
        r"% Unrecognized command"@,
        r"% (?:Error|Not) (?:opening|possible)"@,
    ]
}

fn cisco_ios_errors_list() -> (r: Vec<String>)
    ensures
        strings_view(r@) == cisco_ios_errors(),
{
    let p: &[&str] = &[
        r"% (?:Invalid|Incomplete|Ambiguous) (?:input|command)",
        r"% Error in authentication",
        r"% Bad passwords",
        r"% Unknown command",
        r"% Unrecognized command",
        r"% (?:Error|Not) (?:opening|possible)",
    ];
    proof { assert(strs_view(p@) =~= cisco_ios_errors()); }
    owned_strings(p)
}

/// Patterns of error messages in Cisco IOS-XR output.
pub open spec fn cisco_xr_errors() -> Seq<Seq<char>> {
    seq![
        r"% (?:Invalid|Incomplete|Ambiguous) (?:input|command)"@,
        r"% No matching"@,
        r"% Error in authentication"@,
        r"% Not allowed"@,
        r"error: .*"@,
    ]
}

fn cisco_xr_errors_list() -> (r: Vec<String>)
    ensures
        strings_view(r@) == cisco_xr_errors(),
{
    let p: &[&str] = &[
        r"% (?:Invalid|Incomplete|Ambiguous) (?:input|command)",
        r"% No matching",
        r"% Error in authentication",
        r"% Not allowed",
        r"error: .*",
    ];
    proof { assert(strs_view(p@) =~= cisco_xr_errors()); }
    owned_strings(p)
}

/// Patterns of error messages in Cisco NX-OS output.
pub open spec fn cisco_nxos_errors() -> Seq<Seq<char>> {
    seq![
        r"% (?:Invalid|Incomplete|Ambiguous) (?:input|command)"@,
        r"% No matching"@,
        r"% Permission denied"@,
        r"% Error: "@,
        r"ERROR: "@,
        r"\^\s*\r?\n% Invalid parameter detected at '\^' marker\."@,
        r"% Invalid parameter detected at '\^' marker\."@,
    ]
}

fn cisco_nxos_errors_list() -> (r: Vec<String>)
    ensures
        strings_view(r@) == cisco_nxos_errors(),
{
    let p: &[&str] = &[
        r"% (?:Invalid|Incomplete|Ambiguous) (?:input|command)",
        r"% No matching",
        r"% Permission denied",
        r"% Error: ",
        r"ERROR: ",
        r"\^\s*\r?\n% Invalid parameter detected at '\^' marker\.",
        r"% Invalid parameter detected at '\^' marker\.",
    ];
    proof { assert(strs_view(p@) =~= cisco_nxos_errors()); }
    owned_strings(p)
}

/// Patterns of error messages in Cisco ASA output.
pub open spec fn cisco_asa_errors() -> Seq<Seq<char>> {
    seq![
        r"% (?:Invalid|Incomplete|Ambiguous) (?:input|command)"@,
        r"ERROR: "@,
        r"% Error "@,
        r"% Bad (?:password|secret)"@,
        r"% No such"@,
    ]
}

fn cisco_asa_errors_list() -> (r: Vec<String>)
    ensures
        strings_view(r@) == cisco_asa_errors(),
{
    let p: &[&str] = &[
        r"% (?:Invalid|Incomplete|Ambiguous) (?:input|command)",
        r"ERROR: ",
        r"% Error ",
        r"% Bad (?:password|secret)",
        r"% No such",
    ];
    proof { assert(strs_view(p@) =~= cisco_asa_errors()); }
    owned_strings(p)
}

/// Patterns of error messages in Juniper Junos output.
pub open spec fn juniper_junos_errors() -> Seq<Seq<char>> {
    seq![
        r"(?:error|warning):"@,
        r"syntax error"@,
        r"syntax error, expecting"@,
        r"unknown command"@,
        r"invalid (?:command|input)"@,
        r"commit failed"@,
        r"configuration check-out failed"@,
        r"error:"@,
        r"\^\s*\r?\n"@,
        r"command is not valid"@,
        r"is ambiguous"@,
        r"is not"@,
        r"\^\s*\r?\nsyntax error, expecting <command>"@,
    ]
}

fn juniper_junos_errors_list() -> (r: Vec<String>)
    ensures
        strings_view(r@) == juniper_junos_errors(),
{
    let p: &[&str] = &[
        r"(?:error|warning):",
        r"syntax error",
        r"syntax error, expecting",
        r"unknown command",
        r"invalid (?:command|input)",
        r"commit failed",
        r"configuration check-out failed",
        r"error:",
        r"\^\s*\r?\n",
        r"command is not valid",
        r"is ambiguous",
        r"is not",
        r"\^\s*\r?\nsyntax error, expecting <command>",
    ];
    proof { assert(strs_view(p@) =~= juniper_junos_errors()); }
    owned_strings(p)
}

/// The error patterns checked for a device type; an unknown device is
/// checked like Cisco IOS.
pub open spec fn error_patterns_of(t: DeviceType) -> Seq<Seq<char>> {
    match t {
        DeviceType::CiscoIos => cisco_ios_errors(),
        DeviceType::CiscoXr => cisco_xr_errors(),
        DeviceType::CiscoNxos => cisco_nxos_errors(),
        DeviceType::CiscoAsa => cisco_asa_errors(),
        DeviceType::JuniperJunos => juniper_junos_errors(),
        DeviceType::Unknown => cisco_ios_errors(),
    }
}

/// Returns the error patterns for the specified device type.
pub fn get_error_patterns(device_type: &DeviceType) -> (r: Vec<String>)
    ensures
        strings_view(r@) == error_patterns_of(*device_type),
{
    match device_type {
        DeviceType::CiscoIos => cisco_ios_errors_list(),
        DeviceType::CiscoXr => cisco_xr_errors_list(),
        DeviceType::CiscoNxos => cisco_nxos_errors_list(),
        DeviceType::CiscoAsa => cisco_asa_errors_list(),
        DeviceType::JuniperJunos => juniper_junos_errors_list(),
        DeviceType::Unknown => cisco_ios_errors_list(),
    }
}

/// The text matched by the first pattern, in order, that matches `text`; a
/// pattern that does not compile is passed over.
pub open spec fn first_error(patterns: Seq<Seq<char>>, text: Seq<char>) -> Option<Seq<char>>
    decreases patterns.len(),
{
    if patterns.len() == 0 {
        None
    } else {
        match regex_search(patterns[0], text) {
            Some(Some(found)) => Some(found.1),
            _ => first_error(patterns.drop_first(), text),
        }
    }
}

/// The text matched by the first pattern of `patterns` that matches `output`.
pub fn first_error_match(patterns: &[String], output: &str) -> (r: Option<String>)
    ensures
        match r {
            Some(m) => first_error(strings_view(patterns@), output@) == Some(m@),
            None => first_error(strings_view(patterns@), output@) is None,
        },
{
    let ghost all = strings_view(patterns@);
    let mut i: usize = 0;
    assert(all.skip(0) =~= all);
    while i < patterns.len()
        invariant
            0 <= i <= patterns@.len(),
            all == strings_view(patterns@),
            first_error(all, output@) == first_error(all.skip(i as int), output@),
        decreases patterns@.len() - i,
    {
        let ghost rest = all.skip(i as int);
        assert(rest[0] == patterns@[i as int]@);
        assert(rest.drop_first() =~= all.skip(i as int + 1));
        match regex_find(patterns[i].as_str(), output) {
            Ok(Some((_, m))) => {
                return Some(m);
            },
            _ => {},
        }
        i = i + 1;
    }
    assert(all.skip(i as int) =~= Seq::<Seq<char>>::empty());
    None
}

/// Checks if the output matches any error pattern for the specified device
/// type, and gives the matched text of the first pattern that does.
pub fn check_for_errors(output: &str, device_type: &DeviceType) -> (r: Option<String>)
    ensures
        match r {
            Some(m) => first_error(error_patterns_of(*device_type), output@) == Some(m@),
            None => first_error(error_patterns_of(*device_type), output@) is None,
        },
        r is Some <==> exists|i: int| 0 <= i < error_patterns_of(*device_type).len()
            && regex_matches(#[trigger] error_patterns_of(*device_type)[i], output@),
        *device_type == DeviceType::CiscoXr && regex_matches(r"% No matching"@, output@) ==> r is Some,
{
    proof {
        lemma_first_error_complete(error_patterns_of(*device_type), output@);
        lemma_vendor_patterns(output@);
    }
    let patterns = get_error_patterns(device_type);
    first_error_match(patterns.as_slice(), output)
}

/// Checks command output against the device's error patterns: an error that
/// carries the matched text and the whole output, or success.
pub fn check_command_output(output: &str, device_type: &DeviceType) -> (r: Result<(), NetsshError>)
    ensures
        match first_error(error_patterns_of(*device_type), output@) {
            Some(m) => r matches Err(NetsshError::CommandErrorWithOutput { error_msg, output: o })
                && error_msg@ == m && o@ == output@,
            None => r is Ok,
        },
        *device_type == DeviceType::CiscoXr && regex_matches(r"% No matching"@, output@) ==> r is Err,
{
    match check_for_errors(output, device_type) {
        Some(m) => Err(NetsshError::command_error_with_output(m, output.to_owned())),
        None => Ok(()),
    }
}

/// The first-error search finds an error exactly when some pattern of the
/// list compiles and matches the text, and what it reports is the text that
/// one of the patterns matched.
pub proof fn lemma_first_error_complete(ps: Seq<Seq<char>>, text: Seq<char>)
    ensures
        first_error(ps, text) is Some <==> exists|i: int| 0 <= i < ps.len() && regex_matches(#[trigger] ps[i], text),
        first_error(ps, text) matches Some(m) ==> exists|i: int| 0 <= i < ps.len()
            && ((#[trigger] regex_search(ps[i], text)) matches Some(Some(f)) && f.1 == m),
    decreases ps.len(),
{
    if ps.len() > 0 {
        lemma_first_error_complete(ps.drop_first(), text);
        let rest = ps.drop_first();
        if exists|i: int| 0 <= i < rest.len() && regex_matches(#[trigger] rest[i], text) {
            let i = choose|i: int| 0 <= i < rest.len() && regex_matches(#[trigger] rest[i], text);
            assert(ps[i + 1] == rest[i]);
        }
        if exists|i: int| 0 <= i < ps.len() && regex_matches(#[trigger] ps[i], text) {
            let i = choose|i: int| 0 <= i < ps.len() && regex_matches(#[trigger] ps[i], text);
            if i > 0 {
                assert(rest[i - 1] == ps[i]);
            }
        }
        if first_error(ps, text) is Some && !(regex_search(ps[0], text) matches Some(Some(_))) {
            let m = first_error(ps, text)->0;
            let i = choose|i: int| 0 <= i < rest.len()
                && ((#[trigger] regex_search(rest[i], text)) matches Some(Some(f)) && f.1 == m);
            assert(ps[i + 1] == rest[i]);
        }
    }
}

/// The lists carry each vendor's own messages: an IOS-XR device is checked
/// for `% No matching`, `% Not allowed` and `error: ` lines, which Cisco IOS
/// lists lack; Cisco IOS for `% Bad passwords`; NX-OS for `% Permission denied`; ASA for `% No such`; Junos for
/// `commit failed`; and a device of unknown type is checked like Cisco IOS.
/// With the search law above, any output that `% No matching` matches is an
/// error for an IOS-XR device.
pub proof fn lemma_vendor_patterns(out: Seq<char>)
    ensures
        error_patterns_of(DeviceType::CiscoXr).contains(r"% No matching"@),
        error_patterns_of(DeviceType::CiscoXr).contains(r"% Not allowed"@),
        error_patterns_of(DeviceType::CiscoXr).contains(r"error: .*"@),
        !error_patterns_of(DeviceType::CiscoIos).contains(r"% No matching"@),
        error_patterns_of(DeviceType::CiscoIos).contains(r"% Bad passwords"@),
        error_patterns_of(DeviceType::CiscoNxos).contains(r"% Permission denied"@),
        error_patterns_of(DeviceType::CiscoAsa).contains(r"% No such"@),
        error_patterns_of(DeviceType::JuniperJunos).contains(r"commit failed"@),
        error_patterns_of(DeviceType::Unknown) == error_patterns_of(DeviceType::CiscoIos),
        regex_matches(r"% No matching"@, out) ==> first_error(error_patterns_of(DeviceType::CiscoXr), out) is Some,
{
    reveal_strlit(r"% No matching");
    reveal_strlit(r"% Not allowed");
    reveal_strlit(r"error: .*");
    reveal_strlit(r"% Permission denied");
    reveal_strlit(r"% No such");
    reveal_strlit(r"commit failed");
    reveal_strlit(r"% (?:Invalid|Incomplete|Ambiguous) (?:input|command)");
    reveal_strlit(r"% Error in authentication");
    reveal_strlit(r"% Bad passwords");
    reveal_strlit(r"% Unknown command");
    reveal_strlit(r"% Unrecognized command");
    reveal_strlit(r"% (?:Error|Not) (?:opening|possible)");
    let xr = error_patterns_of(DeviceType::CiscoXr);
    assert(xr[1] == r"% No matching"@);
    assert(error_patterns_of(DeviceType::CiscoIos)[2] == r"% Bad passwords"@);
    assert(xr[3] == r"% Not allowed"@);
    assert(xr[4] == r"error: .*"@);
    assert(error_patterns_of(DeviceType::CiscoNxos)[2] == r"% Permission denied"@);
    assert(error_patterns_of(DeviceType::CiscoAsa)[4] == r"% No such"@);
    reveal_strlit(r"(?:error|warning):");
    reveal_strlit(r"syntax error");
    reveal_strlit(r"syntax error, expecting");
    reveal_strlit(r"unknown command");
    reveal_strlit(r"invalid (?:command|input)");
    assert(error_patterns_of(DeviceType::JuniperJunos)[5] == r"commit failed"@);
    let ios = error_patterns_of(DeviceType::CiscoIos);
    assert forall|i: int| 0 <= i < ios.len() implies ios[i] != r"% No matching"@ by {
        assert(ios[i].len() != 13 || ios[i][2] != 'N' || ios[i][5] != 'm');
    }
    lemma_first_error_complete(xr, out);
    if regex_matches(r"% No matching"@, out) {
        assert(regex_matches(xr[1], out));
    }
}

} // verus!
