use netssh_core::device::DeviceType;
use netssh_core::error::NetsshError;
use netssh_core::session::{
    base_prompt_from, base_prompt_search_pattern, enable_read_pattern, enable_secret_reply, first_line_handler,
    finish_command_output, in_config_mode, normalize_command, normalize_linefeeds, pattern_in_output,
    sanitize_output, send_command_pattern, strip_ansi_escape_codes, strip_backspaces, strip_command, strip_prompt,
    CommandReader,
};

#[test]
fn strips_the_command_echo() {
    assert_eq!(strip_command(" show clock ", "show clock\n12:00\nrouter#"), "\n12:00\nrouter#");
    assert_eq!(strip_command("show clock", "garbage"), "garbage");
}

#[test]
fn strips_the_prompt_line() {
    assert_eq!(strip_prompt(Some("router"), "12:00\nrouter#"), "12:00");
    assert_eq!(strip_prompt(Some("router"), "router#"), "");
    assert_eq!(strip_prompt(Some("router"), "12:00\nother#"), "12:00\nother#");
    assert_eq!(strip_prompt(None, "12:00\nrouter#"), "12:00\nrouter#");
}

#[test]
fn sanitizes_echo_and_prompt() {
    let out = "show clock\n12:00\nrouter#";
    assert_eq!(sanitize_output(out, true, Some("show clock"), true, Some("router")), "\n12:00");
    assert_eq!(sanitize_output(out, false, Some("show clock"), false, Some("router")), out);
}

#[test]
fn removes_backspaces_and_escapes() {
    assert_eq!(strip_backspaces("ab\u{8}c\u{8}"), "abc");
    assert_eq!(strip_ansi_escape_codes("\u{1b}[0mrouter\u{1b}[1;32m#"), "router#");
    assert_eq!(normalize_linefeeds("a\r\nb\r\n"), "a\nb\n");
}

#[test]
fn builds_prompt_search_patterns() {
    assert_eq!(base_prompt_search_pattern("#", ">", None), "[#>]");
    assert_eq!(base_prompt_search_pattern("$", "", None), "\\$");
    assert_eq!(base_prompt_search_pattern("", "", None), "");
    assert_eq!(base_prompt_search_pattern("#", ">", Some("x")), "x");
}

#[test]
fn takes_base_prompt_from_prompt() {
    assert_eq!(base_prompt_from("  router#\n", "#", ">").unwrap(), "router");
    assert_eq!(base_prompt_from("#", "#", ">").unwrap(), "#");
    match base_prompt_from("router$", "#", ">") {
        Err(NetsshError::PromptError(m)) => assert_eq!(m, "Router prompt not found: router$"),
        other => panic!("unexpected {:?}", other),
    }
}

#[test]
fn chooses_command_patterns() {
    assert_eq!(send_command_pattern(Some("x#"), true, None, None).unwrap(), "x#");
    assert_eq!(send_command_pattern(None, true, Some("r1(config)#"), None).unwrap(), "r1\\(config\\)\\#");
    assert_eq!(send_command_pattern(None, true, None, Some("r1.x")).unwrap(), "r1\\.x");
    match send_command_pattern(None, true, None, None) {
        Err(NetsshError::PromptError(m)) => assert_eq!(m, "No prompt found for pattern"),
        other => panic!("unexpected {:?}", other),
    }
    match send_command_pattern(None, false, Some("p"), None) {
        Err(NetsshError::PromptError(m)) => assert_eq!(m, "No base prompt set"),
        other => panic!("unexpected {:?}", other),
    }
}

#[test]
fn normalizes_commands() {
    assert_eq!(normalize_command("  show ver \n", true), "show ver\n");
    assert_eq!(normalize_command("show ver", false), "show ver");
}

#[test]
fn mode_checks() {
    assert!(in_config_mode("router(config)#", ")#", false));
    assert!(!in_config_mode("router#", ")#", false));
    assert!(in_config_mode("router(config-if)#", r"\(config.*\)#", true));
    assert!(!in_config_mode("router#", "(", true));
}

#[test]
fn enable_decisions() {
    assert_eq!(enable_read_pattern("assword", Some("r1")), "(?:assword|r1)");
    assert_eq!(enable_read_pattern("assword", None), "assword");
    assert_eq!(enable_secret_reply("Password:", "assword", Some("s3")).unwrap(), Some("s3\n".to_string()));
    assert_eq!(enable_secret_reply("r1#", "assword", None).unwrap(), None);
    match enable_secret_reply("Password:", "assword", None) {
        Err(NetsshError::AuthenticationError(m)) => assert_eq!(m, "Enable password required but not provided"),
        other => panic!("unexpected {:?}", other),
    }
}

#[test]
fn pattern_search_reports_bad_patterns() {
    assert_eq!(pattern_in_output("r1#", "x\nr1#").unwrap(), true);
    assert_eq!(pattern_in_output("r2#", "x\nr1#").unwrap(), false);
    match pattern_in_output("(", "x") {
        Err(NetsshError::PatternError(m)) => assert!(m.starts_with("Invalid regex pattern: ")),
        other => panic!("unexpected {:?}", other),
    }
}

#[test]
fn first_line_with_backspaces_loses_the_pattern_tail() {
    assert_eq!(first_line_handler("abc r1# junk\u{8}\nnext", "r1#"), "abc \nnext");
    assert_eq!(first_line_handler("abc r1#\nnext\u{8}", "r1#"), "abc r1#\nnext\u{8}");
}

#[test]
fn reader_finds_pattern_across_reads() {
    let mut r = CommandReader::new("r1#".to_string(), String::new());
    assert!(!r.check());
    r.push_data("show clock\n12:00\n".to_string());
    assert!(!r.check());
    r.push_data("r1#".to_string());
    assert!(r.check());
    assert_eq!(r.output(), "show clock\n12:00\nr1#");
}

#[test]
fn reader_checks_echo_right_away() {
    let r = CommandReader::new("r1#".to_string(), "show clock\nr1#".to_string());
    assert!(r.found());
}

#[test]
fn finishing_checks_device_errors() {
    let ok = finish_command_output("show clock\n12:00\nr1#", true, "show clock", true, Some("r1"), &DeviceType::CiscoIos);
    assert_eq!(ok.unwrap(), "\n12:00");
    let bad = finish_command_output("show x\n% Invalid input detected\nr1#", true, "show x", true, Some("r1"), &DeviceType::CiscoIos);
    assert!(matches!(bad, Err(NetsshError::CommandErrorWithOutput { .. })));
}
