use netssh_core::config::NetsshConfig;
use netssh_core::settings::Settings;
use netssh_core::error::NetsshError;
use netssh_core::session::{
    channel_prompt_pattern, channel_read_text, choose_config_send_mode, config_command_error, enable_prompt_reached,
    log_file_path, nxos_normalize_linefeeds, save_config_result, parse_log_level, read_timeout_error,
    resolve_connect_target, send_command_timeout_error, terminal_width_command, ChannelRead, ConfigSendMode, LogLevel,
};
use netssh_core::session::{output_through_match, prompt_or_pattern_of, prompt_read_pattern_of};
use netssh_core::text::replace_str;
use std::time::Duration;

#[test]
fn connect_target_falls_back_to_config() {
    let mut config = NetsshConfig::default();
    config.host = "10.0.0.5".to_string();
    config.username = "ops".to_string();
    let t = resolve_connect_target(None, None, Some("pw"), None, None, &config).unwrap();
    assert_eq!(t.addr, "10.0.0.5:22");
    assert_eq!(t.username, "ops");
    assert_eq!(t.password, Some("pw".to_string()));
    assert_eq!(t.timeout, Duration::from_secs(60));
    let t = resolve_connect_target(Some("h"), Some("u"), None, Some(2022), Some(Duration::from_secs(3)), &config).unwrap();
    assert_eq!(t.addr, "h:2022");
    assert_eq!(t.timeout, Duration::from_secs(3));
}

#[test]
fn connect_target_needs_host_and_user() {
    let config = NetsshConfig::default();
    match resolve_connect_target(None, Some("u"), None, None, None, &config) {
        Err(NetsshError::ConnectionError(m)) => assert_eq!(m, "No host specified"),
        other => panic!("unexpected {:?}", other.map(|t| t.addr)),
    }
    match resolve_connect_target(Some("h"), None, None, None, None, &config) {
        Err(NetsshError::ConnectionError(m)) => assert_eq!(m, "No username specified"),
        other => panic!("unexpected {:?}", other.map(|t| t.addr)),
    }
}

#[test]
fn config_send_modes() {
    let cmds = vec!["interface Gi0/1".to_string(), "description x".to_string()];
    assert_eq!(choose_config_send_mode(&cmds, true, None, None, false), ConfigSendMode::Verified);
    assert_eq!(choose_config_send_mode(&Vec::new(), true, None, None, true), ConfigSendMode::Nothing);
    assert_eq!(choose_config_send_mode(&cmds, false, None, None, false), ConfigSendMode::Unverified);
    assert_eq!(choose_config_send_mode(&cmds, true, None, None, true), ConfigSendMode::Fast);
    assert_eq!(choose_config_send_mode(&cmds, true, Some("%"), None, true), ConfigSendMode::Verified);
    let banner = vec!["banner motd ^hi^".to_string()];
    assert_eq!(choose_config_send_mode(&banner, true, None, None, false), ConfigSendMode::Unverified);
    assert_eq!(choose_config_send_mode(&banner, true, None, Some("("), false), ConfigSendMode::Verified);
}

#[test]
fn config_errors_name_the_command() {
    match config_command_error("% Invalid input", Some("% Invalid"), "foo") {
        Err(NetsshError::ConfigError(m)) => assert_eq!(m, "Invalid input detected at command: foo"),
        other => panic!("unexpected {:?}", other),
    }
    assert!(config_command_error("ok", Some("% Invalid"), "foo").is_ok());
    assert!(config_command_error("% Invalid", None, "foo").is_ok());
    assert!(config_command_error("((", Some("("), "foo").is_ok());
}

#[test]
fn timeout_errors_quote_the_pattern() {
    match send_command_timeout_error("r1#") {
        NetsshError::TimeoutError(m) => assert!(m.starts_with("Pattern not detected: \"r1#\" in output.")),
        other => panic!("unexpected {:?}", other),
    }
    match read_timeout_error("a\"b") {
        NetsshError::TimeoutError(m) => assert!(m.starts_with("\n\nPattern not detected: \"a\\\"b\" in output.")),
        other => panic!("unexpected {:?}", other),
    }
}

#[test]
fn literal_replacement() {
    assert_eq!(replace_str("a,b,,c", ",", ";"), "a;b;;c");
    assert_eq!(replace_str("aaa", "aa", "b"), "ba");
    assert_eq!(replace_str("", "x", "y"), "");
}

#[test]
fn nxos_line_endings_and_saving() {
    assert_eq!(nxos_normalize_linefeeds("a\r\r\n\rb\r\r\nc\r\nd\re"), "a\nb\nc\nd\ne");
    assert_eq!(save_config_result("Copy complete.".to_string()).unwrap(), "Copy complete.");
    match save_config_result("Error: disk full".to_string()) {
        Err(NetsshError::CommandError(m)) => assert_eq!(m, "Failed to save configuration: Error: disk full"),
        other => panic!("unexpected {:?}", other),
    }
}

#[test]
fn small_commands_and_checks() {
    assert_eq!(terminal_width_command(511), "terminal width 511\n");
    assert!(enable_prompt_reached("enable\nrouter# ").is_ok());
    assert!(matches!(enable_prompt_reached("router>"), Err(NetsshError::CommandError(_))));
    assert_eq!(channel_prompt_pattern("r1.lab"), "r1\\.lab[>#]");
}

#[test]
fn channel_reads_become_text() {
    assert_eq!(channel_read_text(ChannelRead::Data(b"abc".to_vec())).unwrap(), "abc");
    assert_eq!(channel_read_text(ChannelRead::Data(vec![b'a', 0xFF])).unwrap(), "a\u{FFFD}");
    assert_eq!(channel_read_text(ChannelRead::NoData).unwrap(), "");
    match channel_read_text(ChannelRead::Closed) {
        Err(NetsshError::ReadError(m)) => assert_eq!(m, "Channel stream closed by remote device."),
        other => panic!("unexpected {:?}", other),
    }
    assert!(matches!(channel_read_text(ChannelRead::Failed("x".to_string())), Err(NetsshError::IoError(_))));
}

#[test]
fn log_settings() {
    assert_eq!(parse_log_level("DEBUG"), LogLevel::Debug);
    assert_eq!(parse_log_level("warn"), LogLevel::Warn);
    assert_eq!(parse_log_level("verbose"), LogLevel::Info);
    assert_eq!(log_file_path(None), "logs/debug.log");
    assert_eq!(log_file_path(Some("x.log")), "x.log");
}

#[test]
fn prompt_read_patterns() {
    assert_eq!(prompt_read_pattern_of(Some(" router.1 "), false).unwrap(), r"router\.1");
    assert_eq!(prompt_read_pattern_of(Some(" router.1 "), true).unwrap(), "router.1.*");
    match prompt_read_pattern_of(None, false) {
        Err(NetsshError::ConnectionError(m)) => assert_eq!(m, "Base prompt not set"),
        other => panic!("unexpected {:?}", other),
    }
    assert_eq!(prompt_or_pattern_of(Some("r1(x)"), None, false).unwrap(), r"r1\(x\)");
    assert_eq!(prompt_or_pattern_of(Some("r1"), Some("assword"), false).unwrap(), "(?:r1|assword)");
    assert_eq!(prompt_or_pattern_of(Some("r1"), Some("yes/no"), true).unwrap(), "(?:r1.*|yes/no)");
    assert!(matches!(prompt_or_pattern_of(None, Some("x"), true), Err(NetsshError::ConnectionError(_))));
}

#[test]
fn default_config_keeps_session_log_off() {
    let config = NetsshConfig::new();
    assert!(!config.enable_session_log);
    assert_eq!(config.blocking_timeout, Duration::from_secs(30));
    let mut settings = Settings::default();
    settings.ssh.blocking_timeout_secs = 5;
    let tuned = NetsshConfig::from_settings(&settings);
    assert_eq!(tuned.blocking_timeout, Duration::from_secs(5));
    assert!(!tuned.enable_session_log);
    assert_eq!(tuned.default_port, 22);
}

#[test]
fn builder_keeps_last_value_of_each_field() {
    let config = NetsshConfig::builder()
        .host("a".to_string())
        .default_port(2222)
        .host("b".to_string())
        .retry_count(7)
        .build();
    assert_eq!(config.host, "b");
    assert_eq!(config.default_port, 2222);
    assert_eq!(config.retry_count, 7);
    assert_eq!(config.username, "");
    assert_eq!(config.read_buffer_size, 65536);
    assert!(!config.enable_session_log);
    assert_eq!(config.blocking_timeout, Duration::from_secs(30));
}

#[test]
fn output_is_cut_after_the_first_match() {
    let (head, rest) = output_through_match(r"[>#]", "show ver\nrouter#more").unwrap().unwrap();
    assert_eq!(head, "show ver\nrouter#");
    assert_eq!(rest, "more");
    let (head, rest) = output_through_match("é#", "aé#b").unwrap().unwrap();
    assert_eq!(head, "aé#");
    assert_eq!(rest, "b");
    assert!(output_through_match("zz", "abc").unwrap().is_none());
    match output_through_match("(", "abc") {
        Err(NetsshError::PatternError(m)) => assert!(m.starts_with("Invalid regex pattern: ")),
        other => panic!("unexpected {:?}", other),
    }
}
