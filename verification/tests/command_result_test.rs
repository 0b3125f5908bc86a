use netssh_core::command_result::utils::{format_as_table, to_csv};
use netssh_core::command_result::{
    BatchCommandResults, CommandOutput, CommandResult, CommandStatus, ParseOptions, ParseStatus,
};
use netssh_core::error::NetsshError;

fn ok(ip: &str, cmd: &str, out: &str) -> CommandResult {
    CommandResult::success(None, ip.to_string(), "r1".to_string(), "cisco_ios".to_string(), cmd.to_string(), out.to_string())
}

#[test]
fn constructors_set_status_and_parse_state() {
    let r = ok("10.0.0.1", "show clock", "12:00");
    assert_eq!(r.status, CommandStatus::Success);
    assert_eq!(r.parse_status, ParseStatus::NotAttempted);
    assert_eq!(r.output.as_ref().unwrap().as_raw(), Some("12:00"));
    assert!(!r.is_parsed());
    assert!(!r.parse_attempted());

    let f = CommandResult::success_with_parse_failure(None, "ip".into(), "h".into(), "p".into(), "c".into(), "o".into(), "bad".into());
    assert_eq!(f.status, CommandStatus::Failed);
    assert!(f.parse_attempted());
    assert_eq!(f.parse_error, Some("bad".to_string()));

    let t = CommandResult::timeout(None, "ip".into(), "h".into(), "p".into(), "c".into(), "slow".into());
    assert!(t.output.is_none());
    assert_eq!(t.error, Some("slow".to_string()));

    let n = CommandResult::success_with_no_template(None, "ip".into(), "h".into(), "p".into(), "c".into(), "o".into());
    assert_eq!(n.parse_status, ParseStatus::NoTemplate);
}

#[test]
fn errors_become_results() {
    let t = CommandResult::from_error(None, "ip".into(), "h".into(), "p".into(), "c".into(),
        NetsshError::timeout("read".to_string()), Some("partial".to_string()));
    assert_eq!(t.status, CommandStatus::Timeout);
    assert_eq!(t.output.unwrap().as_raw(), Some("partial"));

    let c = CommandResult::from_error(None, "ip".into(), "h".into(), "p".into(), "c".into(),
        NetsshError::CommandError("boom".to_string()), None);
    assert_eq!(c.status, CommandStatus::Failed);
    assert_eq!(c.error, Some("boom".to_string()));
    assert!(c.output.is_none());

    let w = CommandResult::from_error(None, "ip".into(), "h".into(), "p".into(), "c".into(),
        NetsshError::command_error_with_output("% Invalid".to_string(), "x\n% Invalid".to_string()), None);
    assert_eq!(w.error, Some("% Invalid".to_string()));
    assert_eq!(w.output.unwrap().as_raw(), Some("x\n% Invalid"));

    let o = CommandResult::from_error(None, "ip".into(), "h".into(), "p".into(), "c".into(),
        NetsshError::IoError("reset".to_string()), None);
    assert_eq!(o.error, Some("IO error: reset".to_string()));
}

#[test]
fn parse_options() {
    assert!(ParseOptions::enabled().enabled);
    assert!(!ParseOptions::default().enabled);
    assert_eq!(ParseOptions::with_template_dir("t".to_string()).template_dir, Some("t".to_string()));
    assert!(!CommandOutput::Raw("x".to_string()).is_parsed());
    assert_eq!(CommandOutput::Raw("x".to_string()).to_display_string(), "x");
}

#[test]
fn batch_counts_follow_results() {
    let mut b = BatchCommandResults::new();
    b.add_result(ok("10.0.0.1", "show clock", "a"));
    b.add_result(CommandResult::skipped(None, "10.0.0.1".into(), "r1".into(), "cisco_ios".into(), "show ver".into()));
    b.add_result(ok("10.0.0.2", "show clock", "a"));
    b.add_result(CommandResult::failure(None, "10.0.0.2".into(), "r2".into(), "cisco_ios".into(), "show ver".into(), String::new(), "e".into()));
    assert_eq!(b.device_count, 2);
    assert_eq!(b.command_count, 4);
    assert_eq!(b.success_count, 2);
    assert_eq!(b.failure_count, 1);
    assert_eq!(b.skipped_count, 1);
    assert_eq!(b.timeout_count, 0);
    assert_eq!(b.get_device_results("10.0.0.1").unwrap().len(), 2);
    assert!(b.get_device_results("10.0.0.9").is_none());
    let clocks = b.get_command_results("show clock");
    assert_eq!(clocks.len(), 2);
    assert_eq!(clocks[1].device_ip, "10.0.0.2");
    assert_eq!(b.successful_results().len(), 2);
    assert_eq!(b.failed_results().len(), 1);
    assert_eq!(b.skipped_results().len(), 1);
    assert_eq!(b.timeout_results().len(), 0);
}

#[test]
fn csv_escapes_commas_in_commands() {
    let mut b = BatchCommandResults::new();
    b.add_result(ok("10.0.0.1", "show a,b", "x"));
    assert_eq!(
        to_csv(&b),
        "device_ip,hostname,platform_type,command,status,parse_status\n10.0.0.1,r1,cisco_ios,show a\\,b,Success,NotAttempted\n"
    );
}

#[test]
fn table_lists_rows_and_summary() {
    let mut b = BatchCommandResults::new();
    b.add_result(ok("10.0.0.1", "show clock", "x"));
    let t = format_as_table(&b);
    let lines: Vec<&str> = t.lines().collect();
    assert_eq!(lines.len(), 6);
    assert_eq!(lines[3], "| 10.0.0.1        | r1              | show clock                     | SUCCESS | NOT_PARSED  |                  |");
    assert_eq!(lines[5], "Summary: 1 devices, 1 commands (1 success, 0 failed, 0 timeout, 0 skipped)");
}
