use netssh_core::config_run::{ConfigAction, ConfigSetRun, ConfigStage};
use netssh_core::error::NetsshError;

fn cmds(list: &[&str]) -> Vec<String> {
    list.iter().map(|s| s.to_string()).collect()
}

fn write_of(a: ConfigAction) -> String {
    match a {
        ConfigAction::Write(t) => t,
        other => panic!("expected a write, got {:?}", other),
    }
}

#[test]
fn verified_run_stops_at_rejected_command() {
    let mut run = ConfigSetRun::new(cmds(&["interface Gi0/1", "bogus", "never sent"]), true, Some("% Invalid"), None, false, true, true);
    assert!(matches!(run.next_action(), ConfigAction::EnterConfigMode));
    run.feed(Ok("router(config)#".to_string()));
    assert_eq!(write_of(run.next_action()), "interface Gi0/1\n");
    run.feed(Ok(String::new()));
    match run.next_action() {
        ConfigAction::ReadEcho(p) => assert_eq!(p, "interface Gi0/1"),
        other => panic!("unexpected {:?}", other),
    }
    run.feed(Ok("interface Gi0/1\n".to_string()));
    assert_eq!(write_of(run.next_action()), "bogus\n");
    run.feed(Ok(String::new()));
    run.feed(Ok("bogus\n% Invalid input detected\n".to_string()));
    assert_eq!(run.stage(), ConfigStage::Done);
    assert!(matches!(run.next_action(), ConfigAction::Done));
    match run.finish(false, false, None) {
        Err(NetsshError::ConfigError(m)) => assert_eq!(m, "Invalid input detected at command: bogus"),
        other => panic!("unexpected {:?}", other),
    }
}

#[test]
fn fast_run_writes_all_then_reads_once() {
    let mut run = ConfigSetRun::new(cmds(&["  a ", "b"]), true, None, None, true, true, true);
    assert!(matches!(run.next_action(), ConfigAction::EnterConfigMode));
    run.feed(Ok("conf\n".to_string()));
    assert_eq!(write_of(run.next_action()), "a\n");
    run.feed(Ok(String::new()));
    assert_eq!(write_of(run.next_action()), "b\n");
    run.feed(Ok(String::new()));
    assert!(matches!(run.next_action(), ConfigAction::ReadTiming));
    run.feed(Ok("a\nb\n".to_string()));
    assert!(matches!(run.next_action(), ConfigAction::ExitConfigMode));
    run.feed(Ok("end\n".to_string()));
    assert!(matches!(run.next_action(), ConfigAction::Done));
    let out = run.finish(false, false, None).unwrap();
    assert!(out.contains("conf"));
    assert!(out.contains("end"));
}

#[test]
fn unverified_run_with_error_pattern_reads_after_each_command() {
    let mut run = ConfigSetRun::new(cmds(&["x", "y"]), false, Some("% Error"), None, false, false, false);
    assert_eq!(write_of(run.next_action()), "x\n");
    run.feed(Ok(String::new()));
    assert!(matches!(run.next_action(), ConfigAction::Pause));
    run.feed(Ok(String::new()));
    assert!(matches!(run.next_action(), ConfigAction::ReadTiming));
    run.feed(Ok("x\n".to_string()));
    assert_eq!(write_of(run.next_action()), "y\n");
    run.feed(Ok(String::new()));
    run.feed(Ok(String::new()));
    run.feed(Ok("y\n".to_string()));
    assert!(matches!(run.next_action(), ConfigAction::Done));
    assert!(run.finish(false, false, None).is_ok());
}

#[test]
fn run_without_commands_does_nothing() {
    let run = ConfigSetRun::new(Vec::new(), true, None, None, false, true, true);
    assert!(matches!(run.next_action(), ConfigAction::Done));
    assert_eq!(run.finish(true, true, Some("router")).unwrap(), "");
}

#[test]
fn failed_action_ends_run_with_its_error() {
    let mut run = ConfigSetRun::new(cmds(&["x"]), true, None, None, false, true, true);
    run.feed(Err(NetsshError::ConfigError("cannot enter".to_string())));
    assert!(matches!(run.next_action(), ConfigAction::Done));
    match run.finish(false, false, None) {
        Err(NetsshError::ConfigError(m)) => assert_eq!(m, "cannot enter"),
        other => panic!("unexpected {:?}", other),
    }
}

#[test]
fn failed_echo_read_is_not_an_error() {
    let mut run = ConfigSetRun::new(cmds(&["x"]), true, None, None, false, false, false);
    assert_eq!(write_of(run.next_action()), "x\n");
    run.feed(Ok(String::new()));
    run.feed(Err(NetsshError::TimeoutError("no echo".to_string())));
    assert!(matches!(run.next_action(), ConfigAction::Done));
    assert!(run.finish(false, false, None).is_ok());
}
