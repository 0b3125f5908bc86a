use netssh_core::command_result::{BatchCommandResults, CommandResult, CommandStatus};
use netssh_core::parallel_execution::{
    command_timeout_for, gather_device_results, unreachable_device_results, CommandOutcome, DeviceRun,
    FailureStrategy, ParallelExecutionConfig,
};
use std::time::Duration;

fn run(strategy: FailureStrategy, outcomes: Vec<CommandOutcome>) -> Vec<CommandResult> {
    let commands: Vec<String> = (0..outcomes.len()).map(|i| format!("cmd{}", i)).collect();
    let mut run = DeviceRun::new("10.0.0.1".to_string(), "cisco_ios".to_string(), commands, strategy);
    let mut outcomes = outcomes.into_iter();
    while let Some(_cmd) = run.next_command() {
        run.record(outcomes.next().unwrap());
    }
    assert!(run.is_done());
    run.into_results()
}

#[test]
fn config_defaults_and_setters() {
    let mut c = ParallelExecutionConfig::default();
    assert_eq!(c.max_concurrent_devices, 10);
    assert_eq!(c.failure_strategy, FailureStrategy::SkipDevice);
    assert_eq!(c.command_timeout, Duration::from_secs(30));
    assert!(!c.stop_on_first_failure);
    c.set_reuse_connections(false);
    assert!(c.stop_on_first_failure);
    assert!(c.reuse_connection());
    c.set_max_concurrency(3);
    c.set_failure_strategy(FailureStrategy::AbortBatch);
    c.set_command_timeout(Duration::from_secs(5));
    assert_eq!(c.max_concurrent_devices, 3);
    assert_eq!(c.failure_strategy, FailureStrategy::AbortBatch);
    assert_eq!(c.command_timeout, Duration::from_secs(5));
}

#[test]
fn device_timeout_wins() {
    assert_eq!(command_timeout_for(Some(Duration::from_secs(2)), Duration::from_secs(30)), Duration::from_secs(2));
    assert_eq!(command_timeout_for(None, Duration::from_secs(30)), Duration::from_secs(30));
}

#[test]
fn skip_device_skips_after_failure() {
    let r = run(FailureStrategy::SkipDevice, vec![
        CommandOutcome::Output("a".into()),
        CommandOutcome::Error("boom".into()),
        CommandOutcome::Output("never".into()),
        CommandOutcome::Output("never".into()),
    ]);
    let statuses: Vec<CommandStatus> = r.iter().map(|x| x.status).collect();
    assert_eq!(statuses, vec![CommandStatus::Success, CommandStatus::Failed, CommandStatus::Skipped, CommandStatus::Skipped]);
    assert_eq!(r[1].error, Some("Command execution error: boom".to_string()));
    assert_eq!(r[3].command, "cmd3");
}

#[test]
fn continue_on_device_runs_everything() {
    let r = run(FailureStrategy::ContinueOnDevice, vec![
        CommandOutcome::TimedOut,
        CommandOutcome::Output("b".into()),
    ]);
    assert_eq!(r[0].status, CommandStatus::Timeout);
    assert_eq!(r[1].status, CommandStatus::Success);
}

#[test]
fn unreachable_devices_fail_every_command() {
    let cmds = vec!["a".to_string(), "b".to_string()];
    let r = unreachable_device_results("h", "cisco_ios", &cmds, "Failed to connect: ", "refused");
    assert_eq!(r.len(), 2);
    assert_eq!(r[1].command, "b");
    assert_eq!(r[0].error, Some("Failed to connect: refused".to_string()));
}

#[test]
fn abort_batch_stops_at_first_failure() {
    let mut batch = BatchCommandResults::new();
    let results = run(FailureStrategy::AbortBatch, vec![
        CommandOutcome::Output("a".into()),
        CommandOutcome::Error("x".into()),
        CommandOutcome::Output("c".into()),
    ]);
    let g = gather_device_results(&mut batch, results, FailureStrategy::AbortBatch);
    assert!(g.stop_all);
    assert!(g.has_failures);
    assert_eq!(batch.command_count, 2);

    let mut batch = BatchCommandResults::new();
    let results = run(FailureStrategy::SkipDevice, vec![CommandOutcome::Error("x".into()), CommandOutcome::Output("c".into())]);
    let g = gather_device_results(&mut batch, results, FailureStrategy::SkipDevice);
    assert!(!g.stop_all);
    assert!(g.has_failures);
    assert_eq!(batch.command_count, 2);
    assert_eq!(batch.skipped_count, 1);
}
