use netssh_core::error::NetsshError;
use netssh_core::juniper::{
    commit_result, juniper_base_prompt, juniper_config_entered, juniper_config_exited, juniper_in_config_mode,
    JunosConfigRun, JunosStep,
};

#[test]
fn junos_prompt_is_the_last_prompt_line() {
    assert_eq!(juniper_base_prompt("\r\nadmin@mx1> "), "admin@mx1");
    assert_eq!(juniper_base_prompt("set cli screen-length 0\nScreen length set to 0\n\n{master:0}\nadmin@mx1# "), "admin@mx1");
    assert_eq!(juniper_base_prompt("root@srx% \n"), "root@srx");
    assert_eq!(juniper_base_prompt("a#b>c\nno prompt here\n"), "a#b");
    assert_eq!(juniper_base_prompt("nothing to see"), "juniper");
    assert_eq!(juniper_base_prompt(""), "juniper");
}

#[test]
fn junos_config_mode_is_seen_on_any_line() {
    assert!(juniper_in_config_mode("[edit]\nadmin@mx1# \n"));
    assert!(juniper_in_config_mode("admin@mx1#"));
    assert!(!juniper_in_config_mode("admin@mx1> \n"));
    assert!(!juniper_in_config_mode("# comment then text\n"));
    assert!(!juniper_in_config_mode(""));
}

#[test]
fn junos_config_mode_changes_are_checked() {
    assert!(juniper_config_entered("configure\nEntering configuration mode\n[edit]\nadmin@mx1# ").is_ok());
    match juniper_config_entered("error: permission denied") {
        Err(NetsshError::CommandError(m)) => assert_eq!(m, "Failed to enter config mode"),
        other => panic!("unexpected {:?}", other),
    }
    assert!(juniper_config_exited("Exiting configuration mode\n\nadmin@mx1> \n").is_ok());
    match juniper_config_exited("admin@mx1# ") {
        Err(NetsshError::CommandError(m)) => assert_eq!(m, "Failed to exit config mode"),
        other => panic!("unexpected {:?}", other),
    }
}

#[test]
fn commit_failures_are_detected() {
    assert_eq!(commit_result("commit complete".to_string()).unwrap(), "commit complete");
    assert_eq!(commit_result("error: none\nconfiguration not changed".to_string()).unwrap(), "error: none\nconfiguration not changed");
    match commit_result("error: commit failed: (statements constraint check failed)".to_string()) {
        Err(NetsshError::CommandErrorWithOutput { error_msg, output }) => {
            assert_eq!(error_msg, "Failed to commit configuration");
            assert_eq!(output, "error: commit failed: (statements constraint check failed)");
        }
        other => panic!("unexpected {:?}", other),
    }
    assert!(commit_result("Error in uppercase only".to_string()).is_ok());
}

#[test]
fn junos_run_that_succeeds() {
    let mut run = JunosConfigRun::new();
    assert_eq!(run.next_step(), JunosStep::SendConfig);
    run.feed(Ok("set system host-name mx1\n".to_string()));
    assert_eq!(run.next_step(), JunosStep::Commit);
    run.feed(Ok("commit complete\n".to_string()));
    assert_eq!(run.next_step(), JunosStep::ExitConfig);
    run.feed(Err(NetsshError::CommandError("ignored".to_string())));
    assert_eq!(run.next_step(), JunosStep::Done);
    assert_eq!(run.finish().unwrap(), "set system host-name mx1\ncommit complete\n");
}

#[test]
fn junos_run_rolls_back_a_failed_commit() {
    let mut run = JunosConfigRun::new();
    run.feed(Ok("out".to_string()));
    run.feed(Err(NetsshError::command_error_with_output("Failed to commit configuration".to_string(), "error".to_string())));
    assert_eq!(run.next_step(), JunosStep::Rollback);
    run.feed(Ok("load complete".to_string()));
    assert_eq!(run.next_step(), JunosStep::ExitConfig);
    run.feed(Ok(String::new()));
    match run.finish() {
        Err(NetsshError::CommandErrorWithOutput { error_msg, output }) => {
            assert_eq!(error_msg, "Configuration command(s) failed");
            assert_eq!(output, "outload complete");
        }
        other => panic!("unexpected {:?}", other),
    }
}

#[test]
fn junos_run_rolls_back_failed_commands() {
    let mut run = JunosConfigRun::new();
    run.feed(Err(NetsshError::command_error_with_output("bad".to_string(), "syntax error".to_string())));
    assert_eq!(run.next_step(), JunosStep::Rollback);
    run.feed(Ok("load complete".to_string()));
    run.feed(Ok(String::new()));
    match run.finish() {
        Err(NetsshError::CommandErrorWithOutput { output, .. }) => assert_eq!(output, "syntax error\nload complete"),
        other => panic!("unexpected {:?}", other),
    }
    let mut run = JunosConfigRun::new();
    run.feed(Err(NetsshError::ReadError("gone".to_string())));
    run.feed(Err(NetsshError::ReadError("still gone".to_string())));
    run.feed(Ok(String::new()));
    match run.finish() {
        Err(NetsshError::CommandErrorWithOutput { output, .. }) => assert_eq!(output, ""),
        other => panic!("unexpected {:?}", other),
    }
}
