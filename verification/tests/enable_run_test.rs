use netssh_core::enable_run::{EnableAction, EnableEvent, EnableRun};
use netssh_core::error::NetsshError;

fn read_pattern(a: EnableAction) -> String {
    match a {
        EnableAction::ReadUntil(p) => p,
        other => panic!("expected a read, got {:?}", other),
    }
}

#[test]
fn enable_answers_password_with_secret() {
    let mut run = EnableRun::new("enable", "assword", None, Some("s3cret"), Some("router"), true);
    assert!(matches!(run.next_action(), EnableAction::CheckEnableMode));
    run.feed(EnableEvent::Checked(false));
    match run.next_action() {
        EnableAction::Write(t) => assert_eq!(t, "enable\n"),
        other => panic!("unexpected {:?}", other),
    }
    run.feed(EnableEvent::Wrote);
    assert_eq!(read_pattern(run.next_action()), "enable");
    run.feed(EnableEvent::Read("enable\n".to_string()));
    assert_eq!(read_pattern(run.next_action()), "(?:assword|router)");
    run.feed(EnableEvent::Read("Password: ".to_string()));
    match run.next_action() {
        EnableAction::Write(t) => assert_eq!(t, "s3cret\n"),
        other => panic!("unexpected {:?}", other),
    }
    run.feed(EnableEvent::Wrote);
    assert!(matches!(run.next_action(), EnableAction::ReadUntilPrompt));
    run.feed(EnableEvent::Read("\nrouter#".to_string()));
    assert!(matches!(run.next_action(), EnableAction::CheckEnableMode));
    run.feed(EnableEvent::Checked(true));
    assert!(matches!(run.next_action(), EnableAction::Done));
    assert_eq!(run.finish().unwrap(), "enable\nPassword: \nrouter#");
}

#[test]
fn enable_already_on_does_nothing() {
    let mut run = EnableRun::new("enable", "assword", None, None, None, true);
    run.feed(EnableEvent::Checked(true));
    assert!(matches!(run.next_action(), EnableAction::Done));
    assert_eq!(run.finish().unwrap(), "");
}

#[test]
fn enable_without_secret_fails() {
    let mut run = EnableRun::new("enable", "assword", None, None, None, false);
    run.feed(EnableEvent::Wrote);
    run.feed(EnableEvent::Failed(NetsshError::TimeoutError("no echo".to_string())));
    run.feed(EnableEvent::Read("Password:".to_string()));
    match run.finish() {
        Err(NetsshError::AuthenticationError(m)) => assert_eq!(m, "Enable password required but not provided"),
        other => panic!("unexpected {:?}", other),
    }
}

#[test]
fn enable_still_off_fails() {
    let mut run = EnableRun::new("enable", "assword", Some("#"), Some("x"), None, false);
    run.feed(EnableEvent::Wrote);
    run.feed(EnableEvent::Read("enable\n".to_string()));
    run.feed(EnableEvent::Read("router>".to_string()));
    assert_eq!(read_pattern(run.next_action()), "#");
    run.feed(EnableEvent::Read("router>".to_string()));
    assert!(matches!(run.next_action(), EnableAction::CheckEnableMode));
    run.feed(EnableEvent::Checked(false));
    match run.finish() {
        Err(NetsshError::AuthenticationError(m)) => assert_eq!(m, "Failed to enter enable mode"),
        other => panic!("unexpected {:?}", other),
    }
}
