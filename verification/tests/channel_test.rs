use netssh_core::channel::{
    decode_chunk, process_read, prompt_result, read_needs_more, timing_timeout_error, ChannelDrain, DrainStep,
    PromptProbe, ProbeStep,
};
use netssh_core::error::NetsshError;
use netssh_core::retry::{is_timeout_error, RetryDecision, TimeoutRetry};
use netssh_core::session::ChannelRead;
use netssh_core::text::u64_to_string;

fn data(s: &str) -> ChannelRead {
    ChannelRead::Data(s.as_bytes().to_vec())
}

#[test]
fn drain_stops_at_prompt_terminator() {
    let mut d = ChannelDrain::for_read();
    assert_eq!(d.step(data("show ver")), DrainStep::ReadAgain);
    assert_eq!(d.step(ChannelRead::NoData), DrainStep::WaitThenRead);
    assert_eq!(d.step(data("sion\nrouter#")), DrainStep::Finished);
    assert_eq!(d.into_output(), "show version\nrouter#");
}

#[test]
fn drain_stops_at_password_prompt() {
    let mut d = ChannelDrain::for_read();
    assert_eq!(d.step(data("Pass")), DrainStep::ReadAgain);
    assert_eq!(d.step(data("word:")), DrainStep::Finished);
    assert_eq!(d.output(), "Password:");
}

#[test]
fn drain_stops_at_its_own_pattern() {
    let mut d = ChannelDrain::new("[confirm]");
    assert_eq!(d.step(data("Proceed? [confirm]")), DrainStep::Finished);
    let mut d = ChannelDrain::new("yes");
    assert_eq!(d.step(data("Proceed? [y/n]")), DrainStep::ReadAgain);
}

#[test]
fn drain_without_data_ends_at_once() {
    let mut d = ChannelDrain::for_read();
    assert_eq!(d.step(ChannelRead::NoData), DrainStep::Finished);
    assert_eq!(d.output(), "");
    let mut d = ChannelDrain::for_read();
    assert_eq!(d.step(data("abc")), DrainStep::ReadAgain);
    assert_eq!(d.step(ChannelRead::Closed), DrainStep::Finished);
    assert_eq!(d.output(), "abc");
    let mut d = ChannelDrain::for_read();
    assert_eq!(d.step(data("abc")), DrainStep::ReadAgain);
    assert_eq!(d.step(ChannelRead::Failed("broken pipe".to_string())), DrainStep::Finished);
    assert_eq!(d.into_output(), "abc");
}

#[test]
fn drain_decodes_invalid_bytes_lossily() {
    let mut d = ChannelDrain::for_read();
    assert_eq!(d.step(ChannelRead::Data(vec![b'a', 0xff, b'b'])), DrainStep::ReadAgain);
    assert_eq!(d.output(), "a\u{FFFD}b");
    assert_eq!(decode_chunk(&vec![0xe2, 0x82, 0xac]), "\u{20AC}");
}

#[test]
fn block_ending_in_carriage_return_needs_more() {
    assert!(read_needs_more("line one\nline two\r"));
    assert!(!read_needs_more("no line feed\r"));
    assert!(!read_needs_more("line one\nline two"));
    assert!(!read_needs_more(""));
}

#[test]
fn read_block_is_cleaned() {
    assert_eq!(process_read("a\r\nb\r\n".to_string(), true, false), "a\nb\n");
    assert_eq!(process_read("a\r\nb".to_string(), false, false), "a\r\nb");
    assert_eq!(process_read("\u{1b}[31mred\u{1b}[0m\r\n".to_string(), true, true), "red\n");
    assert_eq!(process_read("\u{1b}[1mbold".to_string(), false, true), "bold");
    assert_eq!(process_read(String::new(), true, true), "");
}

#[test]
fn timing_timeout_message_names_the_seconds() {
    match timing_timeout_error(120) {
        NetsshError::TimeoutError(m) => {
            assert!(m.starts_with("\nread_channel_timing's absolute timer expired.\n\n"));
            assert!(m.contains("for longer than 120 seconds.\n\n"));
            assert!(m.ends_with("You can look at the session_log or debug log for more information.\n"));
        }
        other => panic!("unexpected error {:?}", other),
    }
    assert_eq!(u64_to_string(0), "0");
    assert_eq!(u64_to_string(18446744073709551615), "18446744073709551615");
}

#[test]
fn timeouts_are_retried_with_doubling_pause() {
    let timeout = NetsshError::TimeoutError("slow".to_string());
    let mut r = TimeoutRetry::new(3);
    assert_eq!(r.on_error_with(&timeout, 7), RetryDecision::Retry { sleep_ms: 107 });
    assert_eq!(r.on_error_with(&timeout, 60), RetryDecision::Retry { sleep_ms: 210 });
    assert_eq!(r.on_error_with(&NetsshError::Timeout { action: "reading".to_string() }, 49), RetryDecision::Retry { sleep_ms: 449 });
    assert_eq!(r.on_error_with(&timeout, 0), RetryDecision::GiveUp);
}

#[test]
fn pause_is_capped() {
    let timeout = NetsshError::TimeoutError("slow".to_string());
    let mut r = TimeoutRetry::new(10);
    let mut pauses = Vec::new();
    for _ in 0..8 {
        match r.on_error_with(&timeout, 0) {
            RetryDecision::Retry { sleep_ms } => pauses.push(sleep_ms),
            RetryDecision::GiveUp => panic!("gave up too early"),
        }
    }
    assert_eq!(pauses, vec![100, 200, 400, 800, 1600, 3200, 5000, 5000]);
}

#[test]
fn other_errors_are_not_retried() {
    let mut r = TimeoutRetry::new(5);
    assert_eq!(r.on_error_with(&NetsshError::ReadError("x".to_string()), 3), RetryDecision::GiveUp);
    assert!(!is_timeout_error(&NetsshError::ConnectionError("down".to_string())));
    assert!(is_timeout_error(&NetsshError::TimeoutError("t".to_string())));
    let mut none = TimeoutRetry::new(0);
    assert_eq!(none.on_error(&NetsshError::TimeoutError("t".to_string())), RetryDecision::GiveUp);
}

#[test]
fn random_jitter_stays_in_range() {
    for _ in 0..20 {
        let mut r = TimeoutRetry::new(1);
        match r.on_error(&NetsshError::TimeoutError("t".to_string())) {
            RetryDecision::Retry { sleep_ms } => assert!((100..150).contains(&sleep_ms)),
            RetryDecision::GiveUp => panic!("a timeout with a retry left is retried"),
        }
    }
}

#[test]
fn prompt_read_at_once_needs_no_probe() {
    let probe = PromptProbe::new("  router1#  \n", 250);
    match probe.next() {
        ProbeStep::Done(Ok(p)) => assert_eq!(p, "router1#"),
        other => panic!("unexpected step {:?}", other),
    }
}

#[test]
fn prompt_probes_back_off() {
    let mut probe = PromptProbe::new("", 250);
    let mut pauses = Vec::new();
    loop {
        match probe.next() {
            ProbeStep::Probe { sleep_ms } => {
                pauses.push(sleep_ms);
                probe.feed(Ok("\r\n".to_string())).unwrap();
            }
            ProbeStep::Done(r) => {
                match r {
                    Err(NetsshError::PromptError(m)) => assert_eq!(m, "Unable to find prompt"),
                    other => panic!("unexpected outcome {:?}", other),
                }
                break;
            }
        }
    }
    assert_eq!(
        pauses,
        vec![250, 500, 1000, 2000, 4000, 5000, 6000, 7000, 8000, 9000, 10000, 11000, 12000]
    );
}

#[test]
fn prompt_probe_stops_on_answer_and_on_errors() {
    let mut probe = PromptProbe::new("", 100);
    probe.feed(Err(NetsshError::TimeoutError("slow".to_string()))).unwrap();
    match probe.next() {
        ProbeStep::Probe { sleep_ms } => assert_eq!(sleep_ms, 200),
        other => panic!("unexpected step {:?}", other),
    }
    probe.feed(Ok("switch> ".to_string())).unwrap();
    match probe.next() {
        ProbeStep::Done(Ok(p)) => assert_eq!(p, "switch>"),
        other => panic!("unexpected step {:?}", other),
    }
    let mut probe = PromptProbe::new("", 100);
    match probe.feed(Err(NetsshError::ReadError("gone".to_string()))) {
        Err(NetsshError::ReadError(m)) => assert_eq!(m, "gone"),
        other => panic!("unexpected outcome {:?}", other),
    }
    assert!(matches!(prompt_result(String::new()), Err(NetsshError::PromptError(_))));
    assert_eq!(prompt_result("r1#".to_string()).unwrap(), "r1#");
}
