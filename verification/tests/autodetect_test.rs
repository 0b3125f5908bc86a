use netssh_core::autodetect::{
    check_patterns, create_device_mapper, driver_for, select_best_match, DetectAction, DetectSession,
};
use netssh_core::keyed::KeyedList;

#[test]
fn test_create_device_mapper() {
    let mapper = create_device_mapper();

    assert!(mapper.contains_key("cisco_ios"));
    assert!(mapper.contains_key("cisco_xe"));
    assert!(mapper.contains_key("cisco_xr"));
    assert!(mapper.contains_key("cisco_nxos"));
    assert!(mapper.contains_key("cisco_asa"));
    assert!(mapper.contains_key("juniper_junos"));
    assert!(mapper.contains_key("f5_tmsh"));
    assert!(mapper.contains_key("hp_comware"));
    assert!(mapper.contains_key("huawei"));
    assert!(mapper.contains_key("linux"));
    assert!(mapper.contains_key("fortinet"));

    let cisco_ios = mapper.get("cisco_ios").unwrap();
    assert_eq!(cisco_ios.cmd, "show version");
    assert!(cisco_ios.search_patterns.contains(&r"Cisco IOS Software".to_string()));

    let cisco_wlc = mapper.get("cisco_wlc").unwrap();
    assert_eq!(cisco_wlc.cmd, "");
    assert_eq!(cisco_wlc.dispatch, Some("remote_version".to_string()));
    assert!(cisco_wlc.search_patterns.contains(&r"CISCO_WLC".to_string()));
}

#[test]
fn test_check_patterns() {
    let response = "Cisco IOS Software, C2600 Software (C2600-ADVENTERPRISEK9-M), Version 12.4(15)T14, RELEASE SOFTWARE (fc2)";
    let patterns = vec![r"Cisco IOS Software".to_string()];
    let invalid_patterns = [r"% Invalid input detected"];

    let result = check_patterns(response, &patterns, &invalid_patterns, 95).unwrap();
    assert_eq!(result, 95);

    let error_response = "% Invalid input detected at '^' marker.";
    let result = check_patterns(error_response, &patterns, &invalid_patterns, 95).unwrap();
    assert_eq!(result, 0);

    let no_match_response = "JunOS 12.1R1.9";
    let result = check_patterns(no_match_response, &patterns, &invalid_patterns, 95).unwrap();
    assert_eq!(result, 0);
}

#[test]
fn test_special_case_handling() {
    let mut matches: KeyedList<u8> = KeyedList::new();
    matches.insert("cisco_wlc_85".to_string(), 99);
    let best_match = select_best_match(&matches);
    assert_eq!(best_match, Some("cisco_wlc".to_string()));

    let mut matches: KeyedList<u8> = KeyedList::new();
    matches.insert("cisco_xr_2".to_string(), 99);
    let best_match = select_best_match(&matches);
    assert_eq!(best_match, Some("cisco_xr".to_string()));
}

#[test]
fn mapper_has_every_driver_once() {
    let mapper = create_device_mapper();
    assert_eq!(mapper.len(), 43);
    assert_eq!(mapper.get("cisco_ios").unwrap().priority, 95);
    assert_eq!(mapper.get("paloalto_panos").unwrap().search_patterns, vec![r"model:\s+PA".to_string()]);
    assert!(mapper.get("no_such_driver").is_none());
}

#[test]
fn driver_names_of_aliases() {
    assert_eq!(driver_for("cisco_wlc_85"), "cisco_wlc");
    assert_eq!(driver_for("cisco_xr_2"), "cisco_xr");
    assert_eq!(driver_for("arista_eos"), "arista_eos");
}

#[test]
fn best_match_prefers_highest_then_latest() {
    let mut matches: KeyedList<u8> = KeyedList::new();
    matches.insert("cisco_ios".to_string(), 95);
    matches.insert("linux".to_string(), 50);
    assert_eq!(select_best_match(&matches), Some("cisco_ios".to_string()));
    matches.insert("arista_eos".to_string(), 95);
    assert_eq!(select_best_match(&matches), Some("arista_eos".to_string()));
    let empty: KeyedList<u8> = KeyedList::new();
    assert_eq!(select_best_match(&empty), None);
}

fn run_session(reply_to: impl Fn(&str) -> Option<String>, banner: Option<String>) -> (Option<String>, Vec<String>) {
    let mut session = DetectSession::new();
    let mut sent = Vec::new();
    loop {
        match session.next_action() {
            DetectAction::Skip | DetectAction::UseCached => session.feed(None),
            DetectAction::AskRemoteVersion => session.feed(banner.clone()),
            DetectAction::Send(cmd) => {
                sent.push(cmd.clone());
                let reply = reply_to(&cmd);
                session.feed(reply);
            }
            DetectAction::Finished(r) => return (r, sent),
        }
    }
}

#[test]
fn session_detects_arista_and_stops() {
    let (result, sent) = run_session(
        |cmd| if cmd == "show version" { Some("Arista DCS-7050 vEOS".to_string()) } else { None },
        None,
    );
    assert_eq!(result, Some("arista_eos".to_string()));
    assert_eq!(sent.iter().filter(|c| c.as_str() == "show version").count(), 1);
}

#[test]
fn session_falls_back_to_best_lower_score() {
    let (result, sent) = run_session(
        |cmd| if cmd == "show version" { Some("Cisco IOS Software, Version 15.2".to_string()) } else { None },
        None,
    );
    assert_eq!(result, Some("cisco_ios".to_string()));
    assert_eq!(sent.iter().filter(|c| c.as_str() == "show version").count(), 1);
}

#[test]
fn session_uses_the_banner_for_wlc() {
    let (result, _) = run_session(|_| None, Some("SSH-2.0-CISCO_WLC".to_string()));
    assert_eq!(result, Some("cisco_wlc".to_string()));
}

#[test]
fn session_without_any_match_finds_nothing() {
    let (result, _) = run_session(|_| Some("% Invalid input detected".to_string()), Some(String::new()));
    assert_eq!(result, None);
}
