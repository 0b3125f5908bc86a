use netssh_core::text::{lines_of, truncate, trim_str, usize_to_string};

#[test]
fn trims_unicode_white_space() {
    assert_eq!(trim_str("  \t router#\r\n"), "router#");
    assert_eq!(trim_str("\u{3000}x\u{a0}"), "x");
    assert_eq!(trim_str("   "), "");
}

#[test]
fn splits_lines_like_str_lines() {
    assert_eq!(lines_of("a\r\nb\n\nc"), vec!["a", "b", "", "c"]);
    assert_eq!(lines_of("a\n"), vec!["a"]);
    assert_eq!(lines_of(""), Vec::<String>::new());
    assert_eq!(lines_of("x\r"), vec!["x\r"]);
}

#[test]
fn truncates_by_bytes_with_ellipsis() {
    assert_eq!(truncate("192.168.100.200", 15), "192.168.100.200");
    assert_eq!(truncate("192.168.100.2001", 15), "192.168.100....");
    assert_eq!(truncate("show running-config interface GigabitEthernet0/0", 30), "show running-config interfa...");
}

#[test]
fn writes_numbers_in_decimal() {
    assert_eq!(usize_to_string(0), "0");
    assert_eq!(usize_to_string(7), "7");
    assert_eq!(usize_to_string(1024), "1024");
}
