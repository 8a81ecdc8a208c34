use countersyncd::clock::format_timestamp;
use countersyncd::text::{chars_less, concat2, concat3, decimal_string, str_eq};

#[test]
fn decimal_text() {
    assert_eq!(decimal_string(0), "0");
    assert_eq!(decimal_string(1234567890), "1234567890");
    assert_eq!(decimal_string(u64::MAX), "18446744073709551615");
}

#[test]
fn text_joins_and_compares() {
    assert_eq!(concat2("ab", "cd"), "abcd");
    assert_eq!(concat3("a", "", "é"), "aé");
    assert!(str_eq("héllo", "héllo"));
    assert!(!str_eq("a", "ab"));
    let a: Vec<char> = "Ethernet10".chars().collect();
    let b: Vec<char> = "Ethernet9".chars().collect();
    assert!(chars_less(&a, &b));
    assert!(!chars_less(&b, &a));
    assert!(chars_less(&[], &['a']));
    assert!(!chars_less(&['a'], &['a']));
    assert!(chars_less(&['a'], &['a', 'b']));
    assert!(chars_less(&['z'], &['é']));
}

#[test]
fn timestamps_as_calendar_text() {
    assert_eq!(format_timestamp(0), "1970-01-01 00:00:00.000000000 UTC");
    assert_eq!(format_timestamp(1_700_000_000_123_456_789), "2023-11-14 22:13:20.123456789 UTC");
}
