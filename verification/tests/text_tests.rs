use now_playing::config::Config;
use now_playing::text::{format_time, join_strings, push_decimal, truncate_label};

#[test]
fn format_time_zero() {
    assert_eq!(format_time(0), "0:00");
}

#[test]
fn format_time_pads_seconds() {
    assert_eq!(format_time(5_000_000), "0:05");
    assert_eq!(format_time(61_000_000), "1:01");
}

#[test]
fn format_time_drops_fractions_of_a_second() {
    assert_eq!(format_time(59_999_999), "0:59");
    assert_eq!(format_time(3_599_999_999), "59:59");
}

#[test]
fn format_time_counts_minutes_past_an_hour() {
    assert_eq!(format_time(3_600_000_000), "60:00");
    assert_eq!(format_time(7_384_000_000), "123:04");
}

#[test]
fn format_time_largest_value() {
    // u64::MAX microseconds is 18446744073709 s = 307445734561 min 49 s.
    assert_eq!(format_time(u64::MAX), "307445734561:49");
}

#[test]
fn push_decimal_appends_digits() {
    let mut s = String::from("year ");
    push_decimal(&mut s, 1999);
    assert_eq!(s, "year 1999");
    let mut z = String::new();
    push_decimal(&mut z, 0);
    assert_eq!(z, "0");
}

#[test]
fn truncate_label_keeps_short_text() {
    assert_eq!(truncate_label("hello", 10), "hello");
    assert_eq!(truncate_label("abc", 3), "abc");
    assert_eq!(truncate_label("", 0), "");
}

#[test]
fn truncate_label_cuts_long_text_with_ellipsis() {
    assert_eq!(truncate_label("hello world", 5), "hello\u{2026}");
    assert_eq!(truncate_label("ab", 0), "\u{2026}");
}

#[test]
fn truncate_label_counts_characters_not_bytes() {
    assert_eq!(truncate_label("h\u{e9}llo", 2), "h\u{e9}\u{2026}");
    assert_eq!(truncate_label("\u{e9}\u{e9}\u{e9}", 3), "\u{e9}\u{e9}\u{e9}");
}

#[test]
fn truncated_label_never_exceeds_limit_plus_ellipsis() {
    let text = "The quick brown fox jumps over the lazy dog";
    for max in 0..50usize {
        let cut = truncate_label(text, max);
        assert!(cut.chars().count() <= max + 1);
        let kept: String = text.chars().take(max).collect();
        assert!(cut.starts_with(&kept));
    }
}

#[test]
fn join_strings_separates_items() {
    let items = vec!["A".to_string(), "B".to_string(), "C".to_string()];
    assert_eq!(join_strings(&items, ", "), "A, B, C");
    assert_eq!(join_strings(&vec!["Solo".to_string()], ", "), "Solo");
    assert_eq!(join_strings(&Vec::new(), ", "), "");
}

#[test]
fn config_default_values() {
    let c = Config::default();
    assert_eq!(c.panel_label_max_length, 30);
    assert!(!c.track_first);
}
