use rustwave::text::str_contains;
use rustwave::text::str_eq;
use rustwave::text::str_starts_with;
use rustwave::text::u64_to_string;
use rustwave::text::DurationFormat;
use rustwave::text::NumberFormat;

#[test]
fn decimal_rendering() {
    assert_eq!(u64_to_string(0), "0");
    assert_eq!(u64_to_string(7), "7");
    assert_eq!(u64_to_string(42), "42");
    assert_eq!(u64_to_string(1_000_000), "1000000");
    assert_eq!(u64_to_string(u64::MAX), "18446744073709551615");
}

#[test]
fn durations_render_as_minutes_and_seconds() {
    assert_eq!(0u64.format_as_mmss(), "00:00");
    assert_eq!(999u64.format_as_mmss(), "00:00");
    assert_eq!(1_000u64.format_as_mmss(), "00:01");
    assert_eq!(65_000u64.format_as_mmss(), "01:05");
    assert_eq!(600_000u64.format_as_mmss(), "10:00");
    // Minutes grow past two digits rather than wrapping.
    assert_eq!(7_265_000u64.format_as_mmss(), "121:05");
}

#[test]
fn counters_render_compactly() {
    assert_eq!(0u64.format_compact_number(), "0");
    assert_eq!(999u64.format_compact_number(), "999");
    assert_eq!(1_000u64.format_compact_number(), "1K");
    assert_eq!(1_500u64.format_compact_number(), "1.5K");
    // The tenths digit truncates and a zero tenth drops the point.
    assert_eq!(1_040u64.format_compact_number(), "1K");
    assert_eq!(1_950u64.format_compact_number(), "1.9K");
    assert_eq!(999_999u64.format_compact_number(), "999.9K");
    assert_eq!(1_000_000u64.format_compact_number(), "1M");
    assert_eq!(34_000_000u64.format_compact_number(), "34M");
    assert_eq!(2_500_000_000u64.format_compact_number(), "2.5B");
}

#[test]
fn compact_rendering_works_for_narrow_counters() {
    assert_eq!(1_500u32.format_compact_number(), "1.5K");
    assert_eq!(12u32.format_compact_number(), "12");
}

#[test]
fn substring_search() {
    assert!(str_contains("server said: invalid_grant", "invalid_grant"));
    assert!(str_contains("abc", ""));
    assert!(str_contains("abc", "abc"));
    assert!(!str_contains("abc", "abcd"));
    assert!(!str_contains("abc", "x"));
    assert!(str_contains("aab", "ab"));
}

#[test]
fn prefix_check_and_equality() {
    assert!(str_starts_with("error: nope", "error: "));
    assert!(!str_starts_with("err", "error: "));
    assert!(str_starts_with("anything", ""));
    assert!(str_eq("same", "same"));
    assert!(!str_eq("same", "sane"));
    assert!(!str_eq("same", "sam"));
}
