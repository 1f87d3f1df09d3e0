//! Timestamps and calendar days.

use cship_usage::calendar::civil_to_days;
use cship_usage::text::{
    all_digits, chars, is_text, parse_plain, parse_unsigned, push_decimal, same_text,
};
use cship_usage::timestamp::iso8601_to_epoch;

#[test]
fn epoch_starts_in_1970() {
    assert_eq!(iso8601_to_epoch("1970-01-01T00:00:00Z"), Some(0));
    assert_eq!(iso8601_to_epoch("1970-01-01T00:00:01Z"), Some(1));
    assert_eq!(iso8601_to_epoch("1969-12-31T23:59:59Z"), None);
}

#[test]
fn leap_days_are_counted() {
    assert_eq!(iso8601_to_epoch("2024-02-29T12:34:56Z"), Some(1_709_210_096));
    assert_eq!(iso8601_to_epoch("2024-03-01T00:00:00Z"), Some(1_709_251_200));
    assert_eq!(civil_to_days(2000, 3, 1) - civil_to_days(2000, 2, 28), 2);
    assert_eq!(civil_to_days(1900, 3, 1) - civil_to_days(1900, 2, 28), 1);
    assert_eq!(civil_to_days(2099, 1, 1), 47_117);
}

#[test]
fn days_before_1970_are_negative() {
    assert_eq!(civil_to_days(1969, 12, 31), -1);
    assert_eq!(civil_to_days(0, 3, 1), -719_468);
    assert_eq!(civil_to_days(-400, 3, 1), -719_468 - 146_097);
}

#[test]
fn days_follow_each_other_over_eight_centuries() {
    let mut expected: i128 = civil_to_days(1599, 12, 31);
    for year in 1600..2400i64 {
        let leap = year % 4 == 0 && (year % 100 != 0 || year % 400 == 0);
        let lengths = [31, if leap { 29 } else { 28 }, 31, 30, 31, 30, 31, 31, 30, 31, 30, 31];
        for month in 1..=12i64 {
            for day in 1..=lengths[(month - 1) as usize] {
                expected += 1;
                assert_eq!(civil_to_days(year, month, day), expected);
            }
        }
    }
}

#[test]
fn both_utc_suffixes_and_none_name_the_same_moment() {
    let bare = iso8601_to_epoch("2026-07-04T08:15:30");
    assert_eq!(bare, Some(1_783_152_930));
    assert_eq!(iso8601_to_epoch("2026-07-04T08:15:30Z"), bare);
    assert_eq!(iso8601_to_epoch("2026-07-04T08:15:30+00:00"), bare);
}

#[test]
fn other_offsets_are_refused() {
    assert_eq!(iso8601_to_epoch("2026-07-04T08:15:30+02:00"), None);
    assert_eq!(iso8601_to_epoch("2026-07-04T08:15:30.5+02:00"), None);
    assert_eq!(iso8601_to_epoch("2000-01-01T00:00:01+05:00"), None);
    assert_eq!(iso8601_to_epoch("2000-01-01T00:00:01.5+05:00"), None);
    assert_eq!(iso8601_to_epoch("2000-01-01T00:00:01-05:00"), None);
    assert_eq!(iso8601_to_epoch("2000-01-01T00:00:01.5-0500"), None);
    assert_eq!(iso8601_to_epoch("2000-01-01T00:00:01.5+00"), None);
    assert_eq!(iso8601_to_epoch("2000-01-01T00:00+05:00"), None);
}

#[test]
fn fields_beyond_the_third_are_refused() {
    assert_eq!(iso8601_to_epoch("2000-01-01T00:00:00Z"), Some(946_684_800));
    assert_eq!(iso8601_to_epoch("2000-01-01-99T00:00:00:77Z"), None);
    assert_eq!(iso8601_to_epoch("2000-01-01-99T00:00:00Z"), None);
    assert_eq!(iso8601_to_epoch("2000-01-01T00:00:00:77Z"), None);
    assert_eq!(iso8601_to_epoch("2000-01-01T00:00:00:Z"), None);
}

#[test]
fn fractions_are_made_of_digits() {
    assert_eq!(iso8601_to_epoch("2000-01-01T00:00:01.999999999Z"), Some(946_684_801));
    assert_eq!(iso8601_to_epoch("2000-01-01T00:00:01.5+00:00"), Some(946_684_801));
    assert_eq!(iso8601_to_epoch("2000-01-01T00:00:01.5"), Some(946_684_801));
    assert_eq!(iso8601_to_epoch("2000-01-01T00:00:01.Z"), None);
    assert_eq!(iso8601_to_epoch("2000-01-01T00:00:01.5.5Z"), None);
    assert_eq!(iso8601_to_epoch("2000-01-01T00:00:01.5xZ"), None);
    assert_eq!(iso8601_to_epoch("2000-01-01T00:00:01.5:00Z"), None);
    assert_eq!(iso8601_to_epoch("2000-01-01T00:00:01.5ZZ"), None);
}

#[test]
fn signed_fields_are_refused() {
    assert_eq!(iso8601_to_epoch("1970-01-02T-1:00:00Z"), None);
    assert_eq!(iso8601_to_epoch("1970-01-02T+1:00:00Z"), None);
    assert_eq!(iso8601_to_epoch("+1970-01-02T01:00:00Z"), None);
}

#[test]
fn missing_fields_are_refused() {
    assert_eq!(iso8601_to_epoch("2000-01T00:00:00Z"), None);
    assert_eq!(iso8601_to_epoch("2000-01-01T00:00Z"), None);
    assert_eq!(iso8601_to_epoch("2000-01-01 00:00:00Z"), None);
    assert_eq!(iso8601_to_epoch("2000-01-01T00:00:.5Z"), None);
    assert_eq!(iso8601_to_epoch("-2000-01-01T00:00:00Z"), None);
    assert_eq!(iso8601_to_epoch("Z"), None);
    assert_eq!(iso8601_to_epoch("+00:00"), None);
    assert_eq!(iso8601_to_epoch("\u{661}970-01-01T00:00:00Z"), None);
}

#[test]
fn fields_out_of_range_are_carried_over() {
    assert_eq!(iso8601_to_epoch("1970-01-01T00:00:3600Z"), Some(3600));
    assert_eq!(iso8601_to_epoch("1970-01-01T00:00:60Z"), Some(60));
    assert_eq!(iso8601_to_epoch("1970-01-32T00:00:00Z"), Some(31 * 86_400));
    assert_eq!(iso8601_to_epoch("1970-14-01T00:00:00Z"), iso8601_to_epoch("1971-02-01T00:00:00Z"));
    assert_eq!(iso8601_to_epoch("1971-00-01T00:00:00Z"), Some(334 * 86_400));
}

#[test]
fn times_beyond_the_range_are_refused() {
    assert_eq!(iso8601_to_epoch("9223372036854775807-01-01T00:00:00Z"), None);
    assert_eq!(iso8601_to_epoch("9223372036854775808-01-01T00:00:00Z"), None);
    assert_eq!(iso8601_to_epoch("1970-01-01T00:00:9223372036854775807Z"), Some(i64::MAX as u64));
    assert_eq!(iso8601_to_epoch("1970-01-01T00:01:9223372036854775807Z"), None);
}

fn unsigned(s: &str) -> Option<u64> {
    parse_unsigned(&chars(s))
}

fn plain(s: &str) -> Option<i64> {
    parse_plain(&chars(s))
}

#[test]
fn numbers_are_read_as_the_standard_library_reads_them() {
    for s in [
        "", "+", "-", "0", "-0", "+0", "00", "7", "+7", "-7", "++7", "+-7", "--7", " 7", "7 ", "7_0",
        "1e3", "0x10", "18446744073709551615", "18446744073709551616", "9223372036854775807",
        "9223372036854775808", "-9223372036854775808", "-9223372036854775809",
        "000000000000000000000000000000042", "99999999999999999999999999", "\u{663}",
    ] {
        assert_eq!(unsigned(s), s.parse::<u64>().ok(), "{s:?}");
        let digits = !s.is_empty() && s.bytes().all(|b| b.is_ascii_digit());
        assert_eq!(all_digits(&chars(s)), digits, "{s:?}");
        assert_eq!(plain(s), s.parse::<i64>().ok().filter(|_| digits), "{s:?}");
    }
}

#[test]
fn numbers_are_written_in_decimal() {
    for n in [0, 9, 10, 99, 100, 4_294_967_295, u128::MAX] {
        let mut out = String::from("n=");
        push_decimal(&mut out, n);
        assert_eq!(out, format!("n={n}"));
    }
}

#[test]
fn texts_are_compared_by_their_characters() {
    assert!(same_text("", ""));
    assert!(same_text("fp-\u{e9}", "fp-\u{e9}"));
    assert!(!same_text("fp-1", "fp-2"));
    assert!(!same_text("fp-1", "fp-11"));
    assert!(is_text(&Some("fp".to_string()), "fp"));
    assert!(!is_text(&Some("fp".to_string()), "fq"));
    assert!(!is_text(&None, ""));
}
