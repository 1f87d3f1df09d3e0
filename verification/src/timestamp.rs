//! Timestamps of the service, read as Unix time.

use vstd::prelude::*;
use vstd::slice::slice_subrange;

use crate::calendar;
use crate::calendar::civil_to_days;
use crate::text;
use crate::text::{all_digits, chars, parse_plain, split_first, split_three};

verus! {

/// The numbers of a timestamp, in the order in which it writes them.
pub struct Timestamp {
    pub year: i64,
    pub month: i64,
    pub day: i64,
    pub hour: i64,
    pub minute: i64,
    pub second: i64,
}

/// A timestamp without the suffix that marks it as UTC: `Z` or `+00:00`.
pub open spec fn without_utc_suffix(s: Seq<char>) -> Seq<char> {
    if s.len() > 0 && s.last() == 'Z' {
        s.drop_last()
    } else if seq!['+', '0', '0', ':', '0', '0'].is_suffix_of(s) {
        s.take(s.len() - 6)
    } else {
        s
    }
}

/// The second of a timestamp: digits, or digits, a point and digits. Those behind
/// the point, a fraction of the second, are left out.
pub open spec fn second_field(s: Seq<char>) -> Option<i64> {
    match text::after(s, '.') {
        Some(fraction) => if text::is_number(fraction) {
            text::plain_number(text::before(s, '.'))
        } else {
            None
        },
        None => text::plain_number(s),
    }
}

/// Reads `year-month-dayThour:minute:second`: six numbers in digits, the last one
/// with or without a fraction, and nothing else.
pub open spec fn timestamp_fields(s: Seq<char>) -> Option<Timestamp> {
    let body = without_utc_suffix(s);
    match text::after(body, 'T') {
        None => None,
        Some(time) => match (
            text::three_pieces(text::before(body, 'T'), '-'),
            text::three_pieces(time, ':'),
        ) {
            (Some(d), Some(t)) => match (
                text::plain_number(d.0),
                text::plain_number(d.1),
                text::plain_number(d.2),
                text::plain_number(t.0),
                text::plain_number(t.1),
                second_field(t.2),
            ) {
                (
                    Some(year),
                    Some(month),
                    Some(day),
                    Some(hour),
                    Some(minute),
                    Some(second),
                ) => Some(Timestamp { year, month, day, hour, minute, second }),
                _ => None,
            },
            _ => None,
        },
    }
}

impl Timestamp {
    /// Seconds from 1970-01-01T00:00:00Z.
    pub open spec fn seconds(self) -> int {
        calendar::days_from_civil(self.year as int, self.month as int, self.day as int)
            * 86400 + self.hour * 3600 + self.minute * 60 + self.second
    }
}

/// The Unix time that a timestamp names. `None` where it is no timestamp, where
/// it lies before 1970, and where a signed 64-bit count of seconds does not
/// reach it.
pub open spec fn timestamp_epoch(s: Seq<char>) -> Option<u64> {
    match timestamp_fields(s) {
        Some(t) if 0 <= t.seconds() <= i64::MAX => Some(t.seconds() as u64),
        _ => None,
    }
}

/// The timestamp without a UTC suffix.
fn strip_utc_suffix<'a>(s: &'a [char]) -> (r: &'a [char])
    ensures
        r@ == without_utc_suffix(s@),
{
    let n: usize = s.len();
    if n > 0 && s[n - 1] == 'Z' {
        slice_subrange(s, 0, n - 1)
    } else if n >= 6 && s[n - 6] == '+' && s[n - 5] == '0' && s[n - 4] == '0' && s[n - 3] == ':'
        && s[n - 2] == '0' && s[n - 1] == '0' {
        assert(s@.subrange(n - 6, n as int) =~= seq!['+', '0', '0', ':', '0', '0']);
        slice_subrange(s, 0, n - 6)
    } else {
        s
    }
}

/// Reads the second of a timestamp.
fn parse_second(s: &[char]) -> (r: Option<i64>)
    ensures
        r == second_field(s@),
{
    match split_first(s, '.') {
        (whole, Some(fraction)) => if all_digits(fraction) {
            parse_plain(whole)
        } else {
            None
        },
        (_, None) => parse_plain(s),
    }
}

/// Reads the fields of a timestamp.
fn parse_timestamp(s: &[char]) -> (r: Option<Timestamp>)
    ensures
        r == timestamp_fields(s@),
{
    let body: &[char] = strip_utc_suffix(s);
    let (date, time): (&[char], &[char]) = match split_first(body, 'T') {
        (date, Some(time)) => (date, time),
        _ => {
            return None;
        },
    };
    match (split_three(date, '-'), split_three(time, ':')) {
        (Some(d), Some(t)) => {
            match (
                parse_plain(d.0),
                parse_plain(d.1),
                parse_plain(d.2),
                parse_plain(t.0),
                parse_plain(t.1),
                parse_second(t.2),
            ) {
                (
                    Some(year),
                    Some(month),
                    Some(day),
                    Some(hour),
                    Some(minute),
                    Some(second),
                ) => Some(Timestamp { year, month, day, hour, minute, second }),
                _ => None,
            }
        },
        _ => None,
    }
}

/// Unix time of a timestamp such as `2000-01-01T00:00:00Z` or
/// `2000-01-01T00:00:01.943648+00:00`; `None` where it cannot be read.
pub fn iso8601_to_epoch(s: &str) -> (r: Option<u64>)
    ensures
        r == timestamp_epoch(s@),
{
    let letters: Vec<char> = chars(s);
    match parse_timestamp(letters.as_slice()) {
        Some(t) => {
            let days: i128 = civil_to_days(t.year, t.month, t.day);
            let total: i128 = days * 86400 + t.hour as i128 * 3600 + t.minute as i128 * 60
                + t.second as i128;
            if 0 <= total && total <= i64::MAX as i128 {
                Some(total as u64)
            } else {
                None
            }
        },
        None => None,
    }
}

// ---------------------------------------------------------------------------
// Laws
// ---------------------------------------------------------------------------

/// Both marks of UTC name the same moment.
pub proof fn law_utc_suffixes_agree(local: Seq<char>)
    ensures
        timestamp_epoch(local.push('Z')) == timestamp_epoch(
            local + seq!['+', '0', '0', ':', '0', '0'],
        ),
{
    let z = local.push('Z');
    let offset = local + seq!['+', '0', '0', ':', '0', '0'];
    assert(z.drop_last() =~= local);
    assert(offset.last() == '0');
    assert(offset.subrange(offset.len() - 6, offset.len() as int) =~= seq![
        '+',
        '0',
        '0',
        ':',
        '0',
        '0',
    ]);
    assert(offset.take(offset.len() - 6) =~= local);
}

/// A fraction of the second is dropped, whatever its digits are.
pub proof fn law_fraction_is_dropped(local: Seq<char>, fraction: Seq<char>)
    requires
        forall|i: int| 0 <= i < local.len() ==> local[i] != '.',
        text::is_number(fraction),
    ensures
        timestamp_epoch((local.push('.') + fraction).push('Z')) == timestamp_epoch(
            local.push('Z'),
        ),
{
    let tail = seq!['.'] + fraction;
    assert((local.push('.') + fraction).push('Z').drop_last() =~= local + tail);
    assert(local.push('Z').drop_last() =~= local);
    text::lemma_number_has_no(fraction, 'T');
    text::lemma_number_has_no(fraction, ':');
    text::lemma_split_none(tail, 'T');
    text::lemma_split_none(tail, ':');
    if text::after(local, 'T') is None {
        text::lemma_split_missing(local, tail, 'T');
    } else {
        text::lemma_split_found(local, tail, 'T');
        let time = text::after(local, 'T')->0;
        text::lemma_after_is_part(local, 'T');
        if text::after(time, ':') is None {
            text::lemma_split_missing(time, tail, ':');
        } else {
            text::lemma_split_found(time, tail, ':');
            let rest = text::after(time, ':')->0;
            text::lemma_after_is_part(time, ':');
            if text::after(rest, ':') is None {
                text::lemma_split_missing(rest, tail, ':');
            } else {
                text::lemma_split_found(rest, tail, ':');
                let second = text::after(rest, ':')->0;
                text::lemma_after_is_part(rest, ':');
                if text::after(second, ':') is None {
                    text::lemma_split_missing(second, tail, ':');
                    text::lemma_split_none(second, '.');
                    text::lemma_split_at(second, fraction, '.');
                } else {
                    text::lemma_split_found(second, tail, ':');
                }
            }
        }
    }
}

/// A timestamp with an offset other than the two marks of UTC is refused, with a
/// fraction or without: nothing behind the second is passed over.
pub proof fn law_other_offsets_are_refused(local: Seq<char>, offset: Seq<char>)
    requires
        text::after(local, 'T') is Some,
        offset.len() > 0,
        offset[0] == '+' || offset[0] == '-',
        without_utc_suffix(local + offset) == local + offset,
    ensures
        timestamp_epoch(local + offset) is None,
{
    let time = text::after(local, 'T')->0;
    text::lemma_split_found(local, offset, 'T');
    assert((time + offset)[time.len() as int] == offset[0]);
    if text::three_pieces(time + offset, ':') is Some {
        lemma_time_is_plain(time + offset, time.len() as int);
    }
}

/// A character that is no digit, colon or point spoils the time that it is in.
proof fn lemma_time_is_plain(time: Seq<char>, k: int)
    requires
        0 <= k < time.len(),
        !text::is_digit(time[k]) && time[k] != ':' && time[k] != '.',
        text::three_pieces(time, ':') is Some,
    ensures
        ({
            let t = text::three_pieces(time, ':')->0;
            ||| text::plain_number(t.0) is None
            ||| text::plain_number(t.1) is None
            ||| second_field(t.2) is None
        }),
{
    let t = text::three_pieces(time, ':')->0;
    let rest = text::after(time, ':')->0;
    let i = text::first_index(time, ':');
    let j = text::first_index(rest, ':');
    text::lemma_first_index_bounds(time, ':');
    text::lemma_first_index_bounds(rest, ':');
    if k < i {
        text::lemma_not_a_number(t.0, k);
    } else if k - i - 1 < j {
        text::lemma_not_a_number(t.1, k - i - 1);
    } else {
        let n = k - i - 1 - j - 1;
        let p = text::first_index(t.2, '.');
        assert(t.2[n] == time[k]);
        text::lemma_first_index_bounds(t.2, '.');
        if text::after(t.2, '.') is None {
            text::lemma_not_a_number(t.2, n);
        } else if n < p {
            text::lemma_not_a_number(text::before(t.2, '.'), n);
        } else {
            text::lemma_not_a_number(text::after(t.2, '.')->0, n - p - 1);
        }
    }
}

/// `year-month-dayThour:minute:second`, marked as UTC.
pub open spec fn utc_timestamp(
    year: Seq<char>,
    month: Seq<char>,
    day: Seq<char>,
    hour: Seq<char>,
    minute: Seq<char>,
    second: Seq<char>,
) -> Seq<char> {
    let time = hour + (seq![':'] + (minute + (seq![':'] + second)));
    let date = year + (seq!['-'] + (month + (seq!['-'] + day)));
    (date + (seq!['T'] + time)).push('Z')
}

/// A timestamp written in decimal is read as the numbers that it is made of.
pub proof fn law_timestamp_reads_its_numbers(
    year: Seq<char>,
    month: Seq<char>,
    day: Seq<char>,
    hour: Seq<char>,
    minute: Seq<char>,
    second: Seq<char>,
)
    requires
        text::is_number(year) && text::number_value(year) <= i64::MAX,
        text::is_number(month) && text::number_value(month) <= i64::MAX,
        text::is_number(day) && text::number_value(day) <= i64::MAX,
        text::is_number(hour) && text::number_value(hour) <= i64::MAX,
        text::is_number(minute) && text::number_value(minute) <= i64::MAX,
        text::is_number(second) && text::number_value(second) <= i64::MAX,
    ensures
        timestamp_fields(utc_timestamp(year, month, day, hour, minute, second)) == Some(
            Timestamp {
                year: text::number_value(year) as i64,
                month: text::number_value(month) as i64,
                day: text::number_value(day) as i64,
                hour: text::number_value(hour) as i64,
                minute: text::number_value(minute) as i64,
                second: text::number_value(second) as i64,
            },
        ),
{
    let seconds = seq![':'] + second;
    let minutes = minute + seconds;
    let time = hour + (seq![':'] + minutes);
    let days = seq!['-'] + day;
    let months = month + days;
    let date = year + (seq!['-'] + months);
    let body = date + (seq!['T'] + time);
    assert(body.push('Z').drop_last() =~= body);
    text::lemma_number_has_no(year, '-');
    text::lemma_number_has_no(month, '-');
    text::lemma_number_has_no(day, '-');
    text::lemma_number_has_no(hour, ':');
    text::lemma_number_has_no(minute, ':');
    text::lemma_number_has_no(second, ':');
    text::lemma_number_has_no(second, '.');
    text::lemma_number_has_no(year, 'T');
    text::lemma_number_has_no(month, 'T');
    text::lemma_number_has_no(day, 'T');
    assert(forall|i: int| 0 <= i < date.len() ==> date[i] != 'T');
    text::lemma_split_at(date, time, 'T');
    text::lemma_split_at(year, months, '-');
    text::lemma_split_at(month, day, '-');
    text::lemma_split_none(day, '-');
    text::lemma_split_at(hour, minutes, ':');
    text::lemma_split_at(minute, second, ':');
    text::lemma_split_none(second, ':');
    text::lemma_split_none(second, '.');
}

/// The clock counts seconds: a second further is one second later, a minute
/// sixty, an hour 3600, whatever the hour, and a day 86400. On 1970-01-01 it
/// starts at midnight with 0.
pub proof fn law_clock_counts_seconds(t: Timestamp)
    ensures
        (Timestamp { year: 1970, month: 1, day: 1, hour: 0, minute: 0, second: 0 }).seconds() == 0,
        t.second < i64::MAX ==> (Timestamp { second: (t.second + 1) as i64, ..t }).seconds()
            == t.seconds() + 1,
        t.minute < i64::MAX ==> (Timestamp { minute: (t.minute + 1) as i64, ..t }).seconds()
            == t.seconds() + 60,
        t.hour < i64::MAX ==> (Timestamp { hour: (t.hour + 1) as i64, ..t }).seconds()
            == t.seconds() + 3600,
        t.day < i64::MAX ==> (Timestamp { day: (t.day + 1) as i64, ..t }).seconds()
            == t.seconds() + 86400,
{
    if t.day < i64::MAX {
        calendar::law_days_beyond_the_calendar_are_carried_over(
            t.year as int,
            t.month as int,
            t.day as int,
        );
    }
}

/// A time of day is that many seconds behind the midnight that the day starts
/// with, and the midnight of the day that follows in the calendar comes one
/// second behind 23:59:59.
pub proof fn law_days_have_86400_seconds(t: Timestamp)
    requires
        calendar::is_calendar_day(t.year as int, t.month as int, t.day as int),
        0 <= t.hour < 24,
        0 <= t.minute < 60,
        0 <= t.second < 60,
        t.year < i64::MAX,
    ensures
        ({
            let midnight = Timestamp { hour: 0, minute: 0, second: 0, ..t };
            let last = Timestamp { hour: 23, minute: 59, second: 59, ..t };
            let (y, m, d) = calendar::next_day(t.year as int, t.month as int, t.day as int);
            let next = Timestamp {
                year: y as i64,
                month: m as i64,
                day: d as i64,
                hour: 0,
                minute: 0,
                second: 0,
            };
            &&& t.seconds() - midnight.seconds() == t.hour * 3600 + t.minute * 60 + t.second
            &&& midnight.seconds() <= t.seconds() <= last.seconds()
            &&& next.seconds() == last.seconds() + 1
            &&& midnight.seconds() % 86400 == 0
        }),
{
    calendar::law_day_numbers_count_days(t.year as int, t.month as int, t.day as int);
}

/// Numbers that are written as a timestamp are read as the moment that they
/// name: so many hours, minutes and seconds behind the midnight of their day.
/// Only a moment before 1970, or one that a signed 64-bit count of seconds does
/// not reach, is not read.
pub proof fn law_timestamp_names_its_moment(
    year: Seq<char>,
    month: Seq<char>,
    day: Seq<char>,
    hour: Seq<char>,
    minute: Seq<char>,
    second: Seq<char>,
)
    requires
        text::is_number(year) && text::number_value(year) <= i64::MAX,
        text::is_number(month) && text::number_value(month) <= i64::MAX,
        text::is_number(day) && text::number_value(day) <= i64::MAX,
        text::is_number(hour) && text::number_value(hour) <= i64::MAX,
        text::is_number(minute) && text::number_value(minute) <= i64::MAX,
        text::is_number(second) && text::number_value(second) <= i64::MAX,
    ensures
        ({
            let days = calendar::days_from_civil(
                text::number_value(year) as int,
                text::number_value(month) as int,
                text::number_value(day) as int,
            );
            let moment = 86400 * days + 3600 * text::number_value(hour) + 60 * text::number_value(
                minute,
            ) + text::number_value(second);
            let read = timestamp_epoch(utc_timestamp(year, month, day, hour, minute, second));
            if 0 <= moment <= i64::MAX {
                read is Some && read->0 == moment
            } else {
                read is None
            }
        }),
{
    law_timestamp_reads_its_numbers(year, month, day, hour, minute, second);
}

/// A timestamp that bears no mark is in UTC as well.
pub proof fn law_unmarked_timestamps_are_utc(local: Seq<char>)
    requires
        local.len() > 0 ==> local.last() != 'Z',
        !(seq!['+', '0', '0', ':', '0', '0'].is_suffix_of(local)),
    ensures
        timestamp_epoch(local) == timestamp_epoch(local.push('Z')),
{
    assert(local.push('Z').drop_last() =~= local);
}

/// The second with the point and the digits of a fraction behind it, if it has
/// one.
pub open spec fn is_second(s: Seq<char>) -> bool {
    text::is_number(s) || exists|whole: Seq<char>, fraction: Seq<char>|
        text::is_number(whole) && text::is_number(fraction) && s == #[trigger] (whole + seq!['.']
            + fraction)
}

/// What stands before the mark of UTC, put together from its fields.
pub open spec fn local_timestamp(
    date: (Seq<char>, Seq<char>, Seq<char>),
    time: (Seq<char>, Seq<char>, Seq<char>),
) -> Seq<char> {
    (date.0 + seq!['-'] + date.1 + seq!['-'] + date.2) + seq!['T'] + (time.0 + seq![':'] + time.1
        + seq![':'] + time.2)
}

/// Only a timestamp is read: six numbers with their separators, perhaps a
/// fraction, perhaps one mark of UTC, and nothing else.
pub proof fn law_nothing_but_timestamps_is_read(s: Seq<char>)
    requires
        timestamp_epoch(s) is Some,
    ensures
        exists|date: (Seq<char>, Seq<char>, Seq<char>), time: (Seq<char>, Seq<char>, Seq<char>)|
            {
                let local = #[trigger] local_timestamp(date, time);
                &&& text::is_number(date.0) && text::is_number(date.1) && text::is_number(date.2)
                &&& text::is_number(time.0) && text::is_number(time.1) && is_second(time.2)
                &&& s == local || s == local.push('Z') || s == local + seq![
                    '+',
                    '0',
                    '0',
                    ':',
                    '0',
                    '0',
                ]
            },
{
    let body = without_utc_suffix(s);
    let time_text = text::after(body, 'T')->0;
    let date_text = text::before(body, 'T');
    let date = text::three_pieces(date_text, '-')->0;
    let time = text::three_pieces(time_text, ':')->0;
    text::law_pieces_make_up_the_text(body, 'T');
    text::law_pieces_make_up_the_text(date_text, '-');
    text::law_pieces_make_up_the_text(time_text, ':');
    text::law_pieces_make_up_the_text(time.2, '.');
    assert(local_timestamp(date, time) =~= body);
    if text::after(time.2, '.') is Some {
        let whole = text::before(time.2, '.');
        let fraction = text::after(time.2, '.')->0;
        assert(time.2 == whole + seq!['.'] + fraction);
    }
    assert(is_second(time.2));
    if s.len() > 0 && s.last() == 'Z' {
        assert(s =~= body.push('Z'));
    } else if body != s {
        assert(s =~= body + seq!['+', '0', '0', ':', '0', '0']);
    }
}

} // verus!
