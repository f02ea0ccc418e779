use vstd::prelude::*;

use crate::decimal::{digit_char, digit_value};

verus! {

// ----------------------------------------------------------------------------
// The proleptic Gregorian calendar, counted in days and seconds from the Unix epoch
// ----------------------------------------------------------------------------

/// A UTC date and time of day, field by field.
pub struct UtcFields {
    pub year: int,
    pub month: int,
    pub day: int,
    pub hour: int,
    pub minute: int,
    pub second: int,
}

/// Whether `year` is a leap year of the Gregorian calendar.
pub open spec fn is_leap(year: int) -> bool {
    year % 4 == 0 && (year % 100 != 0 || year % 400 == 0)
}

/// The number of days of a month.
pub open spec fn days_in_month(year: int, month: int) -> int {
    if month == 2 {
        if is_leap(year) {
            29
        } else {
            28
        }
    } else if month == 4 || month == 6 || month == 9 || month == 11 {
        30
    } else {
        31
    }
}

/// The days of a year before the first of `month`.
pub open spec fn days_before_month(year: int, month: int) -> int {
    let common: int = if month == 1 {
        0
    } else if month == 2 {
        31
    } else if month == 3 {
        59
    } else if month == 4 {
        90
    } else if month == 5 {
        120
    } else if month == 6 {
        151
    } else if month == 7 {
        181
    } else if month == 8 {
        212
    } else if month == 9 {
        243
    } else if month == 10 {
        273
    } else if month == 11 {
        304
    } else {
        334
    };
    if month > 2 && is_leap(year) {
        common + 1
    } else {
        common
    }
}

/// The days from 0000-01-01 to the first of January of `year` (for `year >= 0`):
/// 365 a year, and one more for each leap year before it.
pub open spec fn days_before_year(year: int) -> int {
    365 * year + (year + 3) / 4 - (year + 99) / 100 + (year + 399) / 400
}

/// The days from 0000-01-01 to 1970-01-01.
pub open spec fn epoch_day_offset() -> int {
    719528
}

/// The day of a date, counted from 1970-01-01.
pub open spec fn epoch_day(year: int, month: int, day: int) -> int {
    days_before_year(year) + days_before_month(year, month) + day - 1 - epoch_day_offset()
}

/// Whether a date exists, in the years 0000 to 9999 that RFC 3339 writes.
pub open spec fn valid_date(year: int, month: int, day: int) -> bool {
    &&& 0 <= year <= 9999
    &&& 1 <= month <= 12
    &&& 1 <= day <= days_in_month(year, month)
}

/// Whether the fields name a date and a whole second of it, in the years 0000 to 9999.
pub open spec fn valid_utc(f: UtcFields) -> bool {
    &&& valid_date(f.year, f.month, f.day)
    &&& 0 <= f.hour < 24
    &&& 0 <= f.minute < 60
    &&& 0 <= f.second < 60
}

/// The Unix timestamp of a UTC date and time.
pub open spec fn civil_seconds(f: UtcFields) -> int {
    epoch_day(f.year, f.month, f.day) * 86400 + f.hour * 3600 + f.minute * 60 + f.second
}

/// The first second that RFC 3339 writes: 0000-01-01T00:00:00Z.
pub open spec fn first_rfc3339_second() -> int {
    -62167219200
}

/// The last second that RFC 3339 writes: 9999-12-31T23:59:59Z.
pub open spec fn last_rfc3339_second() -> int {
    253402300799
}

// ----------------------------------------------------------------------------
// The RFC 3339 text of a UTC date and time
// ----------------------------------------------------------------------------

/// Two decimal digits of `n` (for `0 <= n < 100`).
pub open spec fn two_digits(n: int) -> Seq<char> {
    seq![digit_char(n / 10), digit_char(n % 10)]
}

/// Four decimal digits of `n` (for `0 <= n < 10000`).
pub open spec fn four_digits(n: int) -> Seq<char> {
    two_digits(n / 100) + two_digits(n % 100)
}

/// The RFC 3339 text of a UTC date and time, to the second:
/// `YYYY-MM-DDTHH:MM:SSZ`.
pub open spec fn utc_text(f: UtcFields) -> Seq<char> {
    four_digits(f.year) + seq!['-'] + two_digits(f.month) + seq!['-'] + two_digits(f.day) + seq![
        'T',
    ] + two_digits(f.hour) + seq![':'] + two_digits(f.minute) + seq![':'] + two_digits(f.second)
        + seq!['Z']
}

/// The number that two digit characters of `text` write, from `at`.
pub open spec fn two_digit_value(text: Seq<char>, at: int) -> int {
    digit_value(text[at]) * 10 + digit_value(text[at + 1])
}

/// The fields that an RFC 3339 UTC text `YYYY-MM-DDTHH:MM:SSZ` writes, read from
/// their places.
pub open spec fn utc_fields_in(text: Seq<char>) -> UtcFields {
    UtcFields {
        year: two_digit_value(text, 0) * 100 + two_digit_value(text, 2),
        month: two_digit_value(text, 5),
        day: two_digit_value(text, 8),
        hour: two_digit_value(text, 11),
        minute: two_digit_value(text, 14),
        second: two_digit_value(text, 17),
    }
}

/// Whether `text` is the RFC 3339 UTC text of a date and time of the years 0000 to
/// 9999: the fields it writes are valid and it is their text.
pub open spec fn is_utc_text(text: Seq<char>) -> bool {
    valid_utc(utc_fields_in(text)) && text == utc_text(utc_fields_in(text))
}

// ----------------------------------------------------------------------------
// RFC 3339 texts with any separator, fraction and offset
// ----------------------------------------------------------------------------

/// Whether `c` is an ASCII decimal digit.
pub open spec fn is_digit(c: char) -> bool {
    '0' <= c && c <= '9'
}

/// Whether every character of `s` is an ASCII decimal digit.
pub open spec fn all_digits(s: Seq<char>) -> bool {
    forall|i: int| 0 <= i < s.len() ==> is_digit(#[trigger] s[i])
}

/// Whether the text ends in the zone `Z` or `z`.
pub open spec fn zulu_zone(text: Seq<char>) -> bool {
    text.len() >= 1 && (text.last() == 'Z' || text.last() == 'z')
}

/// Where the zone of an RFC 3339 text starts: the last character for `Z`, the
/// sixth from the end for `+HH:MM` or `-HH:MM`.
pub open spec fn zone_start(text: Seq<char>) -> int {
    if zulu_zone(text) {
        text.len() - 1
    } else {
        text.len() - 6
    }
}

/// Whether the text ends in a numeric zone `+HH:MM` or `-HH:MM` with `HH` at most 23
/// and `MM` at most 59.
pub open spec fn numeric_zone(text: Seq<char>) -> bool {
    let z = text.len() - 6;
    &&& text.len() >= 6
    &&& text[z] == '+' || text[z] == '-'
    &&& is_digit(text[z + 1]) && is_digit(text[z + 2])
    &&& text[z + 3] == ':'
    &&& is_digit(text[z + 4]) && is_digit(text[z + 5])
    &&& two_digit_value(text, z + 1) <= 23
    &&& two_digit_value(text, z + 4) <= 59
}

/// The seconds by which the zone of an RFC 3339 text lies east of UTC.
pub open spec fn offset_seconds(text: Seq<char>) -> int {
    if zulu_zone(text) {
        0
    } else {
        let z = text.len() - 6;
        let east = two_digit_value(text, z + 1) * 3600 + two_digit_value(text, z + 4) * 60;
        if text[z] == '-' {
            -east
        } else {
            east
        }
    }
}

/// Whether the part between the seconds and the zone is empty or a fraction of a
/// second: a `.` and one or more digits.
pub open spec fn fraction_ok(part: Seq<char>) -> bool {
    part.len() == 0 || (part.len() >= 2 && part[0] == '.' && all_digits(part.drop_first()))
}

/// Whether `text` is an RFC 3339 date and time `YYYY-MM-DD`, a separator `T`, `t`
/// or a space, `HH:MM:SS`, an optional fraction of a second, and a zone `Z`, `z`
/// or `+HH:MM` / `-HH:MM`, whose date and time of day exist (the years 0000 to 9999,
/// whole seconds below 60) and whose offset lies within a day.
pub open spec fn is_rfc3339_text(text: Seq<char>) -> bool {
    &&& text.len() >= 20
    &&& is_digit(text[0]) && is_digit(text[1]) && is_digit(text[2]) && is_digit(text[3])
    &&& text[4] == '-'
    &&& is_digit(text[5]) && is_digit(text[6])
    &&& text[7] == '-'
    &&& is_digit(text[8]) && is_digit(text[9])
    &&& text[10] == 'T' || text[10] == 't' || text[10] == ' '
    &&& is_digit(text[11]) && is_digit(text[12])
    &&& text[13] == ':'
    &&& is_digit(text[14]) && is_digit(text[15])
    &&& text[16] == ':'
    &&& is_digit(text[17]) && is_digit(text[18])
    &&& zulu_zone(text) || numeric_zone(text)
    &&& 19 <= zone_start(text)
    &&& fraction_ok(text.subrange(19, zone_start(text)))
    &&& valid_utc(utc_fields_in(text))
}

/// The Unix timestamp of the instant that an RFC 3339 text names: its wall-clock
/// date and time, less the offset of its zone.
pub open spec fn rfc3339_seconds(text: Seq<char>) -> int {
    civil_seconds(utc_fields_in(text)) - offset_seconds(text)
}

proof fn lemma_two_digits(n: int)
    requires
        0 <= n < 100,
    ensures
        digit_value(two_digits(n)[0]) * 10 + digit_value(two_digits(n)[1]) == n,
{
}

/// Reading the fields back from the RFC 3339 UTC text of a date and time gives
/// that date and time.
pub proof fn lemma_utc_text_reads_back(f: UtcFields)
    requires
        valid_utc(f),
    ensures
        utc_fields_in(utc_text(f)) == f,
{
    let t = utc_text(f);
    let yh = two_digits(f.year / 100);
    let yl = two_digits(f.year % 100);
    let mo = two_digits(f.month);
    let d = two_digits(f.day);
    let h = two_digits(f.hour);
    let mi = two_digits(f.minute);
    let se = two_digits(f.second);
    lemma_two_digits(f.year / 100);
    lemma_two_digits(f.year % 100);
    lemma_two_digits(f.month);
    lemma_two_digits(f.day);
    lemma_two_digits(f.hour);
    lemma_two_digits(f.minute);
    lemma_two_digits(f.second);
    let spelled: Seq<char> = seq![
        yh[0], yh[1], yl[0], yl[1], '-', mo[0], mo[1], '-', d[0], d[1], 'T',
        h[0], h[1], ':', mi[0], mi[1], ':', se[0], se[1], 'Z',
    ];
    assert(t =~= spelled);
    let g = utc_fields_in(t);
    assert(g.year == (f.year / 100) * 100 + f.year % 100);
    assert(g.month == f.month);
    assert(g.day == f.day);
    assert(g.hour == f.hour);
    assert(g.minute == f.minute);
    assert(g.second == f.second);
}

// ----------------------------------------------------------------------------
// Every second of the years 0000 to 9999 has a date and time
// ----------------------------------------------------------------------------

proof fn lemma_count_step(year: int, k: int)
    requires
        0 <= year,
        k == 4 || k == 100 || k == 400,
    ensures
        (year + k) / k == (year + k - 1) / k + (if year % k == 0 { 1int } else { 0int }),
{
    let q = year / k;
    let r = year % k;
    assert(year == q * k + r && 0 <= r < k) by (nonlinear_arith)
        requires
            k > 0,
            q == year / k,
            r == year % k,
    ;
    assert((year + k) / k == q + 1) by (nonlinear_arith)
        requires
            k > 0,
            year == q * k + r,
            0 <= r < k,
    ;
    assert((year + k - 1) / k == (if r == 0 { q } else { q + 1 })) by (nonlinear_arith)
        requires
            k > 0,
            year == q * k + r,
            0 <= r < k,
    ;
}

proof fn lemma_days_before_next_year(year: int)
    requires
        0 <= year,
    ensures
        days_before_year(year + 1) == days_before_year(year) + 365 + (if is_leap(year) {
            1int
        } else {
            0int
        }),
{
    lemma_count_step(year, 4);
    lemma_count_step(year, 100);
    lemma_count_step(year, 400);
    let a4: int = if year % 4 == 0 { 1 } else { 0 };
    let a100: int = if year % 100 == 0 { 1 } else { 0 };
    let a400: int = if year % 400 == 0 { 1 } else { 0 };
    assert(a4 - a100 + a400 == (if is_leap(year) { 1int } else { 0int })) by {
        if year % 400 == 0 {
            assert(year % 100 == 0 && year % 4 == 0) by (nonlinear_arith)
                requires year % 400 == 0;
        } else if year % 100 == 0 {
            assert(year % 4 == 0) by (nonlinear_arith)
                requires year % 100 == 0;
        }
    }
    assert(days_before_year(year + 1) == 365 * year + 365 + (year + 4) / 4 - (year + 100) / 100
        + (year + 400) / 400);
}

/// The date after a valid date other than 9999-12-31.
proof fn next_date(year: int, month: int, day: int) -> (r: (int, int, int))
    requires
        valid_date(year, month, day),
        !(year == 9999 && month == 12 && day == 31),
    ensures
        valid_date(r.0, r.1, r.2),
        epoch_day(r.0, r.1, r.2) == epoch_day(year, month, day) + 1,
{
    if day < days_in_month(year, month) {
        (year, month, day + 1)
    } else if month < 12 {
        (year, month + 1, 1)
    } else {
        lemma_days_before_next_year(year);
        (year + 1, 1, 1)
    }
}

/// The valid date of each day from 0000-01-01 to 9999-12-31.
proof fn date_of_day(n: int) -> (r: (int, int, int))
    requires
        epoch_day(0, 1, 1) <= n <= epoch_day(9999, 12, 31),
    ensures
        valid_date(r.0, r.1, r.2),
        epoch_day(r.0, r.1, r.2) == n,
    decreases n - epoch_day(0, 1, 1),
{
    if n == epoch_day(0, 1, 1) {
        (0, 1, 1)
    } else {
        let p = date_of_day(n - 1);
        next_date(p.0, p.1, p.2)
    }
}

/// Every second from 0000-01-01T00:00:00Z to 9999-12-31T23:59:59Z is the timestamp of
/// one valid UTC date and time: the one whose RFC 3339 text writes it.
pub proof fn utc_fields_of(seconds: int) -> (f: UtcFields)
    requires
        first_rfc3339_second() <= seconds <= last_rfc3339_second(),
    ensures
        valid_utc(f),
        civil_seconds(f) == seconds,
{
    let n = seconds / 86400;
    let r = seconds % 86400;
    assert(seconds == n * 86400 + r && 0 <= r < 86400);
    assert(epoch_day(0, 1, 1) <= n <= epoch_day(9999, 12, 31));
    let d = date_of_day(n);
    let hour = r / 3600;
    let minute = (r % 3600) / 60;
    let second = r % 60;
    assert(r == hour * 3600 + minute * 60 + second);
    UtcFields { year: d.0, month: d.1, day: d.2, hour, minute, second }
}

/// The UTC text of a date and time is an RFC 3339 text, and names the instant of
/// that date and time.
pub proof fn lemma_utc_text_is_rfc3339(f: UtcFields)
    requires
        valid_utc(f),
    ensures
        is_rfc3339_text(utc_text(f)),
        rfc3339_seconds(utc_text(f)) == civil_seconds(f),
{
    let t = utc_text(f);
    lemma_utc_text_reads_back(f);
    let yh = two_digits(f.year / 100);
    let yl = two_digits(f.year % 100);
    let mo = two_digits(f.month);
    let d = two_digits(f.day);
    let h = two_digits(f.hour);
    let mi = two_digits(f.minute);
    let se = two_digits(f.second);
    let spelled: Seq<char> = seq![
        yh[0], yh[1], yl[0], yl[1], '-', mo[0], mo[1], '-', d[0], d[1], 'T',
        h[0], h[1], ':', mi[0], mi[1], ':', se[0], se[1], 'Z',
    ];
    assert(t =~= spelled);
    assert(t.subrange(19, 19) =~= Seq::<char>::empty());
}

/// An RFC 3339 text of the years 0000 to 9999 names the same instant as the UTC text
/// of its wall-clock time less its offset: for `D+HH:MM` that is the UTC text of `D`
/// less `HH:MM`. (`parse_epoch` reads both as this same second.)
pub proof fn lemma_utc_twin(text: Seq<char>) -> (g: UtcFields)
    requires
        is_rfc3339_text(text),
        first_rfc3339_second() <= rfc3339_seconds(text) <= last_rfc3339_second(),
    ensures
        valid_utc(g),
        is_utc_text(utc_text(g)),
        is_rfc3339_text(utc_text(g)),
        rfc3339_seconds(utc_text(g)) == rfc3339_seconds(text),
{
    let g = utc_fields_of(rfc3339_seconds(text));
    lemma_utc_text_reads_back(g);
    lemma_utc_text_is_rfc3339(g);
    g
}

/// Two RFC 3339 texts with the same wall-clock date and time name instants that lie
/// apart by the difference of their offsets: `+HH:MM` names the instant `HH:MM`
/// before the same wall-clock time in UTC.
pub proof fn lemma_offset_shift(a: Seq<char>, b: Seq<char>)
    requires
        is_rfc3339_text(a),
        is_rfc3339_text(b),
        utc_fields_in(a) == utc_fields_in(b),
    ensures
        rfc3339_seconds(a) + offset_seconds(a) == rfc3339_seconds(b) + offset_seconds(b),
        zulu_zone(b) ==> rfc3339_seconds(a) == rfc3339_seconds(b) - offset_seconds(a),
{
}

} // verus!
