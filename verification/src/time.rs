//! Points in time: seconds since 1970 and the texts that stand for them.

use crate::text::{chars_of, is_digit};
use vstd::prelude::*;
use vstd::string::*;

verus! {

/// A date and a time of day, in universal time.
#[derive(Debug, Clone, Copy, PartialEq, Eq, Structural)]
pub struct DateTime {
    pub year: u64,
    pub month: u64,
    pub day: u64,
    pub hour: u64,
    pub minute: u64,
    pub second: u64,
}

/// The first second after the year 9999.
pub const END_OF_TIME: u64 = 253_402_300_800;

/// Does the year have a leap day?
pub open spec fn is_leap(year: int) -> bool {
    year % 4 == 0 && (year % 100 != 0 || year % 400 == 0)
}

/// The days of a year.
pub open spec fn year_days(year: int) -> int {
    if is_leap(year) {
        366
    } else {
        365
    }
}

/// The days of a month.
pub open spec fn month_days(year: int, month: int) -> int {
    if month == 2 {
        if is_leap(year) {
            29
        } else {
            28
        }
    } else if month == 4 || month == 6 || month == 9 || month == 11 {
        30
    } else {
        31
    }
}

/// The days from the start of 1970 to the start of a year.
pub open spec fn days_to_year(year: int) -> int
    decreases year - 1970,
{
    if year <= 1970 {
        0
    } else {
        days_to_year(year - 1) + year_days(year - 1)
    }
}

/// The days from the start of a year to the start of a month.
pub open spec fn days_to_month(year: int, month: int) -> int
    decreases month,
{
    if month <= 1 {
        0
    } else {
        days_to_month(year, month - 1) + month_days(year, month - 1)
    }
}

/// Is it a date and a time of day that there is, from 1970 to 9999?
pub open spec fn is_real(t: DateTime) -> bool {
    &&& 1970 <= t.year <= 9999
    &&& 1 <= t.month <= 12
    &&& 1 <= t.day <= month_days(t.year as int, t.month as int)
    &&& t.hour < 24
    &&& t.minute < 60
    &&& t.second < 60
}

/// The seconds from the start of 1970.
pub open spec fn seconds_of(t: DateTime) -> int {
    (days_to_year(t.year as int) + days_to_month(t.year as int, t.month as int) + t.day - 1) * 86400
        + t.hour * 3600 + t.minute * 60 + t.second
}

fn leap(year: u64) -> (r: bool)
    ensures
        r == is_leap(year as int),
{
    year % 4 == 0 && (year % 100 != 0 || year % 400 == 0)
}

fn days_in_year(year: u64) -> (r: u64)
    ensures
        r == year_days(year as int),
{
    if leap(year) {
        366
    } else {
        365
    }
}

fn days_in_month(year: u64, month: u64) -> (r: u64)
    ensures
        r == month_days(year as int, month as int),
{
    if month == 2 {
        if leap(year) {
            29
        } else {
            28
        }
    } else if month == 4 || month == 6 || month == 9 || month == 11 {
        30
    } else {
        31
    }
}

proof fn lemma_days_grow(year: int)
    requires
        year >= 1970,
    ensures
        days_to_year(year) >= 365 * (year - 1970),
        days_to_year(year) <= 366 * (year - 1970),
    decreases year,
{
    if year > 1970 {
        lemma_days_grow(year - 1);
    }
}

proof fn lemma_year_ends(year: int)
    ensures
        days_to_month(year, 12) + month_days(year, 12) == year_days(year),
{
    reveal_with_fuel(days_to_month, 13);
}

/// The leap days before a year.
spec fn leap_days(year: int) -> int {
    (year - 1) / 4 - (year - 1) / 100 + (year - 1) / 400
}

proof fn lemma_closed(year: int)
    requires
        year >= 1970,
    ensures
        days_to_year(year) == 365 * (year - 1970) + leap_days(year) - leap_days(1970),
    decreases year,
{
    if year > 1970 {
        lemma_closed(year - 1);
    }
}

proof fn lemma_last_years()
    ensures
        days_to_year(10000) == 2_932_897,
{
    lemma_closed(10000);
}

/// The date and time of day of a number of seconds.
pub fn date_time(seconds: u64) -> (r: DateTime)
    requires
        seconds < END_OF_TIME,
    ensures
        is_real(r),
        seconds_of(r) == seconds,
{
    let days: u64 = seconds / 86400;
    let rest: u64 = seconds % 86400;
    proof {
        lemma_last_years();
    }
    let mut year: u64 = 1970;
    let mut left: u64 = days;
    while left >= days_in_year(year)
        invariant
            1970 <= year <= 9999,
            days < 2_932_897,
            days_to_year(10000) == 2_932_897,
            left + days_to_year(year as int) == days,
        decreases left,
    {
        proof {
            lemma_days_grow(year as int);
            assert(days_to_year(year + 1) == days_to_year(year as int) + year_days(year as int));
            if year == 9999 {
                assert(days_to_year(10000) <= days);
            }
        }
        left = left - days_in_year(year);
        year = year + 1;
    }
    let mut month: u64 = 1;
    proof {
        lemma_year_ends(year as int);
    }
    let ghost in_year = left;
    while left >= days_in_month(year, month)
        invariant
            1970 <= year <= 9999,
            1 <= month <= 12,
            in_year < year_days(year as int),
            days_to_month(year as int, 12) + month_days(year as int, 12) == year_days(year as int),
            left + days_to_month(year as int, month as int) == in_year,
        decreases left,
    {
        proof {
            assert(days_to_month(year as int, month + 1) == days_to_month(year as int, month as int)
                + month_days(year as int, month as int));
        }
        left = left - days_in_month(year, month);
        month = month + 1;
    }
    DateTime {
        year,
        month,
        day: left + 1,
        hour: rest / 3600,
        minute: rest % 3600 / 60,
        second: rest % 60,
    }
}

/// The lowest `width` decimal digits of `n`.
pub open spec fn digits_of(n: nat, width: nat) -> Seq<char>
    decreases width,
{
    if width == 0 {
        Seq::empty()
    } else {
        digits_of(n / 10, (width - 1) as nat).push((48 + n % 10) as char)
    }
}

fn push_digits(s: &mut String, n: u64, width: u64)
    ensures
        final(s)@ == old(s)@ + digits_of(n as nat, width as nat),
    decreases width,
{
    if width > 0 {
        let ghost before = s@;
        push_digits(s, n / 10, width - 1);
        s.push((48 + (n % 10) as u8) as char);
        assert(s@ =~= before + digits_of(n as nat, width as nat));
    } else {
        assert(s@ =~= s@ + digits_of(n as nat, 0));
    }
}

/// The text of a point in time: date, `T`, time of day to the millisecond, `Z`.
pub open spec fn time_text(t: DateTime, milliseconds: nat) -> Seq<char> {
    digits_of(t.year as nat, 4) + seq!['-'] + digits_of(t.month as nat, 2) + seq!['-'] + digits_of(
        t.day as nat,
        2,
    ) + seq!['T'] + digits_of(t.hour as nat, 2) + seq![':'] + digits_of(t.minute as nat, 2) + seq![
        ':',
    ] + digits_of(t.second as nat, 2) + seq!['.'] + digits_of(milliseconds, 3) + seq!['Z']
}

/// The text of a point in time, given in milliseconds since 1970.
pub fn format_rfc3339(unix_ms: u64) -> (r: String)
    requires
        unix_ms / 1000 < END_OF_TIME,
    ensures
        exists|t: DateTime| #[trigger]
            is_real(t) && seconds_of(t) == unix_ms / 1000 && r@ == time_text(
                t,
                unix_ms as nat % 1000,
            ),
{
    let t = date_time(unix_ms / 1000);
    let mut s = String::new();
    push_digits(&mut s, t.year, 4);
    s.push('-');
    push_digits(&mut s, t.month, 2);
    s.push('-');
    push_digits(&mut s, t.day, 2);
    s.push('T');
    push_digits(&mut s, t.hour, 2);
    s.push(':');
    push_digits(&mut s, t.minute, 2);
    s.push(':');
    push_digits(&mut s, t.second, 2);
    s.push('.');
    push_digits(&mut s, unix_ms % 1000, 3);
    s.push('Z');
    assert(s@ =~= time_text(t, unix_ms as nat % 1000));
    s
}

/// The number that `width` digits from `from` on stand for.
pub open spec fn number_at(s: Seq<char>, from: int, width: nat) -> Option<nat>
    decreases width,
{
    if width == 0 {
        Some(0)
    } else {
        match number_at(s, from, (width - 1) as nat) {
            Some(n) => if is_digit(s[from + width - 1]) {
                Some((n * 10 + (s[from + width - 1] as int - 48)) as nat)
            } else {
                None
            },
            None => None,
        }
    }
}

/// Is it the end of a point in time: `Z`, after a fraction or not?
pub open spec fn ends_time(s: Seq<char>) -> bool {
    s.len() > 0 && s.last() == 'Z' && (s.len() == 1 || (s.len() > 2 && s[0] == '.' && forall|i: int|
        1 <= i < s.len() - 1 ==> is_digit(#[trigger] s[i])))
}

/// The parts of a text that stands for a point in time.
pub open spec fn parts_of(s: Seq<char>) -> Option<DateTime> {
    if s.len() < 20 || s[4] != '-' || s[7] != '-' || s[10] != 'T' || s[13] != ':' || s[16] != ':'
        || !ends_time(s.skip(19)) {
        None
    } else {
        match (
            number_at(s, 0, 4),
            number_at(s, 5, 2),
            number_at(s, 8, 2),
            number_at(s, 11, 2),
            number_at(s, 14, 2),
            number_at(s, 17, 2),
        ) {
            (Some(y), Some(mo), Some(d), Some(h), Some(mi), Some(sec)) => Some(
                DateTime {
                    year: y as u64,
                    month: mo as u64,
                    day: d as u64,
                    hour: h as u64,
                    minute: mi as u64,
                    second: sec as u64,
                },
            ),
            _ => None,
        }
    }
}

/// The seconds since 1970 that a text stands for.
pub open spec fn parsed_seconds(s: Seq<char>) -> Option<int> {
    match parts_of(s) {
        Some(t) => if is_real(t) {
            Some(seconds_of(t))
        } else {
            None
        },
        None => None,
    }
}

spec fn ten_to(n: nat) -> nat
    decreases n,
{
    if n == 0 {
        1
    } else {
        10 * ten_to((n - 1) as nat)
    }
}

proof fn lemma_digit(c: char)
    requires
        is_digit(c),
    ensures
        48 <= c as int <= 57,
{
}

proof fn lemma_number_bound(s: Seq<char>, from: int, width: nat)
    ensures
        number_at(s, from, width) matches Some(n) ==> n < ten_to(width),
    decreases width,
{
    if width > 0 {
        lemma_number_bound(s, from, (width - 1) as nat);
        if is_digit(s[from + width - 1]) {
            lemma_digit(s[from + width - 1]);
        }
    }
}

fn read_number(v: &Vec<char>, from: usize, width: usize) -> (r: Option<u64>)
    requires
        from + width <= v@.len(),
        width <= 4,
    ensures
        match r {
            Some(n) => number_at(v@, from as int, width as nat) == Some(n as nat) && n < 10_000,
            None => number_at(v@, from as int, width as nat) is None,
        },
    decreases width,
{
    proof {
        lemma_number_bound(v@, from as int, width as nat);
        reveal_with_fuel(ten_to, 5);
    }
    if width == 0 {
        return Some(0);
    }
    match read_number(v, from, width - 1) {
        Some(n) => {
            let total: usize = v.len();
            assert(from + width <= total);
            let c = v[from + width - 1];
            if '0' <= c && c <= '9' {
                proof {
                    lemma_digit(c);
                    lemma_number_bound(v@, from as int, (width - 1) as nat);
                }
                Some(n * 10 + (c as u64 - 48))
            } else {
                None
            }
        },
        None => None,
    }
}

fn is_end(v: &Vec<char>, from: usize) -> (r: bool)
    requires
        from < v@.len(),
    ensures
        r == ends_time(v@.skip(from as int)),
{
    let n: usize = v.len();
    let ghost s = v@.skip(from as int);
    if v[n - 1] != 'Z' {
        return false;
    }
    if n - from == 1 {
        return true;
    }
    if n - from == 2 || v[from] != '.' {
        return false;
    }
    let mut i: usize = from + 1;
    while i < n - 1
        invariant
            n == v@.len(),
            from < i <= n - 1,
            s == v@.skip(from as int),
            forall|k: int| 1 <= k < i - from ==> is_digit(#[trigger] s[k]),
        decreases n - i,
    {
        if !('0' <= v[i] && v[i] <= '9') {
            assert(!is_digit(s[i - from]));
            return false;
        }
        i = i + 1;
    }
    true
}

fn is_real_time(t: &DateTime) -> (r: bool)
    ensures
        r == is_real(*t),
{
    1970 <= t.year && t.year <= 9999 && 1 <= t.month && t.month <= 12 && 1 <= t.day && t.day
        <= days_in_month(t.year, t.month) && t.hour < 24 && t.minute < 60 && t.second < 60
}

fn count_seconds(t: &DateTime) -> (r: u64)
    requires
        is_real(*t),
    ensures
        r == seconds_of(*t),
{
    let mut days: u64 = 0;
    let mut year: u64 = 1970;
    while year < t.year
        invariant
            1970 <= year <= t.year <= 9999,
            days == days_to_year(year as int),
            days <= 366 * (year - 1970),
        decreases t.year - year,
    {
        days = days + days_in_year(year);
        year = year + 1;
    }
    let mut month: u64 = 1;
    let ghost to_year = days;
    while month < t.month
        invariant
            1 <= month <= t.month <= 12,
            year == t.year,
            to_year <= 366 * 8029,
            days == to_year + days_to_month(year as int, month as int),
            days <= to_year + 31 * (month - 1),
        decreases t.month - month,
    {
        days = days + days_in_month(year, month);
        month = month + 1;
    }
    (days + t.day - 1) * 86400 + t.hour * 3600 + t.minute * 60 + t.second
}

/// The seconds since 1970 that a text stands for.
pub fn parse_rfc3339_epoch_secs(s: &str) -> (r: Option<u64>)
    ensures
        match r {
            Some(n) => parsed_seconds(s@) == Some(n as int),
            None => parsed_seconds(s@) is None,
        },
{
    let v = chars_of(s);
    if v.len() < 20 || v[4] != '-' || v[7] != '-' || v[10] != 'T' || v[13] != ':' || v[16] != ':' {
        return None;
    }
    if !is_end(&v, 19) {
        return None;
    }
    match (
        read_number(&v, 0, 4),
        read_number(&v, 5, 2),
        read_number(&v, 8, 2),
        read_number(&v, 11, 2),
        read_number(&v, 14, 2),
        read_number(&v, 17, 2),
    ) {
        (Some(year), Some(month), Some(day), Some(hour), Some(minute), Some(second)) => {
            let t = DateTime { year, month, day, hour, minute, second };
            if is_real_time(&t) {
                Some(count_seconds(&t))
            } else {
                None
            }
        },
        _ => None,
    }
}

proof fn lemma_digits_len(n: nat, width: nat)
    ensures
        digits_of(n, width).len() == width,
    decreases width,
{
    if width > 0 {
        lemma_digits_len(n / 10, (width - 1) as nat);
    }
}

/// Digits stand for the number that they were written for.
proof fn lemma_read_back(s: Seq<char>, from: int, n: nat, width: nat)
    requires
        0 <= from,
        from + width <= s.len(),
        s.subrange(from, from + width) == digits_of(n, width),
        n < ten_to(width),
    ensures
        number_at(s, from, width) == Some(n),
    decreases width,
{
    if width > 0 {
        let w = (width - 1) as nat;
        lemma_digits_len(n / 10, w);
        let all = digits_of(n, width);
        assert(s.subrange(from, from + w) =~= s.subrange(from, from + width).drop_last());
        assert(all.drop_last() =~= digits_of(n / 10, w));
        assert(s[from + width - 1] == s.subrange(from, from + width)[width - 1]);
        assert(all[width - 1] == (48 + n % 10) as char);
        lemma_read_back(s, from, n / 10, w);
    }
}

proof fn lemma_fraction_digits(n: nat)
    ensures
        forall|i: int| 0 <= i < 3 ==> is_digit(#[trigger] digits_of(n, 3)[i]),
        digits_of(n, 3).len() == 3,
{
    reveal_with_fuel(digits_of, 4);
}

/// What is written is read back: the text of a point in time stands for its
/// seconds.
pub proof fn law_time_reads_back(t: DateTime, milliseconds: nat)
    requires
        is_real(t),
        milliseconds < 1000,
    ensures
        parsed_seconds(time_text(t, milliseconds)) == Some(seconds_of(t)),
{
    let s = time_text(t, milliseconds);
    reveal_with_fuel(ten_to, 5);
    lemma_digits_len(t.year as nat, 4);
    lemma_digits_len(t.month as nat, 2);
    lemma_digits_len(t.day as nat, 2);
    lemma_digits_len(t.hour as nat, 2);
    lemma_digits_len(t.minute as nat, 2);
    lemma_digits_len(t.second as nat, 2);
    lemma_fraction_digits(milliseconds);
    assert(s.subrange(0, 4) =~= digits_of(t.year as nat, 4));
    assert(s.subrange(5, 7) =~= digits_of(t.month as nat, 2));
    assert(s.subrange(8, 10) =~= digits_of(t.day as nat, 2));
    assert(s.subrange(11, 13) =~= digits_of(t.hour as nat, 2));
    assert(s.subrange(14, 16) =~= digits_of(t.minute as nat, 2));
    assert(s.subrange(17, 19) =~= digits_of(t.second as nat, 2));
    lemma_read_back(s, 0, t.year as nat, 4);
    lemma_read_back(s, 5, t.month as nat, 2);
    lemma_read_back(s, 8, t.day as nat, 2);
    lemma_read_back(s, 11, t.hour as nat, 2);
    lemma_read_back(s, 14, t.minute as nat, 2);
    lemma_read_back(s, 17, t.second as nat, 2);
    let end = s.skip(19);
    assert(end =~= seq!['.'] + digits_of(milliseconds, 3) + seq!['Z']);
    assert forall|i: int| 1 <= i < end.len() - 1 implies is_digit(#[trigger] end[i]) by {
        assert(end[i] == digits_of(milliseconds, 3)[i - 1]);
    }
}

/// Time goes on evenly: a second, a minute, an hour and a day later are one, sixty,
/// 3600 and 86400 seconds more.
pub proof fn law_time_goes_on_evenly(t: DateTime, d: u64)
    requires
        t.year <= 9999,
        t.month <= 12,
        t.day + d <= 31,
        t.hour + d <= 24,
        t.minute + d <= 60,
        t.second + d <= 60,
    ensures
        seconds_of(DateTime { second: (t.second + d) as u64, ..t }) == seconds_of(t) + d,
        seconds_of(DateTime { minute: (t.minute + d) as u64, ..t }) == seconds_of(t) + 60 * d,
        seconds_of(DateTime { hour: (t.hour + d) as u64, ..t }) == seconds_of(t) + 3600 * d,
        seconds_of(DateTime { day: (t.day + d) as u64, ..t }) == seconds_of(t) + 86400 * d,
{
    let base = days_to_year(t.year as int) + days_to_month(t.year as int, t.month as int) - 1;
    assert((base + t.day + d) * 86400 == (base + t.day) * 86400 + 86400 * d) by (nonlinear_arith);
}

/// The calendar is that of Gregory: every fourth year is a day longer, but of the full
/// centuries only every fourth; so four hundred years have 146097 days. Months have 31
/// days, but for April, June, September and November, which have 30, and February.
pub proof fn law_calendar_repeats_after_four_centuries(year: int, month: int)
    requires
        year >= 1970,
        1 <= month <= 12,
    ensures
        days_to_year(1970) == 0,
        days_to_year(year + 1) - days_to_year(year) == if year % 400 == 0 || (year % 4 == 0 && year
            % 100 != 0) {
            366int
        } else {
            365
        },
        days_to_year(year + 400) - days_to_year(year) == 146097,
        days_to_month(year, 1) == 0,
        days_to_month(year, month + 1) - days_to_month(year, month) == if month == 4 || month == 6
            || month == 9 || month == 11 {
            30int
        } else if month == 2 {
            days_to_year(year + 1) - days_to_year(year) - 337
        } else {
            31
        },
        days_to_month(year, 13) == days_to_year(year + 1) - days_to_year(year),
{
    lemma_closed(year);
    lemma_closed(year + 400);
    lemma_year_ends(year);
}

/// A point in time is written in 24 characters, which are read back as its seconds.
pub proof fn law_written_times_read_back(unix_ms: u64, r: String)
    requires
        unix_ms / 1000 < END_OF_TIME,
        call_ensures(format_rfc3339, (unix_ms,), r),
    ensures
        r@.len() == 24,
        r@[4] == '-' && r@[7] == '-' && r@[10] == 'T' && r@[13] == ':' && r@[16] == ':' && r@[19]
            == '.' && r@[23] == 'Z',
        parsed_seconds(r@) == Some((unix_ms / 1000) as int),
{
    let t = choose|t: DateTime| #[trigger]
        is_real(t) && seconds_of(t) == unix_ms / 1000 && r@ == time_text(t, unix_ms as nat % 1000);
    law_time_reads_back(t, unix_ms as nat % 1000);
    lemma_digits_len(t.year as nat, 4);
    lemma_digits_len(t.month as nat, 2);
    lemma_digits_len(t.day as nat, 2);
    lemma_digits_len(t.hour as nat, 2);
    lemma_digits_len(t.minute as nat, 2);
    lemma_digits_len(t.second as nat, 2);
    lemma_digits_len(unix_ms as nat % 1000, 3);
}

} // verus!
