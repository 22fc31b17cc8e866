//! Calendar arithmetic for RFC 3339 timestamps (UTC, proleptic Gregorian from 1970-01-01).

use vstd::prelude::*;

use crate::text::{decimal, push_padded, string_from_chars, zero_pad};

verus! {

pub open spec fn is_leap_year(y: int) -> bool {
    (y % 4 == 0 && y % 100 != 0) || y % 400 == 0
}

/// Number of days in month `m` of year `y` (months outside `1..=12` count 30 days).
pub open spec fn month_length(y: int, m: int) -> int {
    if m == 1 || m == 3 || m == 5 || m == 7 || m == 8 || m == 10 || m == 12 {
        31
    } else if m == 4 || m == 6 || m == 9 || m == 11 {
        30
    } else if m == 2 {
        if is_leap_year(y) {
            29
        } else {
            28
        }
    } else {
        30
    }
}

/// The date reached by walking `days` days forward from the first day of month `m` of year `y`.
pub open spec fn walk_days(y: nat, m: nat, days: nat) -> (nat, nat, nat)
    decreases days,
{
    if days < month_length(y as int, m as int) {
        (y, m, days + 1)
    } else {
        let rest = (days - month_length(y as int, m as int)) as nat;
        if m + 1 > 12 {
            walk_days(y + 1, 1, rest)
        } else {
            walk_days(y, m + 1, rest)
        }
    }
}

/// `(year, month, day)` of the date `days` days after 1970-01-01.
pub open spec fn date_of_day(days: nat) -> (nat, nat, nat) {
    walk_days(1970, 1, days)
}

pub fn days_in_month(y: u32, m: u32) -> (d: u32)
    ensures
        d == month_length(y as int, m as int),
{
    if m == 1 || m == 3 || m == 5 || m == 7 || m == 8 || m == 10 || m == 12 {
        31
    } else if m == 4 || m == 6 || m == 9 || m == 11 {
        30
    } else if m == 2 {
        if (y % 4 == 0 && y % 100 != 0) || (y % 400 == 0) {
            29
        } else {
            28
        }
    } else {
        30
    }
}

/// Days of a common year that precede month `m` (`1 <= m <= 12`).
pub open spec fn common_days_before(m: int) -> int {
    if m <= 1 {
        0
    } else if m == 2 {
        31
    } else if m == 3 {
        59
    } else if m == 4 {
        90
    } else if m == 5 {
        120
    } else if m == 6 {
        151
    } else if m == 7 {
        181
    } else if m == 8 {
        212
    } else if m == 9 {
        243
    } else if m == 10 {
        273
    } else if m == 11 {
        304
    } else {
        334
    }
}

/// Convert UNIX epoch days to a calendar date.
pub fn days_to_date(days: u32) -> (r: (u32, u32, u32))
    ensures
        (r.0 as nat, r.1 as nat, r.2 as nat) == date_of_day(days as nat),
{
    let mut y: u32 = 1970;
    let mut m: u32 = 1;
    let mut left: u32 = days;
    let ghost mut used: nat = 0;
    while left >= days_in_month(y, m)
        invariant
            1 <= m <= 12,
            y >= 1970,
            used + left == days,
            used >= 365 * (y - 1970) + common_days_before(m as int),
            walk_days(y as nat, m as nat, left as nat) == date_of_day(days as nat),
        decreases left,
    {
        let dim = days_in_month(y, m);
        left = left - dim;
        proof {
            used = (used + dim) as nat;
        }
        m = m + 1;
        if m > 12 {
            m = 1;
            assert(used >= 365 * (y - 1970) + 365);
            assert(y - 1970 <= days / 365) by (nonlinear_arith)
                requires
                    used >= 365 * (y - 1970) + 365,
                    used <= days,
                    y >= 1970,
            ;
            y = y + 1;
        }
    }
    (y, m, left + 1)
}

/// Number of days in month `m` of year `y`, for years beyond the range of `u32`.
fn month_days(y: u64, m: u64) -> (d: u64)
    ensures
        d == month_length(y as int, m as int),
{
    if m == 1 || m == 3 || m == 5 || m == 7 || m == 8 || m == 10 || m == 12 {
        31
    } else if m == 4 || m == 6 || m == 9 || m == 11 {
        30
    } else if m == 2 {
        if (y % 4 == 0 && y % 100 != 0) || (y % 400 == 0) {
            29
        } else {
            28
        }
    } else {
        30
    }
}

/// The calendar date `(year, month, day)` that lies `days` days after 1970-01-01.
pub fn calendar_date(days: u64) -> (r: (u64, u64, u64))
    ensures
        (r.0 as nat, r.1 as nat, r.2 as nat) == date_of_day(days as nat),
{
    let mut y: u64 = 1970;
    let mut m: u64 = 1;
    let mut left: u64 = days;
    let ghost mut used: nat = 0;
    while left >= month_days(y, m)
        invariant
            1 <= m <= 12,
            y >= 1970,
            used + left == days,
            used >= 365 * (y - 1970) + common_days_before(m as int),
            walk_days(y as nat, m as nat, left as nat) == date_of_day(days as nat),
        decreases left,
    {
        let dim = month_days(y, m);
        left = left - dim;
        proof {
            used = (used + dim) as nat;
        }
        m = m + 1;
        if m > 12 {
            m = 1;
            assert(used >= 365 * (y - 1970) + 365);
            assert(y - 1970 <= days / 365) by (nonlinear_arith)
                requires
                    used >= 365 * (y - 1970) + 365,
                    used <= days,
                    y >= 1970,
            ;
            y = y + 1;
        }
    }
    (y, m, left + 1)
}

/// `secs` (seconds since the UNIX epoch) as `YYYY-MM-DDTHH:MM:SSZ`.
pub open spec fn rfc3339(secs: u64) -> Seq<char> {
    let days = secs / 86400;
    let rem = secs % 86400;
    let date = date_of_day(((days as u32) as nat));
    zero_pad(decimal(date.0), 4) + seq!['-'] + zero_pad(decimal(date.1), 2) + seq!['-']
        + zero_pad(decimal(date.2), 2) + seq!['T'] + zero_pad(decimal((rem / 3600) as nat), 2)
        + seq![':'] + zero_pad(decimal(((rem % 3600) / 60) as nat), 2) + seq![':'] + zero_pad(
        decimal((rem % 60) as nat),
        2,
    ) + seq!['Z']
}

pub fn now_to_rfc3339(secs: u64) -> (s: String)
    ensures
        s@ == rfc3339(secs),
{
    let days = secs / 86400;
    let remaining = secs % 86400;
    let h = remaining / 3600;
    let m = (remaining % 3600) / 60;
    let sec = remaining % 60;
    let (year, month, day) = days_to_date(days as u32);
    let mut out: Vec<char> = Vec::new();
    push_padded(&mut out, year as u64, 4);
    out.push('-');
    push_padded(&mut out, month as u64, 2);
    out.push('-');
    push_padded(&mut out, day as u64, 2);
    out.push('T');
    push_padded(&mut out, h, 2);
    out.push(':');
    push_padded(&mut out, m, 2);
    out.push(':');
    push_padded(&mut out, sec, 2);
    out.push('Z');
    assert(out@ =~= rfc3339(secs));
    string_from_chars(&out)
}

/// Days from 1970-01-01 to January 1st of year `y`.
pub open spec fn days_before_year(y: nat) -> nat
    decreases y,
{
    if y <= 1970 {
        0
    } else {
        days_before_year((y - 1) as nat) + (if is_leap_year(y - 1) {
            366nat
        } else {
            365nat
        })
    }
}

/// Days of year `y` that precede the first day of month `m`.
pub open spec fn days_before_month(y: nat, m: nat) -> nat
    decreases m,
{
    if m <= 1 {
        0
    } else {
        (days_before_month(y, (m - 1) as nat) + month_length(y as int, m - 1)) as nat
    }
}

/// Days from 1970-01-01 to the date `(y, m, d)`.
pub open spec fn day_number(y: nat, m: nat, d: nat) -> int {
    days_before_year(y) + days_before_month(y, m) + d - 1
}

proof fn lemma_year_length(y: nat)
    ensures
        days_before_month(y, 12) + month_length(y as int, 12) == (if is_leap_year(y as int) {
            366int
        } else {
            365int
        }),
{
    reveal_with_fuel(days_before_month, 13);
}

proof fn lemma_walk_days(y: nat, m: nat, days: nat)
    requires
        1 <= m <= 12,
        y >= 1970,
    ensures
        ({
            let r = walk_days(y, m, days);
            &&& r.0 >= 1970
            &&& 1 <= r.1 <= 12
            &&& 1 <= r.2 <= month_length(r.0 as int, r.1 as int)
            &&& day_number(r.0, r.1, r.2) == days_before_year(y) + days_before_month(y, m) + days
        }),
    decreases days,
{
    if days < month_length(y as int, m as int) {
    } else {
        let rest = (days - month_length(y as int, m as int)) as nat;
        if m + 1 > 12 {
            lemma_walk_days(y + 1, 1, rest);
            lemma_year_length(y);
            assert(days_before_year(y + 1) == days_before_year(y) + (if is_leap_year(y as int) {
                366nat
            } else {
                365nat
            }));
        } else {
            lemma_walk_days(y, m + 1, rest);
        }
    }
}

/// Every day number maps to a real calendar date (month in `1..=12`, day within the
/// month), and counting the days back from 1970-01-01 to that date gives the day number.
pub proof fn lemma_date_of_day_roundtrip(days: nat)
    ensures
        ({
            let r = date_of_day(days);
            &&& r.0 >= 1970
            &&& 1 <= r.1 <= 12
            &&& 1 <= r.2 <= month_length(r.0 as int, r.1 as int)
            &&& day_number(r.0, r.1, r.2) == days
        }),
{
    lemma_walk_days(1970, 1, days);
}


/// The calendar day after `(y, m, d)`.
pub open spec fn next_day(date: (nat, nat, nat)) -> (nat, nat, nat) {
    let (y, m, d) = date;
    if d < month_length(y as int, m as int) {
        (y, m, d + 1)
    } else if m < 12 {
        (y, m + 1, 1)
    } else {
        (y + 1, 1, 1)
    }
}

proof fn lemma_walk_days_next(y: nat, m: nat, days: nat)
    requires
        1 <= m <= 12,
    ensures
        walk_days(y, m, days + 1) == next_day(walk_days(y, m, days)),
    decreases days,
{
    let len = month_length(y as int, m as int);
    assert(len >= 28);
    if days + 1 < len {
    } else if days + 1 == len {
        let rest: nat = 0;
        assert(((days + 1) - len) as nat == rest);
        if m + 1 > 12 {
            assert(walk_days(y + 1, 1, 0) == (y + 1, 1nat, 1nat));
        } else {
            assert(month_length(y as int, (m + 1) as int) >= 28);
            assert(walk_days(y, m + 1, 0) == (y, (m + 1) as nat, 1nat));
        }
    } else {
        let rest = (days - len) as nat;
        assert(((days + 1) - len) as nat == rest + 1);
        if m + 1 > 12 {
            lemma_walk_days_next(y + 1, 1, rest);
        } else {
            lemma_walk_days_next(y, m + 1, rest);
        }
    }
}

/// Day `n + 1` after 1970-01-01 is the calendar day after day `n`, and day 0 is
/// 1970-01-01.
pub proof fn lemma_date_of_day_successor(n: nat)
    ensures
        date_of_day(0) == (1970nat, 1nat, 1nat),
        date_of_day(n + 1) == next_day(date_of_day(n)),
{
    lemma_walk_days_next(1970, 1, n);
}

} // verus!
