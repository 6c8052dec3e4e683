//! Calendar dates and timestamps as plain values.
//!
//! Broker exports carry timestamps in the fixed notation
//! `YYYY-MM-DD HH:MM:SS` and dates as `YYYY-MM-DD`. The types here hold the
//! fields directly, validated against the civil calendar (month lengths,
//! leap years), and order chronologically through a positional key.

use vstd::prelude::*;
use crate::text::{all_digits, digits_val, is_digit, parse_u64_digits, str_chars, vec_slice};

verus! {

/// A calendar date.
#[derive(Clone, Copy, PartialEq, Eq, Structural, Debug)]
pub struct Date {
    pub year: u32,
    pub month: u32,
    pub day: u32,
}

/// A calendar date with a time of day.
#[derive(Clone, Copy, PartialEq, Eq, Structural, Debug)]
pub struct DateTime {
    pub date: Date,
    pub hour: u32,
    pub minute: u32,
    pub second: u32,
}

/// Whether a year has a 29th of February.
pub open spec fn spec_is_leap_year(y: int) -> bool {
    y % 4 == 0 && (y % 100 != 0 || y % 400 == 0)
}

/// The number of days in a month of a year.
pub open spec fn spec_days_in_month(y: int, m: int) -> int {
    if m == 1 || m == 3 || m == 5 || m == 7 || m == 8 || m == 10 || m == 12 {
        31
    } else if m == 4 || m == 6 || m == 9 || m == 11 {
        30
    } else if spec_is_leap_year(y) {
        29
    } else {
        28
    }
}

impl Date {
    /// A real date of the civil calendar with a four-digit year.
    pub open spec fn valid(self) -> bool {
        &&& self.year <= 9999
        &&& 1 <= self.month <= 12
        &&& 1 <= self.day <= spec_days_in_month(self.year as int, self.month as int)
    }
}

impl DateTime {
    /// A real date with a time of day.
    pub open spec fn valid(self) -> bool {
        &&& self.date.valid()
        &&& self.hour <= 23
        &&& self.minute <= 59
        &&& self.second <= 59
    }

    /// A positional encoding of the fields; for valid values its numeric
    /// order is the chronological order.
    pub open spec fn spec_key(self) -> int {
        ((((self.date.year as int * 100 + self.date.month) * 100 + self.date.day) * 100
            + self.hour) * 100 + self.minute) * 100 + self.second
    }

    /// The chronological sort key.
    pub fn key(&self) -> (r: u64)
        requires
            self.valid(),
        ensures
            r as int == self.spec_key(),
    {
        ((((self.date.year as u64 * 100 + self.date.month as u64) * 100 + self.date.day as u64)
            * 100 + self.hour as u64) * 100 + self.minute as u64) * 100 + self.second as u64
    }
}

pub fn is_leap_year(y: u32) -> (r: bool)
    ensures
        r == spec_is_leap_year(y as int),
{
    y % 4 == 0 && (y % 100 != 0 || y % 400 == 0)
}

pub fn days_in_month(y: u32, m: u32) -> (r: u32)
    ensures
        r as int == spec_days_in_month(y as int, m as int),
{
    if m == 1 || m == 3 || m == 5 || m == 7 || m == 8 || m == 10 || m == 12 {
        31
    } else if m == 4 || m == 6 || m == 9 || m == 11 {
        30
    } else if is_leap_year(y) {
        29
    } else {
        28
    }
}

/// The date denoted by ten characters in `YYYY-MM-DD` notation, validated
/// against the calendar; `None` for anything else.
pub open spec fn spec_parse_date(s: Seq<char>) -> Option<Date> {
    if s.len() != 10 {
        None
    } else if !(s[4] == '-' && s[7] == '-') {
        None
    } else {
        let ys = s.subrange(0, 4);
        let ms = s.subrange(5, 7);
        let ds = s.subrange(8, 10);
        if !(all_digits(ys) && all_digits(ms) && all_digits(ds)) {
            None
        } else {
            let d = Date {
                year: digits_val(ys) as u32,
                month: digits_val(ms) as u32,
                day: digits_val(ds) as u32,
            };
            if d.valid() {
                Some(d)
            } else {
                None
            }
        }
    }
}

/// The timestamp denoted by nineteen characters in `YYYY-MM-DD HH:MM:SS`
/// notation, validated against the calendar and the clock.
pub open spec fn spec_parse_datetime(s: Seq<char>) -> Option<DateTime> {
    if s.len() != 19 {
        None
    } else if !(s[4] == '-' && s[7] == '-' && s[10] == ' ' && s[13] == ':' && s[16] == ':') {
        None
    } else {
        let ys = s.subrange(0, 4);
        let ms = s.subrange(5, 7);
        let ds = s.subrange(8, 10);
        let hs = s.subrange(11, 13);
        let mins = s.subrange(14, 16);
        let ss = s.subrange(17, 19);
        if !(all_digits(ys) && all_digits(ms) && all_digits(ds) && all_digits(hs) && all_digits(
            mins,
        ) && all_digits(ss)) {
            None
        } else {
            let dt = DateTime {
                date: Date {
                    year: digits_val(ys) as u32,
                    month: digits_val(ms) as u32,
                    day: digits_val(ds) as u32,
                },
                hour: digits_val(hs) as u32,
                minute: digits_val(mins) as u32,
                second: digits_val(ss) as u32,
            };
            if dt.valid() {
                Some(dt)
            } else {
                None
            }
        }
    }
}

/// Reads one fixed-width digit field out of a character buffer.
fn digit_field(cs: &Vec<char>, a: usize, b: usize) -> (r: Option<u32>)
    requires
        a <= b <= cs@.len(),
        b - a <= 4,
    ensures
        r is Some <==> (b > a && all_digits(cs@.subrange(a as int, b as int))),
        r is Some ==> r->Some_0 as int == digits_val(cs@.subrange(a as int, b as int)),
        r is Some ==> r->Some_0 < 10000,
    decreases b,
{
    let part = vec_slice(cs, a, b);
    if part.len() == 0 {
        return None;
    }
    match parse_u64_digits(part.as_slice()) {
        Some(v) => {
            proof {
                crate::text::lemma_digits_val_nonneg(part@);
                lemma_small_digits_bound(part@);
            }
            Some(v as u32)
        },
        None => {
            proof {
                if all_digits(part@) {
                    lemma_small_digits_bound(part@);
                    crate::text::lemma_digits_val_nonneg(part@);
                }
            }
            None
        },
    }
}

proof fn lemma_small_digits_bound(s: Seq<char>)
    requires
        all_digits(s),
        s.len() <= 4,
    ensures
        digits_val(s) < 10000,
    decreases s.len(),
{
    if s.len() == 0 {
    } else {
        assert(all_digits(s.drop_last()));
        lemma_small_digits_bound_n(s, s.len() as int);
    }
}

proof fn lemma_small_digits_bound_n(s: Seq<char>, n: int)
    requires
        all_digits(s),
        s.len() == n,
        0 <= n <= 4,
    ensures
        digits_val(s) < if n == 0 {
            1int
        } else if n == 1 {
            10int
        } else if n == 2 {
            100int
        } else if n == 3 {
            1000int
        } else {
            10000int
        },
    decreases n,
{
    if n > 0 {
        assert(all_digits(s.drop_last()));
        lemma_small_digits_bound_n(s.drop_last(), n - 1);
    }
}

/// Fixed-notation date parse: `YYYY-MM-DD`.
pub fn parse_date(s: &str) -> (r: Option<Date>)
    ensures
        r == spec_parse_date(s@),
        r is Some ==> r->Some_0.valid(),
{
    let cs = str_chars(s);
    if cs.len() != 10 {
        return None;
    }
    if !(cs[4] == '-' && cs[7] == '-') {
        return None;
    }
    let y = match digit_field(&cs, 0, 4) {
        Some(v) => v,
        None => {
            return None;
        },
    };
    let mo = match digit_field(&cs, 5, 7) {
        Some(v) => v,
        None => {
            return None;
        },
    };
    let da = match digit_field(&cs, 8, 10) {
        Some(v) => v,
        None => {
            return None;
        },
    };
    let d = Date { year: y, month: mo, day: da };
    if y <= 9999 && 1 <= mo && mo <= 12 && 1 <= da && da <= days_in_month(y, mo) {
        Some(d)
    } else {
        None
    }
}

/// Fixed-notation timestamp parse: `YYYY-MM-DD HH:MM:SS`.
pub fn parse_datetime(s: &str) -> (r: Option<DateTime>)
    ensures
        r == spec_parse_datetime(s@),
        r is Some ==> r->Some_0.valid(),
{
    let cs = str_chars(s);
    if cs.len() != 19 {
        return None;
    }
    if !(cs[4] == '-' && cs[7] == '-' && cs[10] == ' ' && cs[13] == ':' && cs[16] == ':') {
        return None;
    }
    let y = match digit_field(&cs, 0, 4) {
        Some(v) => v,
        None => {
            return None;
        },
    };
    let mo = match digit_field(&cs, 5, 7) {
        Some(v) => v,
        None => {
            return None;
        },
    };
    let da = match digit_field(&cs, 8, 10) {
        Some(v) => v,
        None => {
            return None;
        },
    };
    let h = match digit_field(&cs, 11, 13) {
        Some(v) => v,
        None => {
            return None;
        },
    };
    let mi = match digit_field(&cs, 14, 16) {
        Some(v) => v,
        None => {
            return None;
        },
    };
    let se = match digit_field(&cs, 17, 19) {
        Some(v) => v,
        None => {
            return None;
        },
    };
    let dt = DateTime {
        date: Date { year: y, month: mo, day: da },
        hour: h,
        minute: mi,
        second: se,
    };
    if y <= 9999 && 1 <= mo && mo <= 12 && 1 <= da && da <= days_in_month(y, mo) && h <= 23
        && mi <= 59 && se <= 59 {
        Some(dt)
    } else {
        None
    }
}

} // verus!
