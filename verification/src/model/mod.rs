//! Plain data carried by the resource schemas: years, calendar dates,
//! timestamps and fixed-point decimals.
//!
//! Dates travel on the wire as `YYYY-MM-DD` text and timestamps as Unix
//! epoch seconds; both are modelled here as plain values with verified
//! parsing.

use vstd::prelude::*;
use crate::text::{dec_str, fmt_u64};

pub mod id;
pub mod team;
pub mod event;
pub mod matches;

verus! {

/// A four-digit competition year.
#[derive(Clone, Copy, Debug, PartialEq, Eq, Hash, Structural)]
pub struct Year(u16);

/// Error returned from [`Year::new`] if the given value was not 4 digits.
#[derive(Clone, Copy, Debug, PartialEq, Eq, Structural)]
pub struct Not4Digits;

impl View for Year {
    type V = u16;

    closed spec fn view(&self) -> u16 {
        self.0
    }
}

impl Year {
    /// Create a new year from a 4-digit number.
    pub fn new(year: u16) -> (r: Result<Self, Not4Digits>)
        ensures
            match r {
                Ok(y) => 1000 <= year <= 9999 && y@ == year,
                Err(_) => !(1000 <= year <= 9999),
            },
    {
        if 1000 <= year && year <= 9999 {
            Ok(Year(year))
        } else {
            Err(Not4Digits)
        }
    }

    /// The year's value.
    pub fn val(&self) -> (r: u16)
        ensures
            r == self@,
    {
        self.0
    }

    /// The year as decimal text, as it appears in request paths.
    pub fn text(&self) -> (r: String)
        ensures
            r@ == dec_str(self@ as nat),
    {
        fmt_u64(self.0 as u64)
    }
}

/// Whether `y` is a leap year in the Gregorian calendar.
pub open spec fn is_leap_year(y: nat) -> bool {
    y % 4 == 0 && (y % 100 != 0 || y % 400 == 0)
}

/// The number of days of month `m` in year `y` (meaningful for
/// `1 <= m <= 12`).
pub open spec fn days_in_month(y: nat, m: nat) -> nat {
    if m == 2 {
        if is_leap_year(y) {
            29
        } else {
            28
        }
    } else if m == 4 || m == 6 || m == 9 || m == 11 {
        30
    } else {
        31
    }
}

/// A calendar date, as carried by `YYYY-MM-DD` wire text.
#[derive(Clone, Copy, Debug, PartialEq, Eq, Hash, Structural)]
pub struct Date {
    pub year: u16,
    pub month: u8,
    pub day: u8,
}

/// Whether `c` is a decimal digit character.
pub open spec fn is_dec_digit(c: char) -> bool {
    '0' <= c && c <= '9'
}

/// The value of the digit character `c` (meaningful when `is_dec_digit`).
pub open spec fn digit_val(c: char) -> int {
    c as int - '0' as int
}

/// The date encoded by the ten characters `YYYY-MM-DD`, provided the text
/// has that exact shape and names a real calendar date.
pub open spec fn spec_parse_date(s: Seq<char>) -> Option<Date> {
    if s.len() == 10 && s[4] == '-' && s[7] == '-' && is_dec_digit(s[0]) && is_dec_digit(s[1])
        && is_dec_digit(s[2]) && is_dec_digit(s[3]) && is_dec_digit(s[5]) && is_dec_digit(s[6])
        && is_dec_digit(s[8]) && is_dec_digit(s[9]) {
        let y = digit_val(s[0]) * 1000 + digit_val(s[1]) * 100 + digit_val(s[2]) * 10 + digit_val(
            s[3],
        );
        let m = digit_val(s[5]) * 10 + digit_val(s[6]);
        let d = digit_val(s[8]) * 10 + digit_val(s[9]);
        if 1 <= m <= 12 && 1 <= d <= days_in_month(y as nat, m as nat) {
            Some(Date { year: y as u16, month: m as u8, day: d as u8 })
        } else {
            None
        }
    } else {
        None
    }
}

impl Date {
    /// Whether the fields name a real calendar date.
    pub open spec fn wf(self) -> bool {
        &&& 1 <= self.month <= 12
        &&& 1 <= self.day <= days_in_month(self.year as nat, self.month as nat)
    }

    /// A date from its fields, if they name a real calendar date.
    pub fn new(year: u16, month: u8, day: u8) -> (r: Option<Date>)
        ensures
            match r {
                Some(dt) => dt == (Date { year, month, day }) && dt.wf(),
                None => !(Date { year, month, day }).wf(),
            },
    {
        if 1 <= month && month <= 12 && 1 <= day && day <= days_in_month_of(year, month) {
            Some(Date { year, month, day })
        } else {
            None
        }
    }

    /// Parse `YYYY-MM-DD` text into a date.  Returns the date exactly when
    /// the text has that shape and names a real calendar date.
    pub fn parse_yyyymmdd(s: &str) -> (r: Option<Date>)
        ensures
            r == spec_parse_date(s@),
            r matches Some(dt) ==> dt.wf(),
    {
        if s.unicode_len() != 10 {
            return None;
        }
        let dash1 = s.get_char(4);
        let dash2 = s.get_char(7);
        if dash1 != '-' || dash2 != '-' {
            return None;
        }
        let d0 = digit_of(s.get_char(0));
        let d1 = digit_of(s.get_char(1));
        let d2 = digit_of(s.get_char(2));
        let d3 = digit_of(s.get_char(3));
        let d5 = digit_of(s.get_char(5));
        let d6 = digit_of(s.get_char(6));
        let d8 = digit_of(s.get_char(8));
        let d9 = digit_of(s.get_char(9));
        match (d0, d1, d2, d3, d5, d6, d8, d9) {
            (
                Some(y0),
                Some(y1),
                Some(y2),
                Some(y3),
                Some(m0),
                Some(m1),
                Some(dd0),
                Some(dd1),
            ) => {
                let year: u16 = (y0 as u16) * 1000 + (y1 as u16) * 100 + (y2 as u16) * 10 + (
                y3 as u16);
                let month: u8 = m0 * 10 + m1;
                let day: u8 = dd0 * 10 + dd1;
                Date::new(year, month, day)
            },
            _ => None,
        }
    }
}

/// The number of days of `month` in `year`.
pub fn days_in_month_of(year: u16, month: u8) -> (r: u8)
    requires
        1 <= month <= 12,
    ensures
        r == days_in_month(year as nat, month as nat),
{
    if month == 2 {
        if year % 4 == 0 && (year % 100 != 0 || year % 400 == 0) {
            29
        } else {
            28
        }
    } else if month == 4 || month == 6 || month == 9 || month == 11 {
        30
    } else {
        31
    }
}

/// The value of a decimal digit character, if it is one.
pub fn digit_of(c: char) -> (r: Option<u8>)
    ensures
        match r {
            Some(d) => is_dec_digit(c) && d == digit_val(c),
            None => !is_dec_digit(c),
        },
{
    let u = c as u32;
    if 48 <= u && u <= 57 {
        Some((u - 48) as u8)
    } else {
        None
    }
}

/// A point in time, in whole seconds since the Unix epoch.
#[derive(Clone, Copy, Debug, PartialEq, Eq, Hash, Structural)]
pub struct Timestamp {
    pub secs: i64,
}

impl Timestamp {
    /// A timestamp from epoch seconds.
    pub fn from_epoch_secs(secs: i64) -> (r: Self)
        ensures
            r.secs == secs,
    {
        Timestamp { secs }
    }
}

/// A signed decimal held in millionths, for wire fields that carry
/// fractional numbers (coordinates, rating averages).
#[derive(Clone, Copy, Debug, PartialEq, Eq, Hash, Structural)]
pub struct Millionths {
    pub units: i64,
}

} // verus!
