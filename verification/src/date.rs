//! Calendar dates: the plain form in which the registry holds a creation,
//! graduation or acquisition date, the text it shows for one, and the reading
//! of a date that a payload carries as text.

use vstd::prelude::*;
use crate::text::{digit, digit_text};

verus! {

/// Whether `year` is a leap year of the proleptic Gregorian calendar.
pub open spec fn is_leap_year(year: int) -> bool {
    year % 4 == 0 && (year % 100 != 0 || year % 400 == 0)
}

/// The number of days of `month` in `year`; 0 where `month` is no month.
pub open spec fn days_in_month(year: int, month: int) -> int {
    if month == 2 {
        if is_leap_year(year) {
            29
        } else {
            28
        }
    } else if month == 4 || month == 6 || month == 9 || month == 11 {
        30
    } else if 1 <= month <= 12 {
        31
    } else {
        0
    }
}

/// Whether year, month and day name a day of the calendar, within the years
/// that a date can hold.
pub open spec fn is_calendar_date(year: int, month: int, day: int) -> bool {
    &&& -9999 <= year <= 9999
    &&& 1 <= month <= 12
    &&& 1 <= day <= days_in_month(year, month)
}

/// The last `width` decimal digits of `n`, zeros included: the numeral of `n`
/// padded with zeros on the left where `n` has at most `width` digits.
pub open spec fn padded(n: nat, width: nat) -> Seq<char>
    decreases width,
{
    if width == 0 {
        Seq::<char>::empty()
    } else {
        padded(n / 10, (width - 1) as nat).push(digit((n % 10) as int))
    }
}

/// The text of a calendar date: a minus sign before a negative year, the year
/// in four digits, the month and the day in two digits each, with a hyphen
/// between them.
pub open spec fn date_text(year: int, month: int, day: int) -> Seq<char> {
    let sign = if year < 0 {
        seq!['-']
    } else {
        Seq::<char>::empty()
    };
    let magnitude = if year < 0 {
        -year
    } else {
        year
    };
    sign + padded(magnitude as nat, 4) + seq!['-'] + padded(month as nat, 2) + seq!['-'] + padded(
        day as nat,
        2,
    )
}

/// What reading `text` as a date of the form `[year]-[month]-[day]` gives:
/// year, month and day, or nothing where the text is no such date.
pub uninterp spec fn parsed_date(text: Seq<char>) -> Option<(int, int, int)>;

/// Whether `text` is read as a date, and the date is a day of the calendar.
pub open spec fn readable(text: Seq<char>) -> bool {
    parsed_date(text) matches Some(ymd) && is_calendar_date(ymd.0, ymd.1, ymd.2)
}

/// A day of the proleptic Gregorian calendar.
#[derive(Clone, Copy, Debug, PartialEq, Eq)]
pub struct CalendarDate {
    year: i32,
    month: u8,
    day: u8,
}

impl CalendarDate {
    /// Year, month and day name a day of the calendar.
    #[verifier::type_invariant]
    spec fn valid(self) -> bool {
        is_calendar_date(self.year as int, self.month as int, self.day as int)
    }

    /// Year, month and day of this date.
    pub closed spec fn ymd(self) -> (int, int, int) {
        (self.year as int, self.month as int, self.day as int)
    }

    /// The date of the given year, month and day, where there is such a day.
    pub fn new(year: i32, month: u8, day: u8) -> (r: Option<CalendarDate>)
        ensures
            r is Some <==> is_calendar_date(year as int, month as int, day as int),
            r matches Some(d) ==> d.ymd() == (year as int, month as int, day as int),
    {
        if year < -9999 || year > 9999 || month < 1 || month > 12 || day < 1 {
            return None;
        }
        let leap: bool = year % 4 == 0 && (year % 100 != 0 || year % 400 == 0);
        let length: u8 = if month == 2 {
            if leap {
                29
            } else {
                28
            }
        } else if month == 4 || month == 6 || month == 9 || month == 11 {
            30
        } else {
            31
        };
        if day > length {
            return None;
        }
        Some(CalendarDate { year, month, day })
    }

    /// The year, from -9999 to 9999.
    pub fn year(&self) -> (r: i32)
        ensures
            r == self.ymd().0,
    {
        self.year
    }

    /// The month, from 1 to 12.
    pub fn month(&self) -> (r: u8)
        ensures
            r == self.ymd().1,
    {
        self.month
    }

    /// The day of the month, from 1. Year, month and day of a date always
    /// name a day of the calendar.
    pub fn day(&self) -> (r: u8)
        ensures
            r == self.ymd().2,
            is_calendar_date(self.ymd().0, self.ymd().1, self.ymd().2),
    {
        proof {
            use_type_invariant(self);
        }
        self.day
    }

    /// The text shown for this date, such as `2023-02-21`: the same text that
    /// the `time` crate shows for the day.
    pub fn to_string(&self) -> (r: String)
        ensures
            r@ == date_text(self.ymd().0, self.ymd().1, self.ymd().2),
    {
        proof {
            use_type_invariant(self);
            reveal_strlit("-");
        }
        let mut out = String::new();
        let magnitude: u32 = if self.year < 0 {
            out.append("-");
            (-self.year) as u32
        } else {
            self.year as u32
        };
        push_padded(&mut out, magnitude, 4);
        out.append("-");
        push_padded(&mut out, self.month as u32, 2);
        out.append("-");
        push_padded(&mut out, self.day as u32, 2);
        assert(out@ =~= date_text(self.ymd().0, self.ymd().1, self.ymd().2));
        out
    }

    /// Reads a date written as `[year]-[month]-[day]`, such as `2023-02-21`.
    /// Gives the date exactly where the text is one.
    pub fn parse(text: &str) -> (r: Option<CalendarDate>)
        ensures
            r is Some <==> readable(text@),
            r matches Some(d) ==> parsed_date(text@) == Some(d.ymd()),
    {
        match read_date(text) {
            Some((year, month, day)) => CalendarDate::new(year, month, day),
            None => None,
        }
    }
}

/// Appends the last `width` decimal digits of `n` to `out`.
pub fn push_padded(out: &mut String, n: u32, width: u8)
    ensures
        final(out)@ == old(out)@ + padded(n as nat, width as nat),
    decreases width,
{
    if width > 0 {
        push_padded(out, n / 10, width - 1);
        let last: u8 = (n % 10) as u8;
        out.append(digit_text(last));
    }
    assert(final(out)@ =~= old(out)@ + padded(n as nat, width as nat));
}

/// Calls `Date::parse` of the `time` crate on `text`, with the format
/// description that `format_description::parse` of that crate makes of
/// `[year]-[month]-[day]`, and hands out year, month and day of the date
/// that was read. Nothing is claimed of which texts are dates: the result is
/// `parsed_date` of the text, no more.
#[allow(deprecated)]
#[verifier::external_body]
fn read_date(text: &str) -> (r: Option<(i32, u8, u8)>)
    ensures
        r is Some <==> parsed_date(text@) is Some,
        r matches Some(ymd) ==> parsed_date(text@) == Some(
            (ymd.0 as int, ymd.1 as int, ymd.2 as int),
        ),
{
    let format = actix_web::cookie::time::format_description::parse("[year]-[month]-[day]").ok()?;
    let date = actix_web::cookie::time::Date::parse(text, &format).ok()?;
    Some((date.year(), u8::from(date.month()), date.day()))
}

} // verus!
