//! Calendar dates in the proleptic Gregorian calendar, as `chrono` represents
//! them, and their `%Y-%m-%d` rendering.

use vstd::prelude::*;
use chrono::Datelike;
use crate::text::{decimal_spec, pad2_spec, push_decimal, push_pad2};

verus! {

/// The earliest year a date may have.
pub const MIN_YEAR: i32 = -262143;

/// The latest year a date may have.
pub const MAX_YEAR: i32 = 262142;

/// Whether `y` is a leap year.
pub open spec fn is_leap(y: int) -> bool {
    y % 4 == 0 && (y % 100 != 0 || y % 400 == 0)
}

/// The number of days in month `m` of year `y`.
pub open spec fn days_in_month(y: int, m: int) -> int {
    if m == 2 {
        if is_leap(y) { 29 } else { 28 }
    } else if m == 4 || m == 6 || m == 9 || m == 11 {
        30
    } else {
        31
    }
}

/// Whether `y-m-d` is a date in range.
pub open spec fn valid_ymd(y: int, m: int, d: int) -> bool {
    &&& MIN_YEAR <= y <= MAX_YEAR
    &&& 1 <= m <= 12
    &&& 1 <= d <= days_in_month(y, m)
}

/// A calendar date.
#[derive(Debug)]
pub struct Day {
    year: i32,
    month: u32,
    day: u32,
}

/// The mathematical value of a [`Day`].
pub struct DayView {
    pub year: int,
    pub month: int,
    pub day: int,
}

impl View for Day {
    type V = DayView;

    closed spec fn view(&self) -> DayView {
        DayView { year: self.year as int, month: self.month as int, day: self.day as int }
    }
}

/// `n` in decimal, zero-padded to four digits.
pub open spec fn pad4_spec(n: nat) -> Seq<char> {
    if n < 10 {
        "000"@ + decimal_spec(n)
    } else if n < 100 {
        "00"@ + decimal_spec(n)
    } else if n < 1000 {
        "0"@ + decimal_spec(n)
    } else {
        decimal_spec(n)
    }
}

/// The `%Y` rendering of a year: four digits for years `0..=9999`, else a
/// sign and at least four digits.
pub open spec fn year_text(y: int) -> Seq<char> {
    if 0 <= y <= 9999 {
        pad4_spec(y as nat)
    } else if y < 0 {
        "-"@ + pad4_spec((-y) as nat)
    } else {
        "+"@ + pad4_spec(y as nat)
    }
}

/// `%Y-%m-%d`.
pub open spec fn ymd_text(d: DayView) -> Seq<char> {
    year_text(d.year) + "-"@ + pad2_spec(d.month as nat) + "-"@ + pad2_spec(d.day as nat)
}

/// Appends `n` zero-padded to four digits.
fn push_pad4(out: &mut String, n: u64)
    ensures
        final(out)@ == old(out)@ + pad4_spec(n as nat),
{
    if n < 10 {
        out.append("000");
    } else if n < 100 {
        out.append("00");
    } else if n < 1000 {
        out.append("0");
    }
    push_decimal(out, n);
    assert(final(out)@ =~= old(out)@ + pad4_spec(n as nat));
}

impl Day {
    #[verifier::type_invariant]
    closed spec fn in_range(&self) -> bool {
        valid_ymd(self.year as int, self.month as int, self.day as int)
    }

    /// The date `year-month-day`, or `None` when there is no such date.
    pub fn new(year: i32, month: u32, day: u32) -> (d: Option<Self>)
        ensures
            d is Some <==> valid_ymd(year as int, month as int, day as int),
            d is Some ==> d->0@ == (DayView { year: year as int, month: month as int, day: day as int }),
    {
        if year < MIN_YEAR || year > MAX_YEAR || month < 1 || month > 12 || day < 1 {
            return None;
        }
        let leap = year % 4 == 0 && (year % 100 != 0 || year % 400 == 0);
        let last: u32 = if month == 2 {
            if leap { 29 } else { 28 }
        } else if month == 4 || month == 6 || month == 9 || month == 11 {
            30
        } else {
            31
        };
        if day > last {
            return None;
        }
        Some(Day { year, month, day })
    }

    /// The same date.
    pub fn copied(&self) -> (d: Self)
        ensures
            d@ == self@,
    {
        proof {
            use_type_invariant(self);
        }
        Day { year: self.year, month: self.month, day: self.day }
    }

    pub fn year(&self) -> (y: i32)
        ensures
            y == self@.year,
    {
        self.year
    }

    pub fn month(&self) -> (m: u32)
        ensures
            m == self@.month,
    {
        self.month
    }

    pub fn day(&self) -> (d: u32)
        ensures
            d == self@.day,
    {
        self.day
    }

    /// Appends the `%Y-%m-%d` rendering to `out`.
    pub fn push_ymd(&self, out: &mut String)
        ensures
            final(out)@ == old(out)@ + ymd_text(self@),
    {
        proof {
            use_type_invariant(self);
        }
        let y = self.year;
        if 0 <= y && y <= 9999 {
            push_pad4(out, y as u64);
        } else if y < 0 {
            out.append("-");
            push_pad4(out, (0 - (y as i64)) as u64);
        } else {
            out.append("+");
            push_pad4(out, y as u64);
        }
        out.append("-");
        push_pad2(out, self.month as u64);
        out.append("-");
        push_pad2(out, self.day as u64);
        assert(final(out)@ =~= old(out)@ + ymd_text(self@));
    }

    /// `self.format("%Y-%m-%d")`.
    pub fn ymd(&self) -> (s: String)
        ensures
            s@ == ymd_text(self@),
    {
        let mut s = String::new();
        self.push_ymd(&mut s);
        assert(s@ =~= ymd_text(self@));
        s
    }
}

/// Whether `d` is the last date there is.
pub open spec fn is_last_day(d: DayView) -> bool {
    d.year == MAX_YEAR && d.month == 12 && d.day == 31
}

/// The date after `d`.
pub open spec fn next_day_spec(d: DayView) -> DayView {
    if d.day < days_in_month(d.year, d.month) {
        DayView { year: d.year, month: d.month, day: d.day + 1 }
    } else if d.month < 12 {
        DayView { year: d.year, month: d.month + 1, day: 1 }
    } else {
        DayView { year: d.year + 1, month: 1, day: 1 }
    }
}

/// Whether `a` falls before `b`.
pub open spec fn before(a: DayView, b: DayView) -> bool {
    a.year < b.year || (a.year == b.year && (a.month < b.month || (a.month == b.month && a.day < b.day)))
}

impl Day {
    /// Whether this is the last date there is (it has no next day).
    pub fn is_last(&self) -> (r: bool)
        ensures
            r == is_last_day(self@),
    {
        self.year == MAX_YEAR && self.month == 12 && self.day == 31
    }

    /// The following date (`self + Duration::days(1)`).
    pub fn next_day(&self) -> (d: Self)
        requires
            !is_last_day(self@),
        ensures
            d@ == next_day_spec(self@),
    {
        proof {
            use_type_invariant(self);
        }
        let leap = self.year % 4 == 0 && (self.year % 100 != 0 || self.year % 400 == 0);
        let last: u32 = if self.month == 2 {
            if leap { 29 } else { 28 }
        } else if self.month == 4 || self.month == 6 || self.month == 9 || self.month == 11 {
            30
        } else {
            31
        };
        if self.day < last {
            Day { year: self.year, month: self.month, day: self.day + 1 }
        } else if self.month < 12 {
            Day { year: self.year, month: self.month + 1, day: 1 }
        } else {
            Day { year: self.year + 1, month: 1, day: 1 }
        }
    }
}

/// The next day of a date other than the last is a date, a later one, and
/// no date lies between the two.
pub proof fn law_next_day_is_later(d: DayView)
    requires
        valid_ymd(d.year, d.month, d.day),
        !is_last_day(d),
    ensures
        valid_ymd(next_day_spec(d).year, next_day_spec(d).month, next_day_spec(d).day),
        before(d, next_day_spec(d)),
        forall|e: DayView| before(d, e) && valid_ymd(e.year, e.month, e.day) ==> !before(e, next_day_spec(d)),
{
}

/// The date `chrono::NaiveDate::parse_from_str(s, "%Y-%m-%d")` reads from
/// `s`.
pub uninterp spec fn ymd_parsed(s: Seq<char>) -> Option<DayView>;

/// `chrono::NaiveDate::parse_from_str(s, "%Y-%m-%d")`. The result is named
/// [`ymd_parsed`] of the text; what chrono accepts is not stated.
#[verifier::external_body]
pub(crate) fn parse_ymd(s: &str) -> (d: Option<Day>)
    ensures
        d is Some <==> ymd_parsed(s@) is Some,
        d is Some ==> d->0@ == ymd_parsed(s@)->0,
{
    match chrono::NaiveDate::parse_from_str(s, "%Y-%m-%d") {
        Ok(date) => Some(Day { year: date.year(), month: date.month(), day: date.day() }),
        Err(_) => None,
    }
}

/// The day number of `y-m-d` in the proleptic Gregorian calendar, counted
/// from 1970-01-01.
pub open spec fn day_number(y: int, m: int, d: int) -> int {
    let yy = if m <= 2 { y - 1 } else { y };
    let era = yy / 400;
    let yoe = yy - era * 400;
    let mp = if m > 2 { m - 3 } else { m + 9 };
    let doy = (153 * mp + 2) / 5 + d - 1;
    let doe = yoe * 365 + yoe / 4 - yoe / 100 + doy;
    era * 146097 + doe - 719468
}

/// The number of days from the date `b` to the date `a` (negative when `a`
/// is earlier).
pub open spec fn days_between(ay: int, am: int, ad: int, by: int, bm: int, bd: int) -> int {
    day_number(ay, am, ad) - day_number(by, bm, bd)
}

/// `day_number(y, m, d)` shifted by `1000 * 146097 + 719468` (1000 eras),
/// which keeps it positive for every date in range.
fn shifted_day_number(y: i32, m: u32, d: u32) -> (n: u64)
    requires
        valid_ymd(y as int, m as int, d as int),
    ensures
        n as int == day_number(y as int, m as int, d as int) + 1000 * 146097 + 719468,
{
    let shifted: u64 = (y as i64 + 400_000 - if m <= 2 { 1i64 } else { 0i64 }) as u64;
    let era: u64 = shifted / 400;
    let yoe: u64 = shifted % 400;
    let mp: u64 = if m > 2 { (m - 3) as u64 } else { (m + 9) as u64 };
    let doy: u64 = (153 * mp + 2) / 5 + d as u64 - 1;
    let doe: u64 = yoe * 365 + yoe / 4 - yoe / 100 + doy;
    proof {
        let yy: int = if m <= 2 { y - 1 } else { y as int };
        assert(shifted as int == yy + 1000 * 400);
        vstd::arithmetic::div_mod::lemma_hoist_over_denominator(yy, 1000, 400);
        vstd::arithmetic::div_mod::lemma_mod_multiples_vanish(1000, yy, 400);
        assert(era as int == yy / 400 + 1000);
        assert(yoe as int == yy % 400);
        vstd::arithmetic::div_mod::lemma_fundamental_div_mod(yy, 400);
        assert(yoe as int == yy - (yy / 400) * 400);
        assert(era * 146097 == (yy / 400) * 146097 + 1000 * 146097) by (nonlinear_arith)
            requires era as int == yy / 400 + 1000;
    }
    era * 146097 + doe
}

/// The number of days from `b` to `a` (negative when `a` is earlier), as
/// chrono's `(a - b).num_days()` counts them.
pub fn days_since(a: &Day, b: &Day) -> (n: i64)
    ensures
        n == days_between(a@.year, a@.month, a@.day, b@.year, b@.month, b@.day),
{
    proof {
        use_type_invariant(a);
        use_type_invariant(b);
    }
    let x = shifted_day_number(a.year, a.month, a.day);
    let y = shifted_day_number(b.year, b.month, b.day);
    x as i64 - y as i64
}

/// Today's date in Asia/Shanghai, read from the system clock with
/// `chrono::Utc::now().with_timezone(&chrono_tz::Asia::Shanghai)`. Nothing is
/// stated of the result beyond its being a date.
#[verifier::external_body]
pub(crate) fn shanghai_today() -> (d: Day) {
    let today = chrono::Utc::now().with_timezone(&chrono_tz::Asia::Shanghai).date_naive();
    Day { year: today.year(), month: today.month(), day: today.day() }
}

} // verus!
