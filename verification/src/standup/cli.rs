//! The date argument of the standup commands: `today`, `tomorrow` or a
//! `YYYY-MM-DD` date, with a per-command default.

use vstd::prelude::*;
use crate::text::str_eq;
use super::date::{is_last_day, next_day_spec, parse_ymd, ymd_parsed, Day, DayView};

verus! {

/// The date a command works on, and whether the argument could not be read
/// (the default is then used).
pub open spec fn resolved_date(arg: Option<Seq<char>>, default: DayView, today: DayView) -> (DayView, bool) {
    match arg {
        None => (default, false),
        Some(s) => if s == "today"@ {
            (today, false)
        } else if s == "tomorrow"@ {
            (next_day_spec(today), false)
        } else {
            match ymd_parsed(s) {
                Some(d) => (d, false),
                None => (default, true),
            }
        },
    }
}

/// Resolves a command's date argument against `default` and the current
/// date `today`; the flag tells that an unreadable argument fell back to the
/// default.
pub fn resolve_date(arg: Option<&str>, default: &Day, today: &Day) -> (r: (Day, bool))
    requires
        arg matches Some(s) && s@ == "tomorrow"@ ==> !is_last_day(today@),
    ensures
        (r.0@, r.1) == resolved_date(
            match arg {
                Some(s) => Some(s@),
                None => None,
            },
            default@,
            today@,
        ),
{
    match arg {
        None => (default.copied(), false),
        Some(s) => {
            if str_eq(s, "today") {
                (today.copied(), false)
            } else if str_eq(s, "tomorrow") {
                (today.next_day(), false)
            } else {
                match parse_ymd(s) {
                    Some(d) => (d, false),
                    None => (default.copied(), true),
                }
            }
        },
    }
}

} // verus!
