//! The four daily triggers (Asia/Shanghai):
//! - 20:00 create the next day's document and announce it,
//! - 22:00 remind whoever has not filled the next day's document,
//! - 09:30 remind whoever has not filled today's document,
//! - 10:00 final reminder with the in-app urgent escalation.

use vstd::prelude::*;
use chrono::Timelike;
use super::config::StandupConfig;
use super::date::{is_last_day, next_day_spec, Day, DayView};

verus! {

/// Which day's document a trigger works on.
#[derive(Debug, Clone, Copy, PartialEq, Eq, Structural)]
pub enum TargetDay {
    Today,
    Tomorrow,
}

/// What a trigger does.
#[derive(Debug, Clone, Copy, PartialEq, Eq, Structural)]
pub enum Action {
    Announce,
    Remind,
    UrgentRemind,
}

/// One daily trigger.
#[derive(Debug, Clone, Copy)]
pub struct Trigger {
    pub name: &'static str,
    pub hour: u32,
    pub minute: u32,
    pub target: TargetDay,
    pub action: Action,
}

/// The daily triggers, in firing order from the evening.
pub fn triggers() -> (ts: Vec<Trigger>)
    ensures
        ts@.len() == 4,
        ts@[0].name@ == "announce-20"@ && ts@[0].hour == 20 && ts@[0].minute == 0
            && ts@[0].target == TargetDay::Tomorrow && ts@[0].action == Action::Announce,
        ts@[1].name@ == "remind-22"@ && ts@[1].hour == 22 && ts@[1].minute == 0
            && ts@[1].target == TargetDay::Tomorrow && ts@[1].action == Action::Remind,
        ts@[2].name@ == "remind-0930"@ && ts@[2].hour == 9 && ts@[2].minute == 30
            && ts@[2].target == TargetDay::Today && ts@[2].action == Action::Remind,
        ts@[3].name@ == "urgent-10"@ && ts@[3].hour == 10 && ts@[3].minute == 0
            && ts@[3].target == TargetDay::Today && ts@[3].action == Action::UrgentRemind,
{
    let mut ts: Vec<Trigger> = Vec::new();
    ts.push(Trigger { name: "announce-20", hour: 20, minute: 0, target: TargetDay::Tomorrow, action: Action::Announce });
    ts.push(Trigger { name: "remind-22", hour: 22, minute: 0, target: TargetDay::Tomorrow, action: Action::Remind });
    ts.push(Trigger { name: "remind-0930", hour: 9, minute: 30, target: TargetDay::Today, action: Action::Remind });
    ts.push(Trigger { name: "urgent-10", hour: 10, minute: 0, target: TargetDay::Today, action: Action::UrgentRemind });
    ts
}

/// The date a trigger works on when it fires on `today`.
pub open spec fn target_date_spec(target: TargetDay, today: DayView) -> DayView {
    match target {
        TargetDay::Today => today,
        TargetDay::Tomorrow => next_day_spec(today),
    }
}

/// The date a trigger for `target` works on when it fires on `today`.
pub fn target_date(target: TargetDay, today: &Day) -> (d: Day)
    requires
        target == TargetDay::Tomorrow ==> !is_last_day(today@),
    ensures
        d@ == target_date_spec(target, today@),
{
    match target {
        TargetDay::Today => today.copied(),
        TargetDay::Tomorrow => today.next_day(),
    }
}

/// Whether the scheduler starts.
#[derive(Debug, Clone, Copy, PartialEq, Eq, Structural)]
pub enum SchedulerStart {
    /// `STANDUP_ENABLED` is off.
    Disabled,
    /// The chat id or the folder token is missing.
    MissingTarget,
    Ready,
}

/// Whether the scheduler starts for `cfg`.
pub fn scheduler_start(cfg: &StandupConfig) -> (s: SchedulerStart)
    ensures
        s == if !cfg.enabled {
            SchedulerStart::Disabled
        } else if cfg.chat_id is None || cfg.folder_token is None {
            SchedulerStart::MissingTarget
        } else {
            SchedulerStart::Ready
        },
{
    if !cfg.enabled {
        SchedulerStart::Disabled
    } else if cfg.chat_id.is_none() || cfg.folder_token.is_none() {
        SchedulerStart::MissingTarget
    } else {
        SchedulerStart::Ready
    }
}

/// Nanoseconds in a day.
pub const DAY_NANOS: u64 = 86_400_000_000_000;

/// One minute, the wait used when the target would lie in the past.
pub const FALLBACK_NANOS: u64 = 60_000_000_000;

/// The wait from `now` (nanoseconds since local midnight) until the next
/// `hour:minute`: today when that is still ahead, else tomorrow; a wait that
/// would be negative (inside a leap second) becomes one minute.
pub open spec fn wait_spec(now: int, hour: int, minute: int) -> int {
    let target = (hour * 3600 + minute * 60) * 1_000_000_000;
    let wait = if target > now { target - now } else { target + DAY_NANOS - now };
    if wait < 0 { FALLBACK_NANOS as int } else { wait }
}

/// The wait, in nanoseconds, from `now_nanos` after local midnight until the
/// next `hour:minute`.
pub fn wait_from(now_nanos: u64, hour: u32, minute: u32) -> (wait: u64)
    requires
        hour < 24,
        minute < 60,
        now_nanos < DAY_NANOS + 1_000_000_000,
    ensures
        wait == wait_spec(now_nanos as int, hour as int, minute as int),
{
    let target: u64 = (hour as u64 * 3600 + minute as u64 * 60) * 1_000_000_000;
    if target > now_nanos {
        target - now_nanos
    } else if target + DAY_NANOS >= now_nanos {
        target + DAY_NANOS - now_nanos
    } else {
        FALLBACK_NANOS
    }
}

/// A local time of day.
#[derive(Debug, Clone, Copy)]
pub struct TimeOfDay {
    /// Whole seconds since midnight.
    pub secs: u32,
    /// The nanosecond field (a leap second shows as `1_000_000_000..`).
    pub nanos: u32,
}

/// The time of day in Asia/Shanghai, from
/// `chrono::Utc::now().with_timezone(&chrono_tz::Asia::Shanghai)`:
/// `num_seconds_from_midnight` (below 86 400) and `nanosecond` (below
/// 2·10^9, a leap second included), as `chrono` documents them. Nothing else
/// is stated of it.
#[verifier::external_body]
fn shanghai_time_of_day() -> (t: TimeOfDay)
    ensures
        t.secs < 86_400,
        t.nanos < 2_000_000_000,
{
    let now = chrono::Utc::now().with_timezone(&chrono_tz::Asia::Shanghai);
    TimeOfDay { secs: now.num_seconds_from_midnight(), nanos: now.nanosecond() }
}

/// The wait, in nanoseconds, until the next `hour:minute` in Asia/Shanghai.
pub fn duration_until(hour: u32, minute: u32) -> (wait: u64)
    requires
        hour < 24,
        minute < 60,
    ensures
        exists|now: int| 0 <= now < DAY_NANOS + 1_000_000_000 && wait == wait_spec(now, hour as int, minute as int),
{
    let t = shanghai_time_of_day();
    let now = t.secs as u64 * 1_000_000_000 + t.nanos as u64;
    wait_from(now, hour, minute)
}

} // verus!
