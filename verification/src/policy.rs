//! Time-window and sleep policies.
//!
//! Both are pure functions of the current local ISO weekday
//! (1 = Monday .. 7 = Sunday) and the current local hour (0..=23).

use vstd::prelude::*;

verus! {

/// What the current cycle should announce: today's cancellations,
/// tomorrow's, or nothing at all.
#[derive(Clone, Copy, Debug, PartialEq, Eq, Structural)]
pub enum Announcement {
    Today,
    Tomorrow,
    Quiet,
}

/// The trigger window for a "today" announcement: a weekday morning at 7.
pub open spec fn today_window(weekday: int, hour: int) -> bool {
    1 <= weekday <= 5 && hour == 7
}

/// The trigger window for a "tomorrow" announcement: weekday hours 7..=20,
/// or Sunday evening at 20.
pub open spec fn tomorrow_window(weekday: int, hour: int) -> bool {
    (1 <= weekday <= 5 && 7 <= hour <= 20) || (weekday == 7 && hour == 20)
}

/// The announcement mode. The "today" window is checked first, so on a
/// weekday at hour 7 (which both windows cover) "today" wins.
pub open spec fn spec_announcement(weekday: int, hour: int) -> Announcement {
    if today_window(weekday, hour) {
        Announcement::Today
    } else if tomorrow_window(weekday, hour) {
        Announcement::Tomorrow
    } else {
        Announcement::Quiet
    }
}

pub fn announcement_for(weekday: u8, hour: u8) -> (m: Announcement)
    ensures
        m == spec_announcement(weekday as int, hour as int),
{
    if 1 <= weekday && weekday <= 5 && hour == 7 {
        Announcement::Today
    } else if (1 <= weekday && weekday <= 5 && 7 <= hour && hour <= 20)
        || (weekday == 7 && hour == 20) {
        Announcement::Tomorrow
    } else {
        Announcement::Quiet
    }
}

/// Every weekday/hour pair yields exactly one announcement mode, and the
/// mode characterises the windows: "today" exactly on the today window,
/// "tomorrow" exactly on the rest of the tomorrow window, quiet elsewhere.
pub proof fn lemma_announcement_exactly_one(weekday: int, hour: int)
    ensures
        spec_announcement(weekday, hour) is Today <==> today_window(weekday, hour),
        spec_announcement(weekday, hour) is Tomorrow <==> (!today_window(weekday, hour)
            && tomorrow_window(weekday, hour)),
        spec_announcement(weekday, hour) is Quiet <==> (!today_window(weekday, hour)
            && !tomorrow_window(weekday, hour)),
{
}

/// On Wednesday at hour 7 both windows apply, and the policy still
/// answers "today": the first matching window wins.
pub proof fn lemma_today_takes_precedence()
    ensures
        today_window(3, 7),
        tomorrow_window(3, 7),
        spec_announcement(3, 7) == Announcement::Today,
{
}

/// How long the recurring variant sleeps before its next cycle, in
/// seconds. The branches are tried in order; the first match decides.
pub open spec fn spec_sleep_seconds(weekday: int, hour: int) -> int {
    if weekday == 5 && hour > 7 {
        172800
    } else if weekday == 7 && hour < 20 {
        3600 * (20 - hour)
    } else if weekday == 7 {
        518400
    } else if hour < 7 {
        3600 * (7 - hour)
    } else if hour >= 20 {
        3600 * (31 - hour)
    } else {
        46800
    }
}

pub fn sleep_seconds(weekday: u8, hour: u8) -> (s: u32)
    requires
        1 <= weekday <= 7,
        hour < 24,
    ensures
        s == spec_sleep_seconds(weekday as int, hour as int),
{
    if weekday == 5 && hour > 7 {
        172800
    } else if weekday == 7 && hour < 20 {
        3600 * (20 - hour as u32)
    } else if weekday == 7 {
        518400
    } else if hour < 7 {
        3600 * (7 - hour as u32)
    } else if hour >= 20 {
        3600 * (31 - hour as u32)
    } else {
        46800
    }
}

/// Friday after the morning check: skip the weekend.
pub open spec fn sleep_branch_friday(weekday: int, hour: int) -> bool {
    weekday == 5 && hour > 7
}

/// Sunday before the evening check: wait until 20:00 the same day.
pub open spec fn sleep_branch_sunday_wait(weekday: int, hour: int) -> bool {
    weekday == 7 && hour < 20
}

/// Sunday at or after 20:00: skip to the next week's cycle.
pub open spec fn sleep_branch_sunday_skip(weekday: int, hour: int) -> bool {
    weekday == 7 && hour >= 20
}

/// Any other day before 07:00: wait until 07:00 the same day.
pub open spec fn sleep_branch_early(weekday: int, hour: int) -> bool {
    !sleep_branch_friday(weekday, hour) && weekday != 7 && hour < 7
}

/// Any other day at or after 20:00: wait until 07:00 after next midnight.
pub open spec fn sleep_branch_late(weekday: int, hour: int) -> bool {
    !sleep_branch_friday(weekday, hour) && weekday != 7 && hour >= 20
}

/// The remaining daytime hours: wait the fixed 13 hours until 20:00.
pub open spec fn sleep_branch_daytime(weekday: int, hour: int) -> bool {
    !sleep_branch_friday(weekday, hour) && weekday != 7 && 7 <= hour < 20
}

/// How many of the six sleep branches apply to a weekday/hour pair.
pub open spec fn sleep_branches_applying(weekday: int, hour: int) -> int {
    (if sleep_branch_friday(weekday, hour) { 1int } else { 0int })
    + (if sleep_branch_sunday_wait(weekday, hour) { 1int } else { 0int })
    + (if sleep_branch_sunday_skip(weekday, hour) { 1int } else { 0int })
    + (if sleep_branch_early(weekday, hour) { 1int } else { 0int })
    + (if sleep_branch_late(weekday, hour) { 1int } else { 0int })
    + (if sleep_branch_daytime(weekday, hour) { 1int } else { 0int })
}

/// Sleep-policy coverage: for every weekday/hour pair exactly one branch
/// applies, and the policy returns that branch's duration.
pub proof fn lemma_sleep_exactly_one(weekday: int, hour: int)
    requires
        1 <= weekday <= 7,
        0 <= hour < 24,
    ensures
        sleep_branches_applying(weekday, hour) == 1,
        sleep_branch_friday(weekday, hour) ==> spec_sleep_seconds(weekday, hour) == 172800,
        sleep_branch_sunday_wait(weekday, hour) ==> spec_sleep_seconds(weekday, hour) == 3600 * (
        20 - hour),
        sleep_branch_sunday_skip(weekday, hour) ==> spec_sleep_seconds(weekday, hour) == 518400,
        sleep_branch_early(weekday, hour) ==> spec_sleep_seconds(weekday, hour) == 3600 * (7
            - hour),
        sleep_branch_late(weekday, hour) ==> spec_sleep_seconds(weekday, hour) == 3600 * (31
            - hour),
        sleep_branch_daytime(weekday, hour) ==> spec_sleep_seconds(weekday, hour) == 46800,
{
}

} // verus!
