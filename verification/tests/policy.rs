use untis_notify::policy::{announcement_for, sleep_seconds, Announcement};

#[test]
fn wednesday_morning_announces_today() {
    assert_eq!(announcement_for(3, 7), Announcement::Today);
}

#[test]
fn wednesday_seven_is_never_tomorrow() {
    // Hour 7 on a weekday also lies in the tomorrow window, but the
    // today window is checked first.
    assert_ne!(announcement_for(3, 7), Announcement::Tomorrow);
}

#[test]
fn weekday_daytime_announces_tomorrow() {
    assert_eq!(announcement_for(3, 12), Announcement::Tomorrow);
    assert_eq!(announcement_for(1, 20), Announcement::Tomorrow);
    assert_eq!(announcement_for(5, 8), Announcement::Tomorrow);
}

#[test]
fn sunday_evening_announces_tomorrow() {
    assert_eq!(announcement_for(7, 20), Announcement::Tomorrow);
}

#[test]
fn quiet_windows() {
    assert_eq!(announcement_for(6, 12), Announcement::Quiet);
    assert_eq!(announcement_for(7, 19), Announcement::Quiet);
    assert_eq!(announcement_for(7, 21), Announcement::Quiet);
    assert_eq!(announcement_for(2, 21), Announcement::Quiet);
    assert_eq!(announcement_for(2, 6), Announcement::Quiet);
}

#[test]
fn every_pair_gets_exactly_one_mode() {
    for weekday in 1u8..=7 {
        for hour in 0u8..24 {
            let mode = announcement_for(weekday, hour);
            let today = weekday <= 5 && hour == 7;
            let tomorrow = (weekday <= 5 && (7..=20).contains(&hour)) || (weekday == 7 && hour
                == 20);
            let expected = if today {
                Announcement::Today
            } else if tomorrow {
                Announcement::Tomorrow
            } else {
                Announcement::Quiet
            };
            assert_eq!(mode, expected);
        }
    }
}

#[test]
fn sleep_sunday_before_evening_waits_until_twenty() {
    assert_eq!(sleep_seconds(7, 19), 3600);
}

#[test]
fn sleep_sunday_evening_skips_the_week() {
    assert_eq!(sleep_seconds(7, 20), 518400);
}

#[test]
fn sleep_friday_after_morning_skips_the_weekend() {
    assert_eq!(sleep_seconds(5, 8), 172800);
}

#[test]
fn sleep_tuesday_night_waits_until_seven() {
    assert_eq!(sleep_seconds(2, 3), 14400);
}

#[test]
fn sleep_tuesday_late_waits_until_seven_after_midnight() {
    assert_eq!(sleep_seconds(2, 22), 32400);
}

#[test]
fn sleep_daytime_waits_thirteen_hours() {
    assert_eq!(sleep_seconds(2, 12), 46800);
    assert_eq!(sleep_seconds(5, 7), 46800);
}

#[test]
fn sleep_covers_every_pair() {
    for weekday in 1u8..=7 {
        for hour in 0u8..24 {
            let s = sleep_seconds(weekday, hour);
            let expected: u32 = if weekday == 5 && hour > 7 {
                172800
            } else if weekday == 7 && hour < 20 {
                3600 * (20 - hour as u32)
            } else if weekday == 7 {
                518400
            } else if hour < 7 {
                3600 * (7 - hour as u32)
            } else if hour >= 20 {
                3600 * (31 - hour as u32)
            } else {
                46800
            };
            assert_eq!(s, expected);
        }
    }
}
