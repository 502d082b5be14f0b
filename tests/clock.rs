use garfield_bot::clock::{delay_to, duration_until_time, local_target, Delay, LocalNow};

const DAY: i64 = 86_400;
// 2024-03-01 00:00 UTC, in seconds since the epoch.
const MARCH_FIRST: i64 = 19_783 * DAY;

/// The local clock showing `h:m:s` on 2024-03-01 in a zone `offset` seconds
/// ahead of UTC.
fn local(h: i64, m: i64, s: i64, offset: i32) -> LocalNow {
    LocalNow { secs: MARCH_FIRST + h * 3600 + m * 60 + s - offset as i64, nanos: 0, offset }
}

fn wait(now: LocalNow, hour: u32, minute: u32, today: Option<i32>, tomorrow: Option<i32>) -> Option<Delay> {
    let target = local_target(now, hour, minute)?;
    delay_to(now, target, today, tomorrow)
}

#[test]
fn target_is_on_the_local_date() {
    assert_eq!(local_target(local(19, 11, 1, 0), 19, 11), Some(MARCH_FIRST + 19 * 3600 + 11 * 60));
    // 00:30 local east of UTC is still the previous day in UTC.
    assert_eq!(local_target(local(0, 30, 0, 7200), 19, 11), Some(MARCH_FIRST + 19 * 3600 + 11 * 60));
    assert_eq!(local_target(local(12, 0, 0, 0), 24, 0), None);
    assert_eq!(local_target(local(12, 0, 0, 0), 0, 60), None);
}

#[test]
fn local_date_before_the_epoch_has_a_target() {
    // 1970-01-01 00:30 UTC is 1969-12-31 19:30 five hours west.
    let now = LocalNow { secs: 1800, nanos: 0, offset: -18_000 };
    assert_eq!(local_target(now, 19, 11), Some(-DAY + 19 * 3600 + 11 * 60));
    let d = delay_to(now, -DAY + 19 * 3600 + 11 * 60, Some(-18_000), Some(-18_000)).unwrap();
    assert_eq!(d, Delay { secs: 23 * 3600 + 41 * 60, nanos: 0 });
}

#[test]
fn one_second_late_targets_tomorrow() {
    let d = wait(local(19, 11, 1, 0), 19, 11, Some(0), Some(0)).unwrap();
    assert_eq!(d, Delay { secs: 23 * 3600 + 59 * 60 + 59, nanos: 0 });
    let d = wait(local(19, 11, 1, -18_000), 19, 11, Some(-18_000), Some(-18_000)).unwrap();
    assert_eq!(d, Delay { secs: 23 * 3600 + 59 * 60 + 59, nanos: 0 });
}

#[test]
fn one_minute_early_targets_today() {
    let d = wait(local(19, 10, 0, 3600), 19, 11, Some(3600), Some(3600)).unwrap();
    assert_eq!(d, Delay { secs: 60, nanos: 0 });
}

#[test]
fn exactly_on_time_waits_a_full_day() {
    let d = wait(local(19, 11, 0, 0), 19, 11, Some(0), Some(0)).unwrap();
    assert_eq!(d, Delay { secs: 86_400, nanos: 0 });
}

#[test]
fn fractional_second_is_borrowed() {
    let mut now = local(19, 10, 0, 0);
    now.nanos = 250_000_000;
    let d = wait(now, 19, 11, Some(0), Some(0)).unwrap();
    assert_eq!(d, Delay { secs: 59, nanos: 750_000_000 });
}

#[test]
fn clocks_moving_forward_overnight_shorten_the_wait() {
    let d = wait(local(19, 11, 1, 3600), 19, 11, Some(3600), Some(7200)).unwrap();
    assert_eq!(d, Delay { secs: 23 * 3600 - 1, nanos: 0 });
}

#[test]
fn skipped_target_today_moves_to_tomorrow() {
    let d = wait(local(1, 0, 0, 3600), 2, 30, None, Some(7200)).unwrap();
    assert_eq!(d, Delay { secs: 24 * 3600 + 30 * 60, nanos: 0 });
}

#[test]
fn midnight_target_from_late_evening() {
    let d = wait(local(23, 59, 59, 0), 0, 0, Some(0), Some(0)).unwrap();
    assert_eq!(d, Delay { secs: 1, nanos: 0 });
}

#[test]
fn out_of_range_hour_or_minute_is_absent() {
    assert_eq!(duration_until_time(24, 0), None);
    assert_eq!(duration_until_time(23, 60), None);
}

#[test]
fn current_delay_is_positive() {
    let d = duration_until_time(19, 11).unwrap();
    assert!(d.nanos < 1_000_000_000);
    assert!(d.secs > 0 || d.nanos > 0);
}
