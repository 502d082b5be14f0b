use vstd::prelude::*;

verus! {

pub const NANOS_PER_SEC: u64 = 1_000_000_000;

pub const SECS_PER_DAY: u64 = 86_400;

/// Nanoseconds in one day.
pub open spec fn day_nanos() -> int {
    SECS_PER_DAY * NANOS_PER_SEC
}

/// An instant as read from the local clock: seconds since the Unix epoch
/// (UTC), the nanoseconds past that second, and the local zone's offset from
/// UTC in seconds at that instant.
#[derive(Clone, Copy, Debug, PartialEq, Eq, Structural)]
pub struct LocalNow {
    pub secs: i64,
    pub nanos: u32,
    pub offset: i32,
}

/// Whether an optional zone offset, in seconds, lies strictly within a day.
pub open spec fn offset_ok(o: Option<i32>) -> bool {
    o matches Some(v) ==> -(SECS_PER_DAY as int) < v < SECS_PER_DAY
}

impl LocalNow {
    pub open spec fn wf(self) -> bool {
        &&& self.secs >= 0
        &&& self.nanos < NANOS_PER_SEC
        &&& offset_ok(Some(self.offset))
    }

    /// Nanoseconds since the Unix epoch.
    pub open spec fn utc_nanos(self) -> int {
        self.secs * NANOS_PER_SEC + self.nanos
    }

    /// Local wall-clock seconds, counted from 1970-01-01 00:00 local time.
    pub open spec fn local_secs(self) -> int {
        self.secs + self.offset
    }
}

/// A span of time as whole seconds and the nanoseconds beyond them.
#[derive(Clone, Copy, Debug, PartialEq, Eq, Structural)]
pub struct Delay {
    pub secs: u64,
    pub nanos: u32,
}

impl Delay {
    pub open spec fn wf(self) -> bool {
        self.nanos < NANOS_PER_SEC
    }

    pub open spec fn total_nanos(self) -> int {
        self.secs * NANOS_PER_SEC + self.nanos
    }

    /// One full day.
    pub fn one_day() -> (r: Delay)
        ensures
            r.wf(),
            r.total_nanos() == day_nanos(),
    {
        Delay { secs: SECS_PER_DAY, nanos: 0 }
    }
}

pub open spec fn delay_nanos(d: Option<Delay>) -> Option<int> {
    match d {
        Some(d) => Some(d.total_nanos()),
        None => None,
    }
}

/// The local wall-clock second of `hour:minute` on the local date of `now`.
/// Absent when the hour or minute is out of range, or when the day after the
/// local date would not fit an `i64`.
pub open spec fn target_local(now: LocalNow, hour: int, minute: int) -> Option<int> {
    if hour > 23 || minute > 59 || now.local_secs() + 3 * SECS_PER_DAY > i64::MAX {
        None
    } else {
        Some(now.local_secs() - now.local_secs() % (SECS_PER_DAY as int) + hour * 3600 + minute
            * 60)
    }
}

/// The instant, in nanoseconds since the epoch, at which the local clock
/// shows the second `local` under the zone offset `offset`, if it shows it.
pub open spec fn instant_of(local: int, offset: Option<i32>) -> Option<int> {
    match offset {
        Some(o) => Some((local - o) * NANOS_PER_SEC),
        None => None,
    }
}

/// The wait from the instant `now_ns` to the first occurrence, strictly after
/// it, of the local second `target` today or the same second a day later.
/// Each occurrence is given by the zone offset in force then, or is absent
/// where the clocks skip over it.
pub open spec fn wait_to(now_ns: int, target: int, today: Option<i32>, tomorrow: Option<i32>) -> Option<
    int,
> {
    match instant_of(target, today) {
        Some(t) if t > now_ns => Some(t - now_ns),
        _ => match instant_of(target + SECS_PER_DAY, tomorrow) {
            Some(t) if t > now_ns => Some(t - now_ns),
            _ => None,
        },
    }
}

/// The local wall-clock second of `hour:minute` on the local date of `now`.
pub fn local_target(now: LocalNow, hour: u32, minute: u32) -> (r: Option<i64>)
    requires
        now.wf(),
    ensures
        r matches Some(t) ==> target_local(now, hour as int, minute as int) == Some(t as int),
        r is None ==> target_local(now, hour as int, minute as int) is None,
{
    if hour > 23 || minute > 59 {
        return None;
    }
    if now.offset >= 0 && now.secs > i64::MAX - (now.offset as i64) - 3 * (SECS_PER_DAY as i64) {
        return None;
    }
    let local: i64 = now.secs + now.offset as i64;
    if local > i64::MAX - 3 * (SECS_PER_DAY as i64) {
        return None;
    }
    // Local midnight, rounding down; a local time before 1970 lies in the day
    // that starts one day before the epoch.
    let midnight: i64 = if local >= 0 {
        assert(0 <= local % (SECS_PER_DAY as i64) < SECS_PER_DAY);
        local - local % (SECS_PER_DAY as i64)
    } else {
        assert((local as int) % (SECS_PER_DAY as int) == local + SECS_PER_DAY);
        -(SECS_PER_DAY as i64)
    };
    Some(midnight + (hour as i64) * 3600 + (minute as i64) * 60)
}

/// The delay from `now` until the first occurrence, strictly after it, of the
/// local second `target` today or tomorrow, given the zone offsets in force at
/// each of the two. The target is one that `local_target` gives.
pub fn delay_to(now: LocalNow, target: i64, today: Option<i32>, tomorrow: Option<i32>) -> (r: Option<
    Delay,
>)
    requires
        now.wf(),
        offset_ok(today),
        offset_ok(tomorrow),
        -(SECS_PER_DAY as int) <= target,
        target + 2 * SECS_PER_DAY <= i64::MAX,
    ensures
        delay_nanos(r) == wait_to(now.utc_nanos(), target as int, today, tomorrow),
        r matches Some(d) ==> d.wf(),
{
    let first: Option<i64> = match today {
        Some(o) if target - (o as i64) > now.secs => Some(target - (o as i64)),
        _ => match tomorrow {
            Some(o) if target + (SECS_PER_DAY as i64) - (o as i64) > now.secs => Some(
                target + (SECS_PER_DAY as i64) - (o as i64),
            ),
            _ => None,
        },
    };
    match first {
        None => None,
        Some(at) => {
            let whole: u64 = (at - now.secs) as u64;
            if now.nanos == 0 {
                Some(Delay { secs: whole, nanos: 0 })
            } else {
                Some(Delay { secs: whole - 1, nanos: (NANOS_PER_SEC as u32) - now.nanos })
            }
        },
    }
}

/// Relies on chrono's `Local::now`, which reads `Utc::now` (the system clock
/// since 1970) and the machine's zone, with `timestamp`,
/// `timestamp_subsec_nanos` (below two seconds' worth, the second half
/// standing for a leap second) and `FixedOffset::local_minus_utc` (strictly
/// within a day). Which instant and zone depends on the machine.
#[verifier::external_body]
fn local_clock() -> (r: (i64, u32, i32))
    ensures
        r.0 >= 0,
        r.1 < 2 * NANOS_PER_SEC,
        offset_ok(Some(r.2)),
{
    let now = chrono::Local::now();
    (now.timestamp(), now.timestamp_subsec_nanos(), now.offset().local_minus_utc())
}

/// Relies on chrono's `DateTime::from_timestamp`, `naive_utc` and `Local`'s
/// `TimeZone::offset_from_local_datetime` with `earliest`: the zone's offset
/// (strictly within a day) at the local wall-clock second `local` counted from
/// 1970-01-01 00:00, the earlier where the clocks fall back over it, absent
/// where they skip it. It depends on the machine's zone.
#[verifier::external_body]
fn local_offset_at(local: i64) -> (r: Option<i32>)
    ensures
        offset_ok(r),
{
    chrono::DateTime::from_timestamp(local, 0).and_then(
        |d| chrono::TimeZone::offset_from_local_datetime(&chrono::Local, &d.naive_utc()).earliest(),
    ).map(|o| o.local_minus_utc())
}

/// The wait from `now` until the next local `hour:minute`, given the zone
/// offsets at that time today and tomorrow.
pub open spec fn wait_from(
    now: LocalNow,
    hour: u32,
    minute: u32,
    today: Option<i32>,
    tomorrow: Option<i32>,
) -> Option<int> {
    match target_local(now, hour as int, minute as int) {
        Some(t) => wait_to(now.utc_nanos(), t, today, tomorrow),
        None => None,
    }
}

/// The real time from now until the next local `hour:minute`, or `None` when
/// the hour or minute is out of range. A reading inside a leap second counts as
/// the last instant of its second.
pub fn duration_until_time(hour: u32, minute: u32) -> (r: Option<Delay>)
    ensures
        (hour > 23 || minute > 59) ==> r is None,
        r matches Some(d) ==> d.wf() && d.total_nanos() > 0,
        exists|now: LocalNow, today: Option<i32>, tomorrow: Option<i32>|
            now.wf() && offset_ok(today) && offset_ok(tomorrow) && #[trigger] wait_from(
                now,
                hour,
                minute,
                today,
                tomorrow,
            ) == delay_nanos(r),
{
    let (secs, nanos, offset) = local_clock();
    let now = LocalNow {
        secs,
        nanos: if nanos < NANOS_PER_SEC as u32 { nanos } else { (NANOS_PER_SEC as u32) - 1 },
        offset,
    };
    match local_target(now, hour, minute) {
        None => {
            assert(wait_from(now, hour, minute, None, None) == delay_nanos(None));
            None
        },
        Some(target) => {
            let today = local_offset_at(target);
            let tomorrow = local_offset_at(target + SECS_PER_DAY as i64);
            let r = delay_to(now, target, today, tomorrow);
            assert(wait_from(now, hour, minute, today, tomorrow) == delay_nanos(r));
            r
        },
    }
}

/// Where the zone's offset stays that of `now` through tomorrow's target, and
/// now is not the target instant itself, the wait is positive, shorter than a
/// day, and equals today's or tomorrow's target minus now.
pub proof fn lemma_wait_within_day(now: LocalNow, hour: u32, minute: u32)
    requires
        now.wf(),
        hour <= 23,
        minute <= 59,
        target_local(now, hour as int, minute as int) matches Some(t) && instant_of(
            t,
            Some(now.offset),
        ) != Some(now.utc_nanos()),
    ensures
        wait_from(now, hour, minute, Some(now.offset), Some(now.offset)) matches Some(w) && 0 < w
            < day_nanos() && ({
            let t = target_local(now, hour as int, minute as int)->0;
            w == (t - now.offset) * NANOS_PER_SEC - now.utc_nanos() || w == (t + SECS_PER_DAY
                - now.offset) * NANOS_PER_SEC - now.utc_nanos()
        }),
{
    let l = now.local_secs();
    assert(0 <= l % (SECS_PER_DAY as int) < SECS_PER_DAY);
}

} // verus!
