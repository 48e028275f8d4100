//! The simulated clock: milliseconds since the Unix epoch, local days and hours
//! at fixed offsets, and weekdays.
use vstd::prelude::*;

verus! {

/// Milliseconds in one hour.
pub const MS_PER_HOUR: i64 = 3_600_000;

/// Milliseconds in one minute.
pub const MS_PER_MINUTE: i64 = 60_000;

/// Milliseconds in one day.
pub const MS_PER_DAY: i64 = 86_400_000;

/// The latest supported timestamp: 9999-12-31T23:59:59.999Z.
pub const MAX_TIMESTAMP_MS: i64 = 253_402_300_799_999;

/// A timestamp that the engine can compute with: from the epoch to the year 9999.
pub open spec fn valid_timestamp(t: int) -> bool {
    0 <= t <= MAX_TIMESTAMP_MS
}

/// A stored instant that may run past the last supported timestamp by up to a day
/// (the end of a session or cooldown that began at a valid timestamp).
pub open spec fn within_horizon(t: int) -> bool {
    0 <= t <= MAX_TIMESTAMP_MS + MS_PER_DAY
}

/// Local wall-clock time (as milliseconds) for a fixed offset in whole hours.
pub open spec fn local_time(now: int, offset_hours: int) -> int {
    now + offset_hours * MS_PER_HOUR
}

/// Day number (days since 1970-01-01) of a millisecond timestamp.
pub open spec fn day_of(t: int) -> int {
    t / (MS_PER_DAY as int)
}

/// Hour of the day, 0..=23, of a millisecond timestamp.
pub open spec fn hour_of(t: int) -> int {
    (t % (MS_PER_DAY as int)) / (MS_PER_HOUR as int)
}

/// ISO weekday of a day number: 1 is Monday, 7 is Sunday (1970-01-01 was a Thursday).
pub open spec fn weekday_from_monday(day: int) -> int {
    (day + 3) % 7 + 1
}

/// Saturday or Sunday.
pub open spec fn is_weekend_day(day: int) -> bool {
    weekday_from_monday(day) >= 6
}

/// Whether `hour` lies in the window of `hours` hours starting at `start`,
/// wrapping past midnight; a window of 24 hours or more holds every hour.
pub open spec fn hour_in_window(start: int, hours: int, hour: int) -> bool {
    if hours >= 24 {
        true
    } else {
        let end = (start + hours) % 24;
        if start < end {
            start <= hour < end
        } else {
            hour >= start || hour < end
        }
    }
}

/// Splits a local time into its day number and the milliseconds since local midnight.
pub fn local_day_and_ms(now: i64, offset_hours: i8) -> (r: (i64, i64))
    requires
        within_horizon(now as int),
        -12 <= offset_hours <= 14,
    ensures
        r.0 == day_of(local_time(now as int, offset_hours as int)),
        r.1 == local_time(now as int, offset_hours as int) % (MS_PER_DAY as int),
        0 <= r.1 < MS_PER_DAY,
        -1 <= r.0 <= 3_000_000,
{
    let local: i64 = now + (offset_hours as i64) * MS_PER_HOUR;
    let shifted: u64 = (local + 7 * MS_PER_DAY) as u64;
    let q: u64 = shifted / (MS_PER_DAY as u64);
    let rem: u64 = shifted % (MS_PER_DAY as u64);
    proof {
        let d = MS_PER_DAY as int;
        vstd::arithmetic::div_mod::lemma_fundamental_div_mod(shifted as int, d);
        assert(local as int == (q as int - 7) * d + rem as int) by (nonlinear_arith)
            requires
                shifted as int == d * (q as int) + rem as int,
                shifted as int == local as int + 7 * d,
        ;
        vstd::arithmetic::div_mod::lemma_fundamental_div_mod_converse(
            local as int,
            d,
            q as int - 7,
            rem as int,
        );
    }
    ((q as i64) - 7, rem as i64)
}

/// Whether a day number falls on a Saturday or Sunday.
pub fn is_weekend_date(day: i64) -> (r: bool)
    requires
        -1 <= day <= 3_000_010,
    ensures
        r == is_weekend_day(day as int),
{
    let weekday: i64 = ((day + 3) as u64 % 7) as i64 + 1;
    weekday >= 6
}

/// Three days in a row are never all weekend days.
pub proof fn lemma_no_three_weekend_days(day: int)
    ensures
        !(is_weekend_day(day) && is_weekend_day(day + 1) && is_weekend_day(day + 2)),
{
    let w = (day + 3) % 7;
    assert((day + 4) % 7 == (w + 1) % 7);
    assert((day + 5) % 7 == (w + 2) % 7);
}

} // verus!
