//! Decomposition of a watch time in minutes into days, hours and minutes.

use vstd::prelude::*;

verus! {

/// Minutes in one hour.
pub const MINUTES_PER_HOUR: u32 = 60;

/// Minutes in one day.
pub const MINUTES_PER_DAY: u32 = 1440;

/// Splits a minute count into whole days, the hours left after the days, and
/// the minutes left after the hours. The three parts add up to the input.
pub fn convert_minutes_to_days_hours_minutes(minutes: u32) -> (parts: (u32, u32, u32))
    ensures
        parts.0 == minutes / MINUTES_PER_DAY,
        parts.1 == (minutes % MINUTES_PER_DAY) / MINUTES_PER_HOUR,
        parts.2 == minutes % MINUTES_PER_HOUR,
        parts.1 < 24,
        parts.2 < 60,
        parts.0 * MINUTES_PER_DAY + parts.1 * MINUTES_PER_HOUR + parts.2 == minutes,
{
    let days: u32 = minutes / MINUTES_PER_DAY;
    let rest: u32 = minutes % MINUTES_PER_DAY;
    let hours: u32 = rest / MINUTES_PER_HOUR;
    let mins: u32 = rest % MINUTES_PER_HOUR;
    (days, hours, mins)
}

} // verus!
