//! The named time units the conversion facility accepts, and the fixed
//! multiplier table that gives each unit's length.
//!
//! Every multiplier is a compile-time constant: a minute is sixty seconds, an
//! hour sixty minutes, a day twenty-four hours and a week seven days. Days and
//! weeks are fixed spans of 86 400 and 604 800 seconds; they make no claim of
//! calendar correctness (daylight saving, leap seconds).

use vstd::prelude::*;

verus! {

/// A named time unit.
#[derive(Clone, Copy, PartialEq, Eq, Structural, Debug)]
pub enum Unit {
    Nanoseconds,
    Microseconds,
    Milliseconds,
    Seconds,
    Minutes,
    Hours,
    Days,
    Weeks,
}

/// Nanoseconds in one second.
pub const NANOS_PER_SEC: u32 = 1_000_000_000;

/// Seconds in one minute.
pub const SECS_PER_MINUTE: u64 = 60;

/// Seconds in one hour.
pub const SECS_PER_HOUR: u64 = 3_600;

/// Seconds in one day of exactly twenty-four hours.
pub const SECS_PER_DAY: u64 = 86_400;

/// Seconds in one week of exactly seven days.
pub const SECS_PER_WEEK: u64 = 604_800;

/// The multiplier table: how many nanoseconds one count of `u` lasts.
pub open spec fn unit_nanos(u: Unit) -> int {
    match u {
        Unit::Nanoseconds => 1,
        Unit::Microseconds => 1_000,
        Unit::Milliseconds => 1_000_000,
        Unit::Seconds => 1_000_000_000,
        Unit::Minutes => 60_000_000_000,
        Unit::Hours => 3_600_000_000_000,
        Unit::Days => 86_400_000_000_000,
        Unit::Weeks => 604_800_000_000_000,
    }
}

/// The multiplier table in whole seconds, for the units of one second and
/// above; the sub-second units have no whole-second multiplier and get zero.
pub open spec fn unit_secs(u: Unit) -> int {
    match u {
        Unit::Nanoseconds => 0,
        Unit::Microseconds => 0,
        Unit::Milliseconds => 0,
        Unit::Seconds => 1,
        Unit::Minutes => 60,
        Unit::Hours => 3_600,
        Unit::Days => 86_400,
        Unit::Weeks => 604_800,
    }
}

/// The longest span a duration value can represent, in nanoseconds:
/// `u64::MAX` whole seconds plus the largest sub-second remainder.
pub open spec fn max_duration_nanos() -> int {
    (u64::MAX as int) * (NANOS_PER_SEC as int) + (NANOS_PER_SEC as int) - 1
}

/// Whether `count` counts of `u` name a representable span: the count is
/// non-negative and the span fits in a duration value. For the units of a
/// whole second and above this is exactly the condition that
/// `count * (seconds per unit)` fits in sixty-four unsigned bits; the
/// sub-second units are representable for every non-negative count that fits
/// in sixty-four bits.
pub open spec fn representable(count: int, u: Unit) -> bool {
    0 <= count && count * unit_nanos(u) <= max_duration_nanos()
}

} // verus!
