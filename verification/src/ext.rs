//! The duration conversion facility: fluent unit methods on the four numeric
//! kinds `u64`, `u32`, `i64` and `i32`.
//!
//! The policy is reject-and-check. A negative signed count is refused, and a
//! count of minutes, hours, days or weeks whose second total would not fit in
//! sixty-four unsigned bits is refused; the sub-second units and whole
//! seconds accept every non-negative count. The narrower width of each
//! signedness delegates to the wider one, so both widths refuse and accept
//! exactly the same counts.
//!
//! [`DurationExt::try_duration`] reports a refusal as a [`DurationError`];
//! the fluent unit methods instead state acceptance as their precondition.

use vstd::prelude::*;
use vstd::pervasive::unreached;

use crate::duration::Duration;
use crate::units::NANOS_PER_SEC;
use crate::units::Unit;
use crate::units::SECS_PER_DAY;
use crate::units::SECS_PER_HOUR;
use crate::units::SECS_PER_MINUTE;
use crate::units::SECS_PER_WEEK;
use crate::units::max_duration_nanos;
use crate::units::representable;
use crate::units::unit_nanos;

verus! {

/// Why a conversion was refused.
#[derive(Clone, Copy, PartialEq, Eq, Structural, Debug)]
pub enum DurationError {
    /// A signed count was below zero.
    NegativeInput,
    /// The count of seconds would exceed sixty-four unsigned bits.
    ArithmeticOverflow,
}

/// Everything a conversion promises of its outcome `r`: a negative count is
/// refused as [`DurationError::NegativeInput`], a non-negative count whose
/// span does not fit is refused as [`DurationError::ArithmeticOverflow`], and
/// a representable count yields a well-formed duration spanning exactly
/// `count * unit_nanos(u)` nanoseconds.
pub open spec fn conversion_post(count: int, u: Unit, r: Result<Duration, DurationError>) -> bool {
    &&& count < 0 ==> r == Result::<Duration, DurationError>::Err(DurationError::NegativeInput)
    &&& 0 <= count && count * unit_nanos(u) > max_duration_nanos() ==> r
        == Result::<Duration, DurationError>::Err(DurationError::ArithmeticOverflow)
    &&& representable(count, u) ==> (r matches Ok(d) && d.wf() && d@ == count * unit_nanos(u))
}

/// Converts `n` counts of a unit lasting `m` whole seconds, refusing a
/// product beyond sixty-four unsigned bits as the checked multiplication of
/// the second total does.
fn seconds_product(n: u64, m: u64) -> (r: Result<Duration, DurationError>)
    ensures
        (n as int) * (m as int) <= u64::MAX as int ==> (r matches Ok(d) && d.wf() && d@ == (n
            as int) * (m as int) * (NANOS_PER_SEC as int)),
        (n as int) * (m as int) > u64::MAX as int ==> r == Result::<
            Duration,
            DurationError,
        >::Err(DurationError::ArithmeticOverflow),
{
    match n.checked_mul(m) {
        Some(secs) => Ok(Duration::from_secs(secs)),
        None => Err(DurationError::ArithmeticOverflow),
    }
}

/// Converts an unsigned sixty-four-bit count of `u` into a duration,
/// refusing a span beyond the representable range.
pub fn duration_from_u64(n: u64, u: Unit) -> (r: Result<Duration, DurationError>)
    ensures
        conversion_post(n as int, u, r),
{
    match u {
        Unit::Nanoseconds => Ok(Duration::from_nanos(n)),
        Unit::Microseconds => Ok(Duration::from_micros(n)),
        Unit::Milliseconds => Ok(Duration::from_millis(n)),
        Unit::Seconds => Ok(Duration::from_secs(n)),
        Unit::Minutes => seconds_product(n, SECS_PER_MINUTE),
        Unit::Hours => seconds_product(n, SECS_PER_HOUR),
        Unit::Days => seconds_product(n, SECS_PER_DAY),
        Unit::Weeks => seconds_product(n, SECS_PER_WEEK),
    }
}

/// Converts a signed sixty-four-bit count of `u` into a duration, refusing a
/// negative count and a span beyond the representable range.
pub fn duration_from_i64(n: i64, u: Unit) -> (r: Result<Duration, DurationError>)
    ensures
        conversion_post(n as int, u, r),
{
    if n < 0 {
        Err(DurationError::NegativeInput)
    } else {
        duration_from_u64(n as u64, u)
    }
}

/// Fluent construction of durations from integer counts.
///
/// Each unit method turns its receiver, read as a count of that unit, into a
/// [`Duration`]; its precondition refuses a negative count and a span beyond
/// the representable range, so the methods never abort. [`Self::try_duration`]
/// is the fallible form: it accepts every count and reports a refusal as a
/// [`DurationError`] instead.
pub trait DurationExt: Sized + Copy {
    /// The mathematical value of this count.
    spec fn count(self) -> int;

    /// Converts this count of `u` into a duration, reporting a negative
    /// count or an unrepresentable span instead of producing a value.
    fn try_duration(self, u: Unit) -> (r: Result<Duration, DurationError>)
        ensures
            conversion_post(self.count(), u, r),
    ;

    /// A duration of this many seconds.
    fn seconds(self) -> (d: Duration)
        requires
            representable(self.count(), Unit::Seconds),
        ensures
            d.wf(),
            d@ == self.count() * unit_nanos(Unit::Seconds),
    {
        match self.try_duration(Unit::Seconds) {
            Ok(d) => d,
            Err(_) => unreached(),
        }
    }

    /// A duration of this many minutes of sixty seconds.
    fn minutes(self) -> (d: Duration)
        requires
            representable(self.count(), Unit::Minutes),
        ensures
            d.wf(),
            d@ == self.count() * unit_nanos(Unit::Minutes),
    {
        match self.try_duration(Unit::Minutes) {
            Ok(d) => d,
            Err(_) => unreached(),
        }
    }

    /// A duration of this many hours of sixty minutes.
    fn hours(self) -> (d: Duration)
        requires
            representable(self.count(), Unit::Hours),
        ensures
            d.wf(),
            d@ == self.count() * unit_nanos(Unit::Hours),
    {
        match self.try_duration(Unit::Hours) {
            Ok(d) => d,
            Err(_) => unreached(),
        }
    }

    /// A duration of this many days of exactly twenty-four hours. The span
    /// is fixed at 86 400 seconds per day; no calendar correction applies.
    fn days(self) -> (d: Duration)
        requires
            representable(self.count(), Unit::Days),
        ensures
            d.wf(),
            d@ == self.count() * unit_nanos(Unit::Days),
    {
        match self.try_duration(Unit::Days) {
            Ok(d) => d,
            Err(_) => unreached(),
        }
    }

    /// A duration of this many weeks of exactly seven days. The span is
    /// fixed at 604 800 seconds per week; no calendar correction applies.
    fn weeks(self) -> (d: Duration)
        requires
            representable(self.count(), Unit::Weeks),
        ensures
            d.wf(),
            d@ == self.count() * unit_nanos(Unit::Weeks),
    {
        match self.try_duration(Unit::Weeks) {
            Ok(d) => d,
            Err(_) => unreached(),
        }
    }

    /// A duration of this many milliseconds.
    fn milliseconds(self) -> (d: Duration)
        requires
            representable(self.count(), Unit::Milliseconds),
        ensures
            d.wf(),
            d@ == self.count() * unit_nanos(Unit::Milliseconds),
    {
        match self.try_duration(Unit::Milliseconds) {
            Ok(d) => d,
            Err(_) => unreached(),
        }
    }

    /// A duration of this many microseconds.
    fn microseconds(self) -> (d: Duration)
        requires
            representable(self.count(), Unit::Microseconds),
        ensures
            d.wf(),
            d@ == self.count() * unit_nanos(Unit::Microseconds),
    {
        match self.try_duration(Unit::Microseconds) {
            Ok(d) => d,
            Err(_) => unreached(),
        }
    }

    /// A duration of this many nanoseconds.
    fn nanoseconds(self) -> (d: Duration)
        requires
            representable(self.count(), Unit::Nanoseconds),
        ensures
            d.wf(),
            d@ == self.count() * unit_nanos(Unit::Nanoseconds),
    {
        match self.try_duration(Unit::Nanoseconds) {
            Ok(d) => d,
            Err(_) => unreached(),
        }
    }
}

impl DurationExt for u64 {
    open spec fn count(self) -> int {
        self as int
    }

    fn try_duration(self, u: Unit) -> (r: Result<Duration, DurationError>) {
        duration_from_u64(self, u)
    }
}

impl DurationExt for u32 {
    open spec fn count(self) -> int {
        self as int
    }

    fn try_duration(self, u: Unit) -> (r: Result<Duration, DurationError>) {
        (self as u64).try_duration(u)
    }
}

impl DurationExt for i64 {
    open spec fn count(self) -> int {
        self as int
    }

    fn try_duration(self, u: Unit) -> (r: Result<Duration, DurationError>) {
        duration_from_i64(self, u)
    }
}

impl DurationExt for i32 {
    open spec fn count(self) -> int {
        self as int
    }

    fn try_duration(self, u: Unit) -> (r: Result<Duration, DurationError>) {
        (self as i64).try_duration(u)
    }
}

} // verus!
