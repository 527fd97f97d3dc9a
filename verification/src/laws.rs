//! Laws of the conversion facility, each proved from the public contracts.
//!
//! The conversion contract, [`conversion_post`], pins the outcome of a
//! conversion down from the count and the unit alone. The laws here draw the
//! consequences a caller relies on: the results follow the fixed multiplier
//! table, converting twice changes nothing, both widths of one signedness
//! agree exactly, a negative count is always refused, and an overflowing
//! span is refused precisely at the range boundary.

use vstd::prelude::*;
use vstd::arithmetic::mul::lemma_mul_is_associative;

use crate::duration::Duration;
use crate::duration::lemma_span_determines_duration;
use crate::ext::DurationError;
use crate::ext::DurationExt;
use crate::ext::conversion_post;
use crate::units::NANOS_PER_SEC;
use crate::units::Unit;
use crate::units::max_duration_nanos;
use crate::units::representable;
use crate::units::unit_nanos;
use crate::units::unit_secs;

verus! {

/// For the units of one whole second and above, the nanosecond multiplier is
/// the whole-second multiplier scaled by the nanoseconds in one second.
pub proof fn lemma_unit_nanos_is_secs_scaled(u: Unit)
    requires
        u is Seconds || u is Minutes || u is Hours || u is Days || u is Weeks,
    ensures
        unit_nanos(u) == unit_secs(u) * (NANOS_PER_SEC as int),
{
}

/// Converting `count` counts of a whole-second unit yields exactly the
/// duration built directly from `count * unit_secs(u)` seconds: the
/// conversions follow the fixed multiplier table.
pub proof fn lemma_unit_agrees_with_seconds_construction(
    d: Duration,
    s: Duration,
    count: int,
    u: Unit,
)
    requires
        d.wf(),
        s.wf(),
        u is Seconds || u is Minutes || u is Hours || u is Days || u is Weeks,
        d@ == count * unit_nanos(u),
        s@ == (count * unit_secs(u)) * (NANOS_PER_SEC as int),
    ensures
        d == s,
{
    lemma_unit_nanos_is_secs_scaled(u);
    lemma_mul_is_associative(count, unit_secs(u), NANOS_PER_SEC as int);
    lemma_span_determines_duration(d, s);
}

/// Converting a count of a sub-second unit yields exactly the duration the
/// matching direct constructor builds: both span `count * unit_nanos(u)`
/// nanoseconds, and the span determines the duration.
pub proof fn lemma_subsecond_agrees_with_direct_construction(
    d: Duration,
    c: Duration,
    count: int,
    u: Unit,
)
    requires
        d.wf(),
        c.wf(),
        u is Nanoseconds || u is Microseconds || u is Milliseconds,
        d@ == count * unit_nanos(u),
        c@ == count * unit_nanos(u),
    ensures
        d == c,
{
    lemma_span_determines_duration(d, c);
}

/// Converting the same count of the same unit twice yields the same outcome,
/// error or duration: the conversion contract determines the result from the
/// count and the unit alone, so there is no hidden state to drift.
pub proof fn lemma_conversion_deterministic(
    count: int,
    u: Unit,
    r1: Result<Duration, DurationError>,
    r2: Result<Duration, DurationError>,
)
    requires
        conversion_post(count, u, r1),
        conversion_post(count, u, r2),
    ensures
        r1 == r2,
{
    if representable(count, u) {
        lemma_span_determines_duration(r1->Ok_0, r2->Ok_0);
    }
}

/// A count held in thirty-two unsigned bits converts exactly as the same
/// count held in sixty-four: widening preserves the count, and the contract
/// determines the outcome from the count and the unit alone.
pub proof fn lemma_cross_width_unsigned(
    n: u32,
    u: Unit,
    narrow: Result<Duration, DurationError>,
    wide: Result<Duration, DurationError>,
)
    requires
        conversion_post(n.count(), u, narrow),
        conversion_post((n as u64).count(), u, wide),
    ensures
        narrow == wide,
{
    lemma_conversion_deterministic(n as int, u, narrow, wide);
}

/// A count held in thirty-two signed bits converts exactly as the same count
/// held in sixty-four, refusals included.
pub proof fn lemma_cross_width_signed(
    n: i32,
    u: Unit,
    narrow: Result<Duration, DurationError>,
    wide: Result<Duration, DurationError>,
)
    requires
        conversion_post(n.count(), u, narrow),
        conversion_post((n as i64).count(), u, wide),
    ensures
        narrow == wide,
{
    lemma_conversion_deterministic(n as int, u, narrow, wide);
}

/// A negative count is refused as [`DurationError::NegativeInput`], whatever
/// the unit.
pub proof fn lemma_negative_count_refused(
    count: int,
    u: Unit,
    r: Result<Duration, DurationError>,
)
    requires
        count < 0,
        conversion_post(count, u, r),
    ensures
        r == Result::<Duration, DurationError>::Err(DurationError::NegativeInput),
{
}

/// A non-negative count is refused as [`DurationError::ArithmeticOverflow`]
/// exactly where its span exceeds the representable range; every
/// representable count yields a duration.
pub proof fn lemma_overflow_refused_at_boundary(
    count: int,
    u: Unit,
    r: Result<Duration, DurationError>,
)
    requires
        0 <= count,
        conversion_post(count, u, r),
    ensures
        count * unit_nanos(u) > max_duration_nanos() <==> r == Result::<
            Duration,
            DurationError,
        >::Err(DurationError::ArithmeticOverflow),
        count * unit_nanos(u) <= max_duration_nanos() <==> r is Ok,
{
}

/// The minute threshold: `u64::MAX / 60` minutes is representable, and one
/// count more is not.
pub proof fn lemma_minutes_overflow_threshold()
    ensures
        representable((u64::MAX / 60) as int, Unit::Minutes),
        !representable((u64::MAX / 60) as int + 1, Unit::Minutes),
{
}

} // verus!
