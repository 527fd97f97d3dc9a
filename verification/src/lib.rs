//! Fluent construction of time durations from integer counts.
//!
//! The crate lets an integer count of a named time unit become a duration
//! value: `5u64.minutes()` is the span of three hundred seconds. The fluent
//! methods of [`DurationExt`] exist for the four numeric kinds `u64`, `u32`,
//! `i64` and `i32`; the narrower width of each signedness delegates to the
//! wider one, so both widths share one behaviour exactly.
//!
//! The policy is reject-and-check: a negative signed count is refused, and a
//! count whose span would exceed the range of [`Duration`] is refused. The
//! fluent methods state those limits as preconditions; the fallible form
//! `try_duration` reports them as `DurationError` values instead, for callers
//! that cannot rule them out beforehand.

pub mod duration;
pub mod ext;
pub mod laws;
pub mod units;

pub use crate::duration::Duration;
pub use crate::ext::DurationError;
pub use crate::ext::DurationExt;
pub use crate::units::Unit;
