use duration_extender::Duration;
use duration_extender::DurationError;
use duration_extender::DurationExt;
use duration_extender::Unit;

// The largest number that can be multiplied by 60 without overflowing u64.
const MAX_FOR_MINUTES: u64 = u64::MAX / 60;
// A number one larger than MAX_FOR_MINUTES.
const OVERFLOW_MINUTES: u64 = MAX_FOR_MINUTES.saturating_add(1);

#[test]
fn test_u64_large_units() {
    let five: u64 = 5;
    assert_eq!(five.minutes(), Duration::from_secs(5 * 60));
}

#[test]
fn test_i64_positive() {
    let pos_ten: i64 = 10;
    assert_eq!(pos_ten.minutes(), Duration::from_secs(600));
}

#[test]
fn test_max_u64_small_units() {
    let max_u64 = u64::MAX;
    let small_duration = max_u64.milliseconds();
    assert!(small_duration.as_millis() > 0);
}

#[test]
fn u64_units_follow_the_multiplier_table() {
    let seven: u64 = 7;
    assert_eq!(seven.seconds(), Duration::from_secs(7));
    assert_eq!(seven.minutes(), Duration::from_secs(7 * 60));
    assert_eq!(seven.hours(), Duration::from_secs(7 * 3_600));
    assert_eq!(seven.days(), Duration::from_secs(7 * 86_400));
    assert_eq!(seven.weeks(), Duration::from_secs(7 * 604_800));
    assert_eq!(seven.milliseconds(), Duration::from_millis(7));
    assert_eq!(seven.microseconds(), Duration::from_micros(7));
    assert_eq!(seven.nanoseconds(), Duration::from_nanos(7));
}

#[test]
fn sub_second_units_carry_into_whole_seconds() {
    let d = (1_500u64).milliseconds();
    assert_eq!(d.as_secs(), 1);
    assert_eq!(d.subsec_nanos(), 500_000_000);
    assert_eq!(d, Duration::from_millis(1_500));
    assert_eq!((2_000_001u64).microseconds().as_secs(), 2);
    assert_eq!((999_999_999u64).nanoseconds().as_secs(), 0);
    assert_eq!((999_999_999u64).nanoseconds().subsec_nanos(), 999_999_999);
}

#[test]
fn zero_of_every_unit_is_the_zero_duration() {
    let zero: u64 = 0;
    let none = Duration::from_secs(0);
    assert_eq!(zero.seconds(), none);
    assert_eq!(zero.minutes(), none);
    assert_eq!(zero.hours(), none);
    assert_eq!(zero.days(), none);
    assert_eq!(zero.weeks(), none);
    assert_eq!(zero.milliseconds(), none);
    assert_eq!(zero.microseconds(), none);
    assert_eq!(zero.nanoseconds(), none);
}

#[test]
fn converting_twice_yields_equal_durations() {
    let n: u64 = 123_456;
    assert_eq!(n.minutes(), n.minutes());
    assert_eq!(n.try_duration(Unit::Weeks), n.try_duration(Unit::Weeks));
    let m: i32 = -4;
    assert_eq!(m.try_duration(Unit::Hours), m.try_duration(Unit::Hours));
}

#[test]
fn negative_signed_counts_are_refused_for_every_unit() {
    let n64: i64 = -1;
    let n32: i32 = -1;
    let units = [
        Unit::Nanoseconds,
        Unit::Microseconds,
        Unit::Milliseconds,
        Unit::Seconds,
        Unit::Minutes,
        Unit::Hours,
        Unit::Days,
        Unit::Weeks,
    ];
    for u in units {
        assert_eq!(n64.try_duration(u), Err(DurationError::NegativeInput));
        assert_eq!(n32.try_duration(u), Err(DurationError::NegativeInput));
    }
    assert_eq!((-10i64).try_duration(Unit::Seconds), Err(DurationError::NegativeInput));
    assert_eq!((i64::MIN).try_duration(Unit::Weeks), Err(DurationError::NegativeInput));
}

#[test]
fn minutes_overflow_exactly_past_the_threshold() {
    let largest = MAX_FOR_MINUTES.try_duration(Unit::Minutes);
    assert_eq!(largest, Ok(Duration::from_secs(MAX_FOR_MINUTES * 60)));
    let over = OVERFLOW_MINUTES.try_duration(Unit::Minutes);
    assert_eq!(over, Err(DurationError::ArithmeticOverflow));
}

#[test]
fn signed_minutes_overflow_is_refused() {
    let over = (OVERFLOW_MINUTES as i64).try_duration(Unit::Minutes);
    assert_eq!(over, Err(DurationError::ArithmeticOverflow));
}

#[test]
fn large_unit_overflows_are_refused() {
    let max = u64::MAX;
    assert_eq!(max.try_duration(Unit::Minutes), Err(DurationError::ArithmeticOverflow));
    assert_eq!(max.try_duration(Unit::Hours), Err(DurationError::ArithmeticOverflow));
    assert_eq!(max.try_duration(Unit::Days), Err(DurationError::ArithmeticOverflow));
    assert_eq!(max.try_duration(Unit::Weeks), Err(DurationError::ArithmeticOverflow));
    assert_eq!(max.try_duration(Unit::Seconds), Ok(Duration::from_secs(max)));
}

#[test]
fn both_widths_of_one_signedness_agree() {
    let narrow: u32 = u32::MAX;
    let wide: u64 = narrow as u64;
    assert_eq!(narrow.weeks(), wide.weeks());
    assert_eq!(narrow.nanoseconds(), wide.nanoseconds());
    assert_eq!(narrow.try_duration(Unit::Days), wide.try_duration(Unit::Days));
    let s_narrow: i32 = i32::MAX;
    let s_wide: i64 = s_narrow as i64;
    assert_eq!(s_narrow.hours(), s_wide.hours());
    assert_eq!(s_narrow.try_duration(Unit::Weeks), s_wide.try_duration(Unit::Weeks));
    let neg_narrow: i32 = -7;
    let neg_wide: i64 = -7;
    assert_eq!(neg_narrow.try_duration(Unit::Seconds), neg_wide.try_duration(Unit::Seconds));
}

#[test]
fn addition_composes_as_expected() {
    let two: u64 = 2;
    let thirty: u64 = 30;
    let fifteen: u64 = 15;
    let total = two
        .hours()
        .checked_add(thirty.minutes())
        .and_then(|d| d.checked_add(fifteen.seconds()));
    assert_eq!(total, Some(Duration::from_secs(9_015)));
}

#[test]
fn addition_carries_the_sub_second_remainder() {
    let a = (600u64).milliseconds();
    let b = (700u64).milliseconds();
    assert_eq!(a.checked_add(b), Some(Duration::from_millis(1_300)));
}

#[test]
fn addition_past_the_range_is_refused() {
    let all = u64::MAX.seconds();
    let one = (1u64).seconds();
    assert_eq!(all.checked_add(one), None);
    let top = all.checked_add((999_999_999u64).nanoseconds()).unwrap();
    assert_eq!(top.as_secs(), u64::MAX);
    assert_eq!(top.subsec_nanos(), 999_999_999);
    assert_eq!(top.checked_add((1u64).nanoseconds()), None);
}

#[test]
fn max_u64_milliseconds_keeps_the_exact_count() {
    let d = u64::MAX.milliseconds();
    assert_eq!(d.as_millis(), u64::MAX as u128);
}
