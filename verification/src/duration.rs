//! An immutable span of time, held as whole seconds plus a sub-second
//! remainder in nanoseconds.
//!
//! A value is produced only by the constructors here or by the conversion
//! facility, and is never mutated afterwards. Its mathematical model is the
//! total span in nanoseconds, written `d@`; every constructor yields a
//! well-formed value, one whose sub-second remainder is below one second, so
//! among well-formed values the span determines the value.

use vstd::prelude::*;
use vstd::arithmetic::div_mod::lemma_fundamental_div_mod;
use vstd::arithmetic::div_mod::lemma_fundamental_div_mod_converse;

use crate::units::NANOS_PER_SEC;
use crate::units::max_duration_nanos;

verus! {

/// A span of time: `secs` whole seconds and `nanos` further nanoseconds.
#[derive(Clone, Copy, PartialEq, Eq, Structural, Debug)]
pub struct Duration {
    secs: u64,
    nanos: u32,
}

impl View for Duration {
    type V = int;

    /// The total span in nanoseconds.
    closed spec fn view(&self) -> int {
        (self.secs as int) * (NANOS_PER_SEC as int) + (self.nanos as int)
    }
}

impl Duration {
    /// Well-formedness: the sub-second remainder is below one second. Every
    /// constructor establishes it, and every operation preserves it.
    pub closed spec fn wf(self) -> bool {
        self.nanos < NANOS_PER_SEC
    }

    /// A duration of exactly `secs` whole seconds.
    pub fn from_secs(secs: u64) -> (d: Duration)
        ensures
            d.wf(),
            d@ == (secs as int) * (NANOS_PER_SEC as int),
    {
        Duration { secs, nanos: 0 }
    }

    /// A duration of exactly `millis` milliseconds.
    pub fn from_millis(millis: u64) -> (d: Duration)
        ensures
            d.wf(),
            d@ == (millis as int) * 1_000_000,
    {
        proof {
            lemma_fundamental_div_mod(millis as int, 1_000);
        }
        Duration { secs: millis / 1_000, nanos: ((millis % 1_000) as u32) * 1_000_000 }
    }

    /// A duration of exactly `micros` microseconds.
    pub fn from_micros(micros: u64) -> (d: Duration)
        ensures
            d.wf(),
            d@ == (micros as int) * 1_000,
    {
        proof {
            lemma_fundamental_div_mod(micros as int, 1_000_000);
        }
        Duration { secs: micros / 1_000_000, nanos: ((micros % 1_000_000) as u32) * 1_000 }
    }

    /// A duration of exactly `nanos` nanoseconds.
    pub fn from_nanos(nanos: u64) -> (d: Duration)
        ensures
            d.wf(),
            d@ == nanos as int,
    {
        proof {
            lemma_fundamental_div_mod(nanos as int, 1_000_000_000);
        }
        Duration { secs: nanos / 1_000_000_000, nanos: (nanos % 1_000_000_000) as u32 }
    }

    /// The sum of two spans, or `None` where the sum would exceed the
    /// representable range.
    pub fn checked_add(self, rhs: Duration) -> (r: Option<Duration>)
        requires
            self.wf(),
            rhs.wf(),
        ensures
            self@ + rhs@ <= max_duration_nanos() ==> (r matches Some(d) && d.wf() && d@ == self@
                + rhs@),
            self@ + rhs@ > max_duration_nanos() ==> r is None,
    {
        let nanos_sum: u32 = self.nanos + rhs.nanos;
        let mut carry: u64 = 0;
        let mut nanos: u32 = nanos_sum;
        if nanos_sum >= NANOS_PER_SEC {
            carry = 1;
            nanos = nanos_sum - NANOS_PER_SEC;
        }
        match self.secs.checked_add(rhs.secs) {
            Some(partial) => match partial.checked_add(carry) {
                Some(secs) => Some(Duration { secs, nanos }),
                None => None,
            },
            None => None,
        }
    }

    /// The number of whole seconds in the span.
    pub fn as_secs(&self) -> (r: u64)
        requires
            self.wf(),
        ensures
            r as int == self@ / (NANOS_PER_SEC as int),
    {
        proof {
            lemma_fundamental_div_mod_converse(
                self@,
                NANOS_PER_SEC as int,
                self.secs as int,
                self.nanos as int,
            );
        }
        self.secs
    }

    /// The sub-second remainder of the span, in nanoseconds.
    pub fn subsec_nanos(&self) -> (r: u32)
        requires
            self.wf(),
        ensures
            r as int == self@ % (NANOS_PER_SEC as int),
    {
        proof {
            lemma_fundamental_div_mod_converse(
                self@,
                NANOS_PER_SEC as int,
                self.secs as int,
                self.nanos as int,
            );
        }
        self.nanos
    }

    /// The number of whole milliseconds in the span.
    pub fn as_millis(&self) -> (r: u128)
        requires
            self.wf(),
        ensures
            r as int == self@ / 1_000_000,
    {
        proof {
            lemma_fundamental_div_mod(self.nanos as int, 1_000_000);
            lemma_fundamental_div_mod_converse(
                self@,
                1_000_000,
                (self.secs as int) * 1_000 + (self.nanos as int) / 1_000_000,
                (self.nanos as int) % 1_000_000,
            );
        }
        (self.secs as u128) * 1_000 + ((self.nanos / 1_000_000) as u128)
    }
}

/// Two well-formed durations with the same total span are equal: the span
/// determines the whole-second part and the sub-second remainder uniquely.
pub proof fn lemma_span_determines_duration(a: Duration, b: Duration)
    requires
        a.wf(),
        b.wf(),
        a@ == b@,
    ensures
        a == b,
{
}

} // verus!
