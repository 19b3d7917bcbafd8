//! Signed durations with nanosecond resolution, and the wire encoding
//! that turns one into a whole number of milliseconds.
//!
//! A duration is a second count plus a nanosecond offset in
//! `[0, 1_000_000_000)`, so the value it denotes is
//! `secs * 1e9 + nanos` nanoseconds; negative durations carry a negative
//! second count. Values are bounded to `i64::MAX` milliseconds in
//! magnitude, so the millisecond encoding always fits in an `i64`.
//! The encoder truncates toward zero and never clamps: each field's
//! documented minimum is the caller's burden, not this layer's.
use vstd::arithmetic::div_mod::{
    lemma_div_is_ordered, lemma_fundamental_div_mod, lemma_fundamental_div_mod_converse_div,
};
use vstd::prelude::*;

verus! {

/// One billion: nanoseconds per second.
pub const NANOS_PER_SEC: u32 = 1_000_000_000;

/// One million: nanoseconds per millisecond.
pub const NANOS_PER_MILLI: u32 = 1_000_000;

/// Largest second count a duration may carry: `i64::MAX / 1000`.
pub const MAX_SECS: i64 = 9_223_372_036_854_775;

/// Smallest second count a duration may carry: `-i64::MAX / 1000 - 1`.
pub const MIN_SECS: i64 = -9_223_372_036_854_776;

/// A signed span of time with nanosecond resolution.
#[derive(Clone, Copy, PartialEq, Eq, Structural, Debug)]
pub struct Duration {
    /// Whole seconds; negative for durations below zero.
    pub secs: i64,
    /// Nanoseconds added on top of `secs`, always in `[0, 1_000_000_000)`.
    pub nanos: u32,
}

impl Duration {
    /// The value this duration denotes, in nanoseconds.
    pub open spec fn total_nanos(self) -> int {
        self.secs * 1_000_000_000 + self.nanos
    }

    /// A nanosecond count truncated toward zero to whole milliseconds.
    pub open spec fn millis_trunc(n: int) -> int {
        if n >= 0 {
            n / 1_000_000
        } else {
            -((-n) / 1_000_000)
        }
    }

    /// Well-formed: the nanosecond offset is normalized and the value
    /// stays within `i64::MAX` milliseconds of zero, in either direction.
    pub open spec fn wf(self) -> bool {
        &&& self.nanos < 1_000_000_000
        &&& MIN_SECS <= self.secs <= MAX_SECS
        &&& (self.secs == MAX_SECS ==> self.nanos <= 807_000_000)
        &&& (self.secs == MIN_SECS ==> self.nanos >= 193_000_000)
    }

    /// A duration of exactly `secs` whole seconds.
    pub fn seconds(secs: i64) -> (d: Duration)
        requires
            -MAX_SECS <= secs <= MAX_SECS,
        ensures
            d.wf(),
            d.secs == secs,
            d.nanos == 0,
            d.total_nanos() == secs * 1_000_000_000,
    {
        Duration { secs, nanos: 0 }
    }

    /// A duration of exactly `millis` milliseconds. Every `i64` above
    /// `i64::MIN` denotes a representable duration.
    pub fn milliseconds(millis: i64) -> (d: Duration)
        requires
            millis > i64::MIN,
        ensures
            d.wf(),
            d.total_nanos() == millis * 1_000_000,
    {
        if millis >= 0 {
            let secs = millis / 1000;
            let rem = millis % 1000;
            let d = Duration { secs, nanos: (rem as u32) * NANOS_PER_MILLI };
            proof {
                assert(millis == 1000 * secs + rem) by {
                    lemma_fundamental_div_mod(millis as int, 1000);
                }
                assert(d.total_nanos() == millis * 1_000_000) by (nonlinear_arith)
                    requires
                        millis == 1000 * secs + rem,
                        d.secs == secs,
                        d.nanos == rem * 1_000_000,
                ;
                assert(d.secs <= MAX_SECS && (d.secs == MAX_SECS ==> d.nanos <= 807_000_000)) by {
                    assert(secs <= MAX_SECS && (secs == MAX_SECS ==> rem <= 807)) by {
                        lemma_fundamental_div_mod(millis as int, 1000);
                    }
                }
            }
            d
        } else {
            // Work on the magnitude to keep the division unsigned.
            let mag = -millis;
            let q = mag / 1000;
            let rem = mag % 1000;
            let d = if rem == 0 {
                Duration { secs: -q, nanos: 0 }
            } else {
                Duration { secs: -q - 1, nanos: ((1000 - rem) as u32) * NANOS_PER_MILLI }
            };
            proof {
                assert(mag == 1000 * q + rem) by {
                    lemma_fundamental_div_mod(mag as int, 1000);
                }
                assert(d.total_nanos() == millis * 1_000_000) by (nonlinear_arith)
                    requires
                        mag == 1000 * q + rem,
                        0 <= rem < 1000,
                        millis == -mag,
                        rem == 0 ==> d.secs == -q && d.nanos == 0,
                        rem != 0 ==> d.secs == -q - 1 && d.nanos == (1000 - rem) * 1_000_000,
                ;
                assert(d.secs >= MIN_SECS && (d.secs == MIN_SECS ==> d.nanos >= 193_000_000)) by {
                    assert(q <= 9_223_372_036_854_775 && (q == 9_223_372_036_854_775 ==> rem
                        <= 807)) by {
                        lemma_fundamental_div_mod(mag as int, 1000);
                    }
                }
            }
            d
        }
    }

    /// A duration from a second count and a normalized nanosecond offset;
    /// `None` exactly when the pair falls outside the representable range.
    pub fn new(secs: i64, nanos: u32) -> (r: Option<Duration>)
        ensures
            r is Some <==> (Duration { secs, nanos }).wf(),
            r is Some ==> r->0 == (Duration { secs, nanos }),
    {
        if nanos >= NANOS_PER_SEC || secs < MIN_SECS || secs > MAX_SECS || (secs == MAX_SECS
            && nanos > 807_000_000) || (secs == MIN_SECS && nanos < 193_000_000) {
            None
        } else {
            Some(Duration { secs, nanos })
        }
    }

    /// The whole number of milliseconds in this duration, truncated
    /// toward zero: the fractional millisecond is dropped, whatever the
    /// sign. No minimum is enforced here.
    pub fn num_milliseconds(&self) -> (r: i64)
        requires
            self.wf(),
        ensures
            r == Self::millis_trunc(self.total_nanos()),
    {
        if self.secs < 0 && self.nanos > 0 {
            // A negative duration with a fractional second: count the
            // borrowed second back out of the nanosecond offset.
            let back = NANOS_PER_SEC - self.nanos;
            let part = (back / NANOS_PER_MILLI) as i64;
            let r = (self.secs + 1) * 1000 - part;
            proof {
                let t = self.total_nanos();
                let m = -t;
                let a = -self.secs - 1;
                assert(m == a * 1_000_000_000 + back) by (nonlinear_arith)
                    requires
                        t == self.secs * 1_000_000_000 + self.nanos,
                        m == -t,
                        a == -self.secs - 1,
                        back == 1_000_000_000 - self.nanos,
                ;
                assert(back == 1_000_000 * (back as int / 1_000_000) + back as int % 1_000_000
                    && 0 <= back as int % 1_000_000 < 1_000_000) by {
                    lemma_fundamental_div_mod(back as int, 1_000_000);
                }
                let q = a * 1000 + back as int / 1_000_000;
                assert(m == q * 1_000_000 + back as int % 1_000_000) by (nonlinear_arith)
                    requires
                        m == a * 1_000_000_000 + back,
                        back == 1_000_000 * (back as int / 1_000_000) + back as int % 1_000_000,
                        q == a * 1000 + back as int / 1_000_000,
                ;
                lemma_fundamental_div_mod_converse_div(
                    m,
                    1_000_000,
                    q,
                    back as int % 1_000_000,
                );
                assert(t < 0);
                assert(Self::millis_trunc(t) == -q);
                assert(r == -q);
            }
            r
        } else {
            let part = (self.nanos / NANOS_PER_MILLI) as i64;
            let r = self.secs * 1000 + part;
            proof {
                let t = self.total_nanos();
                assert(self.nanos == 1_000_000 * (self.nanos as int / 1_000_000) + self.nanos
                    as int % 1_000_000 && 0 <= self.nanos as int % 1_000_000 < 1_000_000) by {
                    lemma_fundamental_div_mod(self.nanos as int, 1_000_000);
                }
                let q = self.secs * 1000 + self.nanos as int / 1_000_000;
                assert(t == q * 1_000_000 + self.nanos as int % 1_000_000) by (nonlinear_arith)
                    requires
                        t == self.secs * 1_000_000_000 + self.nanos,
                        self.nanos == 1_000_000 * (self.nanos as int / 1_000_000) + self.nanos
                            as int % 1_000_000,
                        q == self.secs * 1000 + self.nanos as int / 1_000_000,
                ;
                lemma_fundamental_div_mod_converse_div(
                    t,
                    1_000_000,
                    q,
                    self.nanos as int % 1_000_000,
                );
                if self.secs >= 0 {
                    assert(t >= 0) by (nonlinear_arith)
                        requires
                            t == self.secs * 1_000_000_000 + self.nanos,
                            self.secs >= 0,
                    ;
                    assert(Self::millis_trunc(t) == q);
                } else {
                    // Here the nanosecond offset is zero, so the value is a
                    // whole negative number of seconds.
                    assert(self.nanos == 0);
                    assert(t == self.secs * 1_000_000_000);
                    assert(t < 0 && -t == (-self.secs) * 1_000_000_000) by (nonlinear_arith)
                        requires
                            t == self.secs * 1_000_000_000,
                            self.secs < 0,
                    ;
                    assert((-self.secs) * 1_000_000_000 == ((-self.secs) * 1000) * 1_000_000
                        + 0) by (nonlinear_arith);
                    lemma_fundamental_div_mod_converse_div(
                        -t,
                        1_000_000,
                        (-self.secs) * 1000,
                        0,
                    );
                    assert(Self::millis_trunc(t) == -((-self.secs) * 1000));
                    assert(q == self.secs * 1000);
                    assert(-((-self.secs) * 1000) == self.secs * 1000) by (nonlinear_arith);
                }
            }
            r
        }
    }
}

/// For a nonnegative duration the millisecond encoding is exactly the
/// floor of the value in milliseconds: it sits within one millisecond
/// below the true value, never above it.
pub proof fn lemma_millis_truncates(d: Duration)
    requires
        d.wf(),
        d.total_nanos() >= 0,
    ensures
        Duration::millis_trunc(d.total_nanos()) == d.total_nanos() / 1_000_000,
        Duration::millis_trunc(d.total_nanos()) * 1_000_000 <= d.total_nanos()
            < (Duration::millis_trunc(d.total_nanos()) + 1) * 1_000_000,
{
    let t = d.total_nanos();
    lemma_fundamental_div_mod(t, 1_000_000);
    assert((t / 1_000_000) * 1_000_000 <= t < (t / 1_000_000 + 1) * 1_000_000) by (nonlinear_arith)
        requires
            t == 1_000_000 * (t / 1_000_000) + t % 1_000_000,
            0 <= t % 1_000_000 < 1_000_000,
    ;
}

/// The millisecond encoding is monotone: of two nonnegative durations,
/// the longer one never encodes to fewer milliseconds.
pub proof fn lemma_millis_monotonic(d1: Duration, d2: Duration)
    requires
        d1.wf(),
        d2.wf(),
        0 <= d1.total_nanos() <= d2.total_nanos(),
    ensures
        Duration::millis_trunc(d1.total_nanos()) <= Duration::millis_trunc(d2.total_nanos()),
{
    lemma_div_is_ordered(d1.total_nanos(), d2.total_nanos(), 1_000_000);
}

} // verus!
