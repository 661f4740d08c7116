//! Exact time and frequency: spans held as whole microseconds, frequencies as
//! whole millihertz, and how many samples of a stream at a whole number of
//! hertz fall into a span.

use vstd::prelude::*;

verus! {

/// Microseconds in one second.
pub const MICROS_PER_SECOND: u64 = 1_000_000;

/// A span of time, held exactly as a whole number of microseconds.
#[derive(Clone, Copy, Debug, PartialEq, Eq, Structural)]
pub struct Seconds {
    pub micros: u64,
}

/// A frequency, held exactly as a whole number of millihertz.
#[derive(Clone, Copy, Debug, PartialEq, Eq, Structural)]
pub struct Hertz {
    pub millis: u64,
}

impl Hertz {
    /// The frequency of `hz` whole hertz.
    pub fn from_hz(hz: u32) -> (frequency: Hertz)
        ensures
            frequency.millis == hz * 1000,
    {
        Hertz { millis: (hz as u64) * 1000 }
    }

    /// The frequency of `millis` millihertz.
    pub fn from_millihertz(millis: u64) -> (frequency: Hertz)
        ensures
            frequency.millis == millis,
    {
        Hertz { millis }
    }

    /// The number of millihertz in the frequency.
    pub fn as_millihertz(&self) -> (millis: u64)
        ensures
            millis == self.millis,
    {
        self.millis
    }
}

/// The number of samples that cover `micros` microseconds of a stream at
/// `sample_rate_hz`: the product of rate and span, rounded up to a whole
/// sample.
pub open spec fn samples_spanning(sample_rate_hz: nat, micros: nat) -> nat {
    ((sample_rate_hz * micros + 999_999) / 1_000_000) as nat
}

/// `samples_spanning`, held to what a `usize` can count.
pub open spec fn samples_in_span(sample_rate_hz: u32, span: Seconds) -> nat {
    let exact = samples_spanning(sample_rate_hz as nat, span.micros as nat);
    if exact <= usize::MAX {
        exact
    } else {
        usize::MAX as nat
    }
}

/// The time that `count` samples at `sample_rate_hz` take, in whole
/// microseconds, rounded down and held to what a `u64` can count. A stream
/// without a rate never completes a sample: the span is then the longest
/// there is.
pub open spec fn span_of_samples(count: nat, sample_rate_hz: u32) -> nat {
    if sample_rate_hz == 0 {
        u64::MAX as nat
    } else {
        let exact = (count * 1_000_000) / (sample_rate_hz as nat);
        if exact <= u64::MAX {
            exact
        } else {
            u64::MAX as nat
        }
    }
}

/// A longer span never covers fewer samples.
pub proof fn lemma_samples_in_span_monotonic(sample_rate_hz: u32, shorter: Seconds, longer: Seconds)
    requires
        shorter.micros <= longer.micros,
    ensures
        samples_in_span(sample_rate_hz, shorter) <= samples_in_span(sample_rate_hz, longer),
{
    let r = sample_rate_hz as nat;
    let a = shorter.micros as nat;
    let b = longer.micros as nat;
    assert(r * a <= r * b) by (nonlinear_arith)
        requires
            a <= b,
    ;
    assert((r * a + 999_999) / 1_000_000 <= (r * b + 999_999) / 1_000_000) by (nonlinear_arith)
        requires
            r * a <= r * b,
    ;
}

impl Seconds {
    /// The span of `micros` microseconds.
    pub fn from_micros(micros: u64) -> (span: Seconds)
        ensures
            span.micros == micros,
    {
        Seconds { micros }
    }

    /// The span of `millis` milliseconds; the longest span where that many
    /// microseconds cannot be counted.
    pub fn from_millis(millis: u64) -> (span: Seconds)
        ensures
            span.micros == if millis * 1000 <= u64::MAX {
                millis * 1000
            } else {
                u64::MAX as int
            },
    {
        if millis <= u64::MAX / 1000 {
            Seconds { micros: millis * 1000 }
        } else {
            Seconds { micros: u64::MAX }
        }
    }

    /// The span of `secs` whole seconds; the longest span where that many
    /// microseconds cannot be counted.
    pub fn from_secs(secs: u64) -> (span: Seconds)
        ensures
            span.micros == if secs * 1_000_000 <= u64::MAX {
                secs * 1_000_000
            } else {
                u64::MAX as int
            },
    {
        if secs <= u64::MAX / MICROS_PER_SECOND {
            Seconds { micros: secs * MICROS_PER_SECOND }
        } else {
            Seconds { micros: u64::MAX }
        }
    }

    /// The number of microseconds in the span.
    pub fn as_micros(&self) -> (micros: u64)
        ensures
            micros == self.micros,
    {
        self.micros
    }

    /// The longer of the span and `floor`.
    pub fn at_least(self, floor: Seconds) -> (span: Seconds)
        ensures
            span.micros == if self.micros >= floor.micros {
                self.micros
            } else {
                floor.micros
            },
    {
        if self.micros >= floor.micros {
            self
        } else {
            floor
        }
    }

    /// How many samples of a stream at `sample_rate_hz` cover the span.
    pub fn samples(&self, sample_rate_hz: u32) -> (count: usize)
        ensures
            count == samples_in_span(sample_rate_hz, *self),
    {
        let rate: u128 = sample_rate_hz as u128;
        let micros: u128 = self.micros as u128;
        assert(rate * micros <= 0xffff_ffff * 0xffff_ffff_ffff_ffff) by (nonlinear_arith)
            requires
                rate <= 0xffff_ffff,
                micros <= 0xffff_ffff_ffff_ffff,
        ;
        let exact: u128 = (rate * micros + 999_999) / 1_000_000;
        if exact <= usize::MAX as u128 {
            exact as usize
        } else {
            usize::MAX
        }
    }

    /// The time that `count` samples of a stream at `sample_rate_hz` take.
    pub fn of_samples(count: usize, sample_rate_hz: u32) -> (span: Seconds)
        ensures
            span.micros == span_of_samples(count as nat, sample_rate_hz),
    {
        if sample_rate_hz == 0 {
            return Seconds { micros: u64::MAX };
        }
        let total: u128 = (count as u128) * 1_000_000;
        let exact: u128 = total / (sample_rate_hz as u128);
        if exact <= u64::MAX as u128 {
            Seconds { micros: exact as u64 }
        } else {
            Seconds { micros: u64::MAX }
        }
    }
}

} // verus!
