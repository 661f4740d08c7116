//! Spectral analysis: which samples go into a transform, which bins come out
//! of it, and which of them make up a band. The transform itself works on
//! real numbers and is the caller's.

use crate::drivers::buffer::TimeSeriesFrame;
use crate::fifo::keep_last;
use crate::units::Hertz;
use vstd::prelude::*;

verus! {

/// The fewest samples from which band power is taken.
pub const MIN_BAND_SAMPLES: usize = 64;

/// What a transform of `fft_size` points is fed from `samples`: the most
/// recent `fft_size` of them, oldest first, then as many `zero`s as it takes
/// to make `fft_size` points.
pub open spec fn analysis_window<T>(samples: Seq<T>, fft_size: nat, zero: T) -> Seq<T> {
    let recent = keep_last(samples, fft_size);
    recent + Seq::new((fft_size - recent.len()) as nat, |i: int| zero)
}

/// The frequency of bin `k` of a transform of `fft_size` points of a stream
/// at `sample_rate_hz`, in millihertz, rounded down: `k` times the rate over
/// the size.
pub open spec fn bin_millihertz(k: nat, sample_rate_hz: u32, fft_size: nat) -> nat {
    ((k * sample_rate_hz * 1000) / (fft_size as int)) as nat
}

/// The first `half` entries of `full`; all of it where it holds fewer.
pub open spec fn lower_bins<T>(full: Seq<T>, half: nat) -> Seq<T> {
    if full.len() <= half {
        full
    } else {
        full.subrange(0, half as int)
    }
}

/// Whether `bins` is what the transform `magnitudes_of` makes of `window`,
/// cut to its first `half` bins.
pub open spec fn is_half_spectrum<T, F: Fn(Vec<T>) -> Vec<T>>(
    magnitudes_of: F,
    window: Seq<T>,
    half: nat,
    bins: Seq<T>,
) -> bool {
    exists|fed: Vec<T>, full: Vec<T>|
        fed@ == window && call_ensures(magnitudes_of, (fed,), full) && bins == lower_bins(
            full@,
            half,
        )
}

/// Whether `spectrum` is the spectrum that a transform of `fft_size` points
/// gives of `frame`: the frame's rate and labels, the frequency of each bin
/// below half the rate, and for each channel the first half of what
/// `magnitudes_of` makes of the channel's window.
pub open spec fn is_spectrum_of<T, F: Fn(Vec<T>) -> Vec<T>>(
    fft_size: nat,
    frame: TimeSeriesFrame<T>,
    zero: T,
    magnitudes_of: F,
    spectrum: FrequencySpectrum<T>,
) -> bool {
    &&& spectrum.sample_rate_hz == frame.sample_rate_hz
    &&& spectrum.channel_labels@ == frame.channel_labels@
    &&& spectrum.frequencies_hz@.len() == fft_size / 2
    &&& forall|k: int|
        0 <= k < spectrum.frequencies_hz@.len() ==> (#[trigger] spectrum.frequencies_hz@[k]).millis
            == bin_millihertz(k as nat, frame.sample_rate_hz, fft_size)
    &&& spectrum.magnitudes@.len() == frame.samples@.len()
    &&& forall|c: int|
        0 <= c < frame.samples@.len() ==> is_half_spectrum(
            magnitudes_of,
            analysis_window(frame.samples@[c]@, fft_size, zero),
            fft_size / 2,
            (#[trigger] spectrum.magnitudes@[c])@,
        )
    &&& forall|c: int|
        0 <= c < frame.samples@.len() ==> (#[trigger] spectrum.magnitudes@[c])@.len() <= fft_size
            / 2
}

/// The bins of a transform of `len` points of a stream at `sample_rate_hz`
/// that make up the band from `low` to `high`, first and last, both counted:
/// from the bin at or below `low` to the bin at or above `high`, neither past
/// the last bin below half the rate. `None` for fewer than 64 points, for a
/// stream without a rate, and unless `high` is above `low` and `low` above
/// zero.
pub open spec fn band_range(len: nat, sample_rate_hz: u32, low: Hertz, high: Hertz) -> Option<
    (nat, nat),
> {
    if len < 64 || sample_rate_hz == 0 || low.millis == 0 || high.millis <= low.millis {
        None
    } else {
        let top = (len / 2 - 1) as nat;
        let per_thousand = sample_rate_hz as int * 1000;
        let first = ((low.millis as int * len as int) / per_thousand) as nat;
        let last = ((high.millis as int * len as int + per_thousand - 1) / per_thousand) as nat;
        Some(
            (
                if first <= top {
                    first
                } else {
                    top
                },
                if last <= top {
                    last
                } else {
                    top
                },
            ),
        )
    }
}

/// The bins of a band: `first` to `last`, both counted.
#[derive(Clone, Copy, Debug, PartialEq, Eq, Structural)]
pub struct BandRange {
    pub first: usize,
    pub last: usize,
}

/// Finds the bins of the band from `low` to `high` in a transform of `len`
/// points of a stream at `sample_rate_hz`; `None` where `band_range` has
/// none.
pub fn band_bins(len: usize, sample_rate_hz: u32, low: Hertz, high: Hertz) -> (bins: Option<
    BandRange,
>)
    ensures
        bins.is_some() <==> band_range(len as nat, sample_rate_hz, low, high).is_some(),
        bins matches Some(range) ==> {
            &&& band_range(len as nat, sample_rate_hz, low, high) == Some(
                (range.first as nat, range.last as nat),
            )
            &&& range.first <= range.last
            &&& range.last < len / 2
        },
{
    if len < MIN_BAND_SAMPLES || sample_rate_hz == 0 || low.millis == 0 || high.millis
        <= low.millis {
        return None;
    }
    let top: usize = len / 2 - 1;
    let per_thousand: u128 = (sample_rate_hz as u128) * 1000;
    let points: u128 = len as u128;
    let low_millis: u128 = low.millis as u128;
    let high_millis: u128 = high.millis as u128;
    assert(low_millis * points <= high_millis * points <= 0xffff_ffff_ffff_ffff
        * 0xffff_ffff_ffff_ffff) by (nonlinear_arith)
        requires
            low_millis <= high_millis <= 0xffff_ffff_ffff_ffff,
            points <= 0xffff_ffff_ffff_ffff,
    ;
    let first_exact: u128 = (low_millis * points) / per_thousand;
    let last_exact: u128 = (high_millis * points + per_thousand - 1) / per_thousand;
    assert(first_exact <= last_exact) by (nonlinear_arith)
        requires
            first_exact == (low_millis * points) as int / per_thousand as int,
            last_exact == (high_millis * points + per_thousand - 1) as int / per_thousand as int,
            low_millis * points <= high_millis * points,
            per_thousand > 0,
    ;
    let first: usize = if first_exact <= top as u128 {
        first_exact as usize
    } else {
        top
    };
    let last: usize = if last_exact <= top as u128 {
        last_exact as usize
    } else {
        top
    };
    Some(BandRange { first, last })
}

/// The magnitude spectrum of every channel of a frame.
#[derive(Clone, Debug)]
pub struct FrequencySpectrum<T> {
    /// Samples per second of the stream that was analysed.
    pub sample_rate_hz: u32,
    /// The frequency of each bin.
    pub frequencies_hz: Vec<Hertz>,
    /// For each channel the magnitude of each bin.
    pub magnitudes: Vec<Vec<T>>,
    /// One label per channel.
    pub channel_labels: Vec<String>,
}

/// Computes spectra with a transform of a fixed number of points.
pub struct SpectrumBuilder {
    fft_size: usize,
}

impl SpectrumBuilder {
    /// The number of points of the transform.
    pub closed spec fn size(&self) -> nat {
        self.fft_size as nat
    }

    /// A builder for transforms of `fft_size` points.
    pub fn with_size(fft_size: usize) -> (builder: Self)
        ensures
            builder.size() == fft_size,
    {
        Self { fft_size }
    }

    /// The number of points of the transform.
    pub fn fft_size(&self) -> (points: usize)
        ensures
            points == self.size(),
    {
        self.fft_size
    }

    /// The number of bins of a spectrum: those below half the rate.
    pub fn bin_count(&self) -> (bins: usize)
        ensures
            bins == self.size() / 2,
    {
        self.fft_size / 2
    }

    /// The frequency of every bin of a spectrum of a stream at
    /// `sample_rate_hz`.
    pub fn frequencies(&self, sample_rate_hz: u32) -> (axis: Vec<Hertz>)
        ensures
            axis@.len() == self.size() / 2,
            forall|k: int|
                0 <= k < axis@.len() ==> (#[trigger] axis@[k]).millis == bin_millihertz(
                    k as nat,
                    sample_rate_hz,
                    self.size(),
                ),
    {
        let bins: usize = self.fft_size / 2;
        let mut axis: Vec<Hertz> = Vec::new();
        let mut k: usize = 0;
        while k < bins
            invariant
                k <= bins,
                bins == self.fft_size / 2,
                axis@.len() == k,
                forall|j: int|
                    0 <= j < k ==> (#[trigger] axis@[j]).millis == bin_millihertz(
                        j as nat,
                        sample_rate_hz,
                        self.fft_size as nat,
                    ),
            decreases bins - k,
        {
            let scaled: u128 = (sample_rate_hz as u128) * 1000;
            let index: u128 = k as u128;
            let points: u128 = self.fft_size as u128;
            assert(index * scaled <= points * scaled && points * scaled <= 0xffff_ffff_ffff_ffff
                * scaled && 0xffff_ffff_ffff_ffff * scaled <= 0xffff_ffff_ffff_ffff
                * 4_294_967_295_000) by (nonlinear_arith)
                requires
                    index <= points <= 0xffff_ffff_ffff_ffff,
                    scaled <= 4_294_967_295_000,
            ;
            let millis: u128 = (index * scaled) / points;
            assert(millis <= scaled) by (nonlinear_arith)
                requires
                    millis == (index * scaled) as int / points as int,
                    index <= points,
                    points > 0,
            ;
            assert(index * scaled == k * sample_rate_hz * 1000) by (nonlinear_arith)
                requires
                    index == k,
                    scaled == sample_rate_hz * 1000,
            ;
            axis.push(Hertz { millis: millis as u64 });
            k += 1;
        }
        axis
    }

    /// What the transform is fed from one channel: `analysis_window` of its
    /// samples.
    pub fn window<T: Copy>(&self, samples: &Vec<T>, zero: T) -> (fed: Vec<T>)
        ensures
            fed@ == analysis_window(samples@, self.size(), zero),
            fed@.len() == self.size(),
    {
        let held: usize = samples.len();
        let start: usize = if held <= self.fft_size {
            0
        } else {
            held - self.fft_size
        };
        let mut fed: Vec<T> = Vec::new();
        let mut i: usize = start;
        while i < held
            invariant
                start <= i <= held,
                held == samples@.len(),
                fed@ == samples@.subrange(start as int, i as int),
            decreases held - i,
        {
            fed.push(samples[i]);
            i += 1;
            assert(fed@ =~= samples@.subrange(start as int, i as int));
        }
        assert(fed@ =~= keep_last(samples@, self.fft_size as nat));
        let ghost recent = fed@;
        while fed.len() < self.fft_size
            invariant
                recent.len() <= fed@.len() <= self.fft_size,
                fed@ == recent + Seq::new((fed@.len() - recent.len()) as nat, |i: int| zero),
            decreases self.fft_size - fed@.len(),
        {
            let ghost before = fed@;
            fed.push(zero);
            assert(fed@ =~= recent + Seq::new((fed@.len() - recent.len()) as nat, |i: int| zero));
        }
        assert(fed@ =~= recent + Seq::new((self.fft_size - recent.len()) as nat, |i: int| zero));
        fed
    }

    /// The spectrum of every channel of `frame`. Each channel's window is
    /// handed to `magnitudes_of`, the transform, which answers with the
    /// magnitude of every bin; the bins below half the rate are kept.
    pub fn compute<T: Copy, F: Fn(Vec<T>) -> Vec<T>>(
        &self,
        frame: &TimeSeriesFrame<T>,
        zero: T,
        magnitudes_of: F,
    ) -> (spectrum: FrequencySpectrum<T>)
        requires
            forall|fed: Vec<T>| fed@.len() == self.size() ==> call_requires(magnitudes_of, (fed,)),
        ensures
            is_spectrum_of(self.size(), *frame, zero, magnitudes_of, spectrum),
    {
        let half: usize = self.fft_size / 2;
        let count: usize = frame.samples.len();
        let mut magnitudes: Vec<Vec<T>> = Vec::new();
        let mut c: usize = 0;
        while c < count
            invariant
                c <= count,
                count == frame.samples@.len(),
                half == self.fft_size / 2,
                magnitudes@.len() == c,
                forall|fed: Vec<T>|
                    fed@.len() == self.size() ==> call_requires(magnitudes_of, (fed,)),
                forall|j: int|
                    0 <= j < c ==> is_half_spectrum(
                        magnitudes_of,
                        analysis_window(frame.samples@[j]@, self.size(), zero),
                        self.size() / 2,
                        (#[trigger] magnitudes@[j])@,
                    ),
                forall|j: int| 0 <= j < c ==> (#[trigger] magnitudes@[j])@.len() <= half,
            decreases count - c,
        {
            let fed: Vec<T> = self.window(&frame.samples[c], zero);
            let ghost handed = fed;
            let full: Vec<T> = magnitudes_of(fed);
            let kept: usize = if full.len() <= half {
                full.len()
            } else {
                half
            };
            let mut bins: Vec<T> = Vec::new();
            let mut k: usize = 0;
            while k < kept
                invariant
                    k <= kept <= full@.len(),
                    bins@ == full@.subrange(0, k as int),
                decreases kept - k,
            {
                bins.push(full[k]);
                k += 1;
                assert(bins@ =~= full@.subrange(0, k as int));
            }
            assert(bins@ =~= lower_bins(full@, half as nat));
            assert(is_half_spectrum(
                magnitudes_of,
                analysis_window(frame.samples@[c as int]@, self.size(), zero),
                self.size() / 2,
                bins@,
            )) by {
                assert(handed@ == analysis_window(frame.samples@[c as int]@, self.size(), zero));
                assert(call_ensures(magnitudes_of, (handed,), full));
            }
            magnitudes.push(bins);
            c += 1;
        }
        let channel_labels: Vec<String> = frame.channel_labels.clone();
        assert(channel_labels@ =~= frame.channel_labels@);
        FrequencySpectrum {
            sample_rate_hz: frame.sample_rate_hz,
            frequencies_hz: self.frequencies(frame.sample_rate_hz),
            magnitudes,
            channel_labels,
        }
    }
}

} // verus!
