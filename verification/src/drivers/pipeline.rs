//! The pipeline that takes batches from a source, buffers them and hands out
//! frames that are ready to plot.

use crate::drivers::buffer::{rows_of, SignalBuffer, SignalBufferView, TimeSeriesFrame};
use crate::drivers::error::ModelizeError;
use crate::drivers::fft::{is_spectrum_of, FrequencySpectrum, SpectrumBuilder};
use crate::drivers::source::{batch_verdict, SignalBatch, SignalSource};
use crate::units::{samples_in_span, Seconds};
use vstd::prelude::*;

verus! {

/// The empty buffer that the first batch of the given rate and labels calls
/// for.
pub open spec fn fresh_buffer<T>(
    sample_rate_hz: u32,
    labels: Seq<String>,
    history_seconds: Seconds,
) -> SignalBufferView<T> {
    SignalBufferView {
        sample_rate_hz,
        capacity: samples_in_span(sample_rate_hz, history_seconds),
        labels,
        channels: Seq::new(labels.len(), |c: int| Seq::<T>::empty()),
    }
}

/// A pipeline from a source of batches to frames. Its buffer is made when
/// the first valid batch arrives, with that batch's rate and labels.
pub struct SignalPipeline<T, S: SignalSource<T>> {
    source: S,
    buffer: Option<SignalBuffer<T>>,
    history_seconds: Seconds,
}

impl<T, S: SignalSource<T>> SignalPipeline<T, S> {
    /// What the buffer holds; `None` until a first batch was taken in.
    pub closed spec fn buffered(&self) -> Option<SignalBufferView<T>> {
        match self.buffer {
            Some(buffer) => Some(buffer@),
            None => None,
        }
    }

    /// The span that the buffer keeps and that every frame covers.
    pub closed spec fn history(&self) -> Seconds {
        self.history_seconds
    }

    /// The source that `pump_once` asks.
    pub closed spec fn source(&self) -> S {
        self.source
    }

    /// The buffer that a batch is pushed into: the one there is, or a fresh
    /// one for the batch's rate and labels.
    pub open spec fn receiving(&self, batch: SignalBatch<T>) -> SignalBufferView<T> {
        match self.buffered() {
            Some(buffer) => buffer,
            None => fresh_buffer(batch.sample_rate_hz, batch.channel_labels@, self.history()),
        }
    }

    /// What `push_and_snapshot` answers to a batch: the batch's own faults
    /// where there is no buffer yet, else what the buffer answers.
    pub open spec fn verdict(&self, batch: SignalBatch<T>) -> Result<(), ModelizeError> {
        match self.buffered() {
            Some(buffer) => buffer.push_verdict(
                batch.sample_rate_hz,
                batch.samples@.len(),
                batch.channel_labels@.len(),
            ),
            None => batch_verdict(
                batch.sample_rate_hz,
                batch.samples@.len(),
                batch.channel_labels@.len(),
            ),
        }
    }

    /// Whether `pumped` and `buffered` are what `pump_once` returns and what
    /// the buffer then is, where the source answered `next`. What the source
    /// failed with is passed on, and so is its having no batch; the buffer
    /// stays. A batch is taken in as by `push_and_snapshot`: one that is
    /// refused is answered with its fault and leaves the buffer; one that is
    /// accepted is pushed into the buffer, which the first such batch makes,
    /// and answered with the snapshot of the buffer's whole history.
    pub open spec fn pumps(
        &self,
        next: Result<Option<SignalBatch<T>>, ModelizeError>,
        pumped: Result<Option<TimeSeriesFrame<T>>, ModelizeError>,
        buffered: Option<SignalBufferView<T>>,
    ) -> bool {
        match next {
            Err(fault) => {
                &&& pumped == Err::<Option<TimeSeriesFrame<T>>, ModelizeError>(fault)
                &&& buffered == self.buffered()
            },
            Ok(None) => {
                &&& pumped == Ok::<Option<TimeSeriesFrame<T>>, ModelizeError>(None)
                &&& buffered == self.buffered()
            },
            Ok(Some(batch)) => match self.verdict(batch) {
                Err(fault) => {
                    &&& pumped == Err::<Option<TimeSeriesFrame<T>>, ModelizeError>(fault)
                    &&& buffered == self.buffered()
                },
                Ok(()) => {
                    &&& pumped matches Ok(Some(frame))
                    &&& buffered == Some(
                        self.receiving(batch).after_push(rows_of(batch.samples@)),
                    )
                    &&& buffered.unwrap().yields(self.history(), frame)
                    &&& frame.samples@.len() == frame.channel_labels@.len()
                },
            },
        }
    }

    /// A pipeline on `source` that keeps `history_seconds` of samples and has
    /// no buffer yet.
    pub fn new(source: S, history_seconds: Seconds) -> (pipeline: Self)
        ensures
            pipeline.buffered().is_none(),
            pipeline.history() == history_seconds,
            pipeline.source() == source,
    {
        Self { source, buffer: None, history_seconds }
    }

    /// Asks the source for one batch and takes it in. `Ok(None)` where the
    /// source has none; what the source or the batch failed with otherwise.
    /// The buffer changes only where a frame is returned, and that frame is
    /// the snapshot of the buffer as it then is. The source is asked once,
    /// and what it answered decides the rest: see `pumps`.
    pub fn pump_once(&mut self) -> (pumped: Result<Option<TimeSeriesFrame<T>>, ModelizeError>) where
        T: Copy,

        ensures
            final(self).history() == old(self).history(),
            exists|next: Result<Option<SignalBatch<T>>, ModelizeError>|
                old(self).source().hands(next, final(self).source()) && old(self).pumps(
                    next,
                    pumped,
                    final(self).buffered(),
                ),
            match pumped {
                Ok(Some(frame)) => {
                    &&& final(self).buffered() matches Some(buffer)
                    &&& buffer.yields(final(self).history(), frame)
                    &&& frame.samples@.len() == frame.channel_labels@.len()
                    &&& exists|batch: SignalBatch<T>|
                        old(self).verdict(batch).is_ok() && buffer == old(self).receiving(
                            batch,
                        ).after_push(rows_of(batch.samples@))
                },
                Ok(None) => final(self).buffered() == old(self).buffered(),
                Err(_) => final(self).buffered() == old(self).buffered(),
            },
    {
        let next = self.source.next_batch();
        let ghost asked = self.source;
        assert(old(self).source().hands(next, asked));
        assert(self.buffered() == old(self).buffered());
        assert(self.history() == old(self).history());
        let pumped = match next {
            Err(fault) => Err(fault),
            Ok(None) => Ok(None),
            Ok(Some(batch)) => {
                assert(self.verdict(batch) == old(self).verdict(batch));
                assert(self.receiving(batch) == old(self).receiving(batch));
                match self.push_and_snapshot(batch) {
                    Ok(frame) => {
                        assert(old(self).verdict(batch).is_ok() && self.buffered().unwrap() == old(
                            self,
                        ).receiving(batch).after_push(rows_of(batch.samples@)));
                        Ok(Some(frame))
                    },
                    Err(fault) => Err(fault),
                }
            },
        };
        assert(self.source() == asked);
        assert(old(self).pumps(next, pumped, self.buffered()));
        pumped
    }

    /// Takes in `batch` and returns the snapshot of the buffer's whole
    /// history. The first valid batch makes the buffer. A batch that is
    /// refused leaves the pipeline as it was.
    pub fn push_and_snapshot(&mut self, batch: SignalBatch<T>) -> (pushed: Result<
        TimeSeriesFrame<T>,
        ModelizeError,
    >) where T: Copy
        ensures
            final(self).history() == old(self).history(),
            final(self).source() == old(self).source(),
            pushed.is_ok() <==> old(self).verdict(batch).is_ok(),
            pushed matches Err(fault) ==> {
                &&& old(self).verdict(batch) == Err::<(), ModelizeError>(fault)
                &&& final(self).buffered() == old(self).buffered()
            },
            pushed matches Ok(frame) ==> {
                &&& final(self).buffered() == Some(
                    old(self).receiving(batch).after_push(rows_of(batch.samples@)),
                )
                &&& final(self).buffered().unwrap().yields(final(self).history(), frame)
                &&& frame.samples@.len() == frame.channel_labels@.len()
            },
    {
        let history_seconds = self.history_seconds;
        let held = self.buffer.take();
        let mut buffer = match held {
            Some(buffer) => buffer,
            None => {
                match batch.validate() {
                    Err(fault) => {
                        return Err(fault);
                    },
                    Ok(()) => {},
                }
                let labels: Vec<String> = batch.channel_labels.clone();
                assert(labels@ =~= batch.channel_labels@);
                match SignalBuffer::with_history_seconds(
                    labels,
                    batch.sample_rate_hz,
                    history_seconds,
                ) {
                    Ok(buffer) => {
                        assert(buffer@.channels =~= fresh_buffer::<T>(
                            batch.sample_rate_hz,
                            batch.channel_labels@,
                            history_seconds,
                        ).channels);
                        buffer
                    },
                    Err(fault) => {
                        return Err(fault);
                    },
                }
            },
        };
        assert(buffer@ == old(self).receiving(batch));
        match buffer.push_batch(&batch) {
            Err(fault) => {
                self.buffer = Some(buffer);
                Err(fault)
            },
            Ok(()) => {
                let frame = buffer.snapshot(history_seconds);
                self.buffer = Some(buffer);
                Ok(frame)
            },
        }
    }

    /// Lets the buffer go, as when a session ends: the next valid batch makes
    /// a new one with its own rate and labels.
    pub fn reset(&mut self)
        ensures
            final(self).buffered().is_none(),
            final(self).history() == old(self).history(),
            final(self).source() == old(self).source(),
    {
        self.buffer = None;
    }

    /// The snapshot of the buffer's whole history; `BufferUninitialized`
    /// before the first batch was taken in.
    pub fn latest_frame(&self) -> (latest: Result<TimeSeriesFrame<T>, ModelizeError>) where T: Copy
        ensures
            self.buffered().is_none() ==> latest == Err::<TimeSeriesFrame<T>, ModelizeError>(
                ModelizeError::BufferUninitialized,
            ),
            self.buffered().is_some() ==> latest.is_ok(),
            latest matches Ok(frame) ==> {
                &&& self.buffered() matches Some(buffer)
                &&& buffer.yields(self.history(), frame)
                &&& frame.samples@.len() == frame.channel_labels@.len()
            },
    {
        match &self.buffer {
            Some(buffer) => Ok(buffer.snapshot(self.history_seconds)),
            None => Err(ModelizeError::BufferUninitialized),
        }
    }

    /// The spectrum of the latest frame, by a transform of `fft_size` points
    /// that `magnitudes_of` performs; `BufferUninitialized` before the first
    /// batch was taken in.
    pub fn latest_spectrum<F: Fn(Vec<T>) -> Vec<T>>(
        &self,
        fft_size: usize,
        zero: T,
        magnitudes_of: F,
    ) -> (latest: Result<FrequencySpectrum<T>, ModelizeError>) where T: Copy
        requires
            forall|fed: Vec<T>| fed@.len() == fft_size ==> call_requires(magnitudes_of, (fed,)),
        ensures
            self.buffered().is_none() ==> latest == Err::<FrequencySpectrum<T>, ModelizeError>(
                ModelizeError::BufferUninitialized,
            ),
            self.buffered().is_some() ==> latest.is_ok(),
            latest matches Ok(spectrum) ==> {
                &&& self.buffered() matches Some(buffer)
                &&& exists|frame: TimeSeriesFrame<T>|
                    buffer.yields(self.history(), frame) && is_spectrum_of(
                        fft_size as nat,
                        frame,
                        zero,
                        magnitudes_of,
                        spectrum,
                    )
                &&& spectrum.magnitudes@.len() == spectrum.channel_labels@.len()
                &&& spectrum.frequencies_hz@.len() == fft_size / 2
            },
    {
        match self.latest_frame() {
            Err(fault) => Err(fault),
            Ok(frame) => {
                let builder = SpectrumBuilder::with_size(fft_size);
                let spectrum = builder.compute(&frame, zero, magnitudes_of);
                assert(self.buffered().unwrap().yields(self.history(), frame) && is_spectrum_of(
                    fft_size as nat,
                    frame,
                    zero,
                    magnitudes_of,
                    spectrum,
                ));
                Ok(spectrum)
            },
        }
    }
}

/// A batch of the given rate, rows and labels, stamped with the time at
/// which it was made.
pub fn make_batch<T>(sample_rate_hz: u32, samples: Vec<Vec<T>>, channel_labels: Vec<String>) -> (batch:
    SignalBatch<T>)
    ensures
        batch.sample_rate_hz == sample_rate_hz,
        batch.samples == samples,
        batch.channel_labels == channel_labels,
{
    SignalBatch { started_at: std::time::SystemTime::now(), sample_rate_hz, samples, channel_labels }
}

} // verus!
