//! The timed calibration of baselines: a recording is armed, gathers one
//! value over three seconds, and ends with that value as the baseline of rest
//! or of the action.

use crate::units::Seconds;
use vstd::prelude::*;

verus! {

/// How long a calibration records, in microseconds: three seconds.
pub const CALIBRATION_MICROS: u64 = 3_000_000;

/// Where a calibration stands. `A` is the type of what it gathers: the
/// largest amplitude seen, or a running mean.
#[derive(Clone, Copy, Debug)]
pub enum CalibrationPhase<A> {
    /// No recording is under way.
    Idle,
    /// A recording is under way.
    Armed {
        /// Whether the action is recorded, or rest.
        is_action: bool,
        /// When the recording began, on the engine's clock.
        started_at: Seconds,
        /// What was gathered so far.
        accumulator: A,
    },
}

/// The baseline that a calibration ended with.
#[derive(Clone, Copy, Debug)]
pub struct CalibrationResult<A> {
    /// Whether it is the baseline of the action, or of rest.
    pub is_action: bool,
    /// The value that the recording gathered.
    pub baseline: A,
}

/// The calibration state machine with the baselines it has produced.
#[derive(Clone, Copy, Debug)]
pub struct Calibrator<A> {
    /// Where the calibration stands.
    pub phase: CalibrationPhase<A>,
    /// The baseline of rest, once one was recorded.
    pub rest: Option<A>,
    /// The baseline of the action, once one was recorded.
    pub action: Option<A>,
}

/// One tick of the engine as the calibration sees it: the time on the
/// engine's clock, and what the recording holds once the tick's frame was
/// taken into account.
pub struct CalibrationTick<A> {
    pub now: Seconds,
    pub gathered: A,
}

/// The time from `started_at` to `now`, in microseconds; none where the
/// clock reads earlier than the start.
pub open spec fn elapsed_micros(started_at: Seconds, now: Seconds) -> nat {
    if now.micros >= started_at.micros {
        (now.micros - started_at.micros) as nat
    } else {
        0
    }
}

impl<A> Calibrator<A> {
    /// A calibrator at rest that knows no baseline.
    pub open spec fn fresh() -> Calibrator<A> {
        Calibrator { phase: CalibrationPhase::Idle, rest: None, action: None }
    }

    /// The calibrator after a recording was begun at `now` with `initial`
    /// gathered: armed, whatever it was doing, with its baselines as they
    /// were.
    pub open spec fn after_start(self, is_action: bool, now: Seconds, initial: A) -> Calibrator<A> {
        Calibrator {
            phase: CalibrationPhase::Armed { is_action, started_at: now, accumulator: initial },
            ..self
        }
    }

    /// Whether a tick at `now` ends the recording: one is under way and began
    /// three seconds ago or more.
    pub open spec fn completes_at(self, now: Seconds) -> bool {
        match self.phase {
            CalibrationPhase::Armed { started_at, .. } => elapsed_micros(started_at, now)
                >= CALIBRATION_MICROS,
            CalibrationPhase::Idle => false,
        }
    }

    /// The calibrator after a tick at `now` that left `gathered` in the
    /// recording. At rest nothing changes. A recording that began less than
    /// three seconds ago goes on with `gathered`. One that began three seconds
    /// ago or more ends: `gathered` becomes the baseline that was recorded, the
    /// other baseline stays, and the calibrator is at rest.
    pub open spec fn after_tick(self, now: Seconds, gathered: A) -> Calibrator<A> {
        match self.phase {
            CalibrationPhase::Idle => self,
            CalibrationPhase::Armed { is_action, started_at, .. } => {
                if elapsed_micros(started_at, now) >= CALIBRATION_MICROS {
                    if is_action {
                        Calibrator {
                            phase: CalibrationPhase::Idle,
                            rest: self.rest,
                            action: Some(gathered),
                        }
                    } else {
                        Calibrator {
                            phase: CalibrationPhase::Idle,
                            rest: Some(gathered),
                            action: self.action,
                        }
                    }
                } else {
                    Calibrator {
                        phase: CalibrationPhase::Armed {
                            is_action,
                            started_at,
                            accumulator: gathered,
                        },
                        ..self
                    }
                }
            },
        }
    }

    /// What a tick at `now` that left `gathered` in the recording emits: the
    /// baseline where the tick ends the recording, nothing otherwise.
    pub open spec fn emitted(self, now: Seconds, gathered: A) -> Option<CalibrationResult<A>> {
        match self.phase {
            CalibrationPhase::Armed { is_action, started_at, .. } => {
                if elapsed_micros(started_at, now) >= CALIBRATION_MICROS {
                    Some(CalibrationResult { is_action, baseline: gathered })
                } else {
                    None
                }
            },
            CalibrationPhase::Idle => None,
        }
    }

    /// The calibrator after a recording was abandoned: at rest, with its
    /// baselines as they were.
    pub open spec fn after_cancel(self) -> Calibrator<A> {
        Calibrator { phase: CalibrationPhase::Idle, ..self }
    }

    /// Both baselines, rest first, once both are known.
    pub open spec fn known_baselines(self) -> Option<(A, A)> {
        match (self.rest, self.action) {
            (Some(rest), Some(action)) => Some((rest, action)),
            _ => None,
        }
    }

    /// The calibrator after the ticks of `ticks`, first to last.
    pub open spec fn after_ticks(self, ticks: Seq<CalibrationTick<A>>) -> Calibrator<A>
        decreases ticks.len(),
    {
        if ticks.len() == 0 {
            self
        } else {
            self.after_ticks(ticks.drop_last()).after_tick(ticks.last().now, ticks.last().gathered)
        }
    }

    /// What the last tick of `ticks` emits, the others having gone before it.
    pub open spec fn emitted_last(self, ticks: Seq<CalibrationTick<A>>) -> Option<
        CalibrationResult<A>,
    >
        recommends
            ticks.len() > 0,
    {
        self.after_ticks(ticks.drop_last()).emitted(ticks.last().now, ticks.last().gathered)
    }
}

impl<A: Copy> Calibrator<A> {
    /// A calibrator at rest that knows no baseline.
    pub fn new() -> (calibrator: Self)
        ensures
            calibrator == Calibrator::<A>::fresh(),
    {
        Calibrator { phase: CalibrationPhase::Idle, rest: None, action: None }
    }

    /// Begins a recording at `now`, of the action or of rest, with `initial`
    /// gathered. A recording that was under way is dropped.
    pub fn start(&mut self, is_action: bool, now: Seconds, initial: A)
        ensures
            *final(self) == old(self).after_start(is_action, now, initial),
    {
        self.phase = CalibrationPhase::Armed { is_action, started_at: now, accumulator: initial };
    }

    /// Whether a recording is under way.
    pub fn is_armed(&self) -> (armed: bool)
        ensures
            armed == (self.phase is Armed),
    {
        match self.phase {
            CalibrationPhase::Armed { .. } => true,
            CalibrationPhase::Idle => false,
        }
    }

    /// What the recording has gathered so far; `None` at rest.
    pub fn accumulator(&self) -> (gathered: Option<A>)
        ensures
            gathered == match self.phase {
                CalibrationPhase::Armed { accumulator, .. } => Some(accumulator),
                CalibrationPhase::Idle => None,
            },
    {
        match self.phase {
            CalibrationPhase::Armed { accumulator, .. } => Some(accumulator),
            CalibrationPhase::Idle => None,
        }
    }

    /// One tick at `now`, after which the recording holds `gathered`. Returns
    /// the baseline where the tick ends the recording.
    pub fn tick(&mut self, now: Seconds, gathered: A) -> (result: Option<CalibrationResult<A>>)
        ensures
            *final(self) == old(self).after_tick(now, gathered),
            result == old(self).emitted(now, gathered),
            result.is_some() <==> old(self).completes_at(now),
    {
        match self.phase {
            CalibrationPhase::Idle => None,
            CalibrationPhase::Armed { is_action, started_at, .. } => {
                let elapsed: u64 = if now.micros >= started_at.micros {
                    now.micros - started_at.micros
                } else {
                    0
                };
                if elapsed >= CALIBRATION_MICROS {
                    self.phase = CalibrationPhase::Idle;
                    if is_action {
                        self.action = Some(gathered);
                    } else {
                        self.rest = Some(gathered);
                    }
                    Some(CalibrationResult { is_action, baseline: gathered })
                } else {
                    self.phase = CalibrationPhase::Armed {
                        is_action,
                        started_at,
                        accumulator: gathered,
                    };
                    None
                }
            },
        }
    }

    /// Abandons a recording, as when the amplifier is disconnected. No
    /// baseline changes.
    pub fn cancel(&mut self)
        ensures
            *final(self) == old(self).after_cancel(),
    {
        self.phase = CalibrationPhase::Idle;
    }

    /// Both baselines, rest first, once both are known.
    pub fn baselines(&self) -> (known: Option<(A, A)>)
        ensures
            known == self.known_baselines(),
    {
        match (self.rest, self.action) {
            (Some(rest), Some(action)) => Some((rest, action)),
            _ => None,
        }
    }
}

/// A recording armed at `started_at` and ticked at times of which only the
/// last lies three seconds or more after the start emits nothing before the
/// last tick, and with the last tick the value that this tick gathered, as
/// the baseline that was armed. The calibrator is then at rest and holds that
/// baseline; the other baseline is as it was.
pub proof fn lemma_recording_runs_three_seconds<A>(
    before: Calibrator<A>,
    is_action: bool,
    started_at: Seconds,
    initial: A,
    ticks: Seq<CalibrationTick<A>>,
)
    requires
        ticks.len() > 0,
        forall|i: int|
            0 <= i < ticks.len() - 1 ==> elapsed_micros(started_at, (#[trigger] ticks[i]).now)
                < CALIBRATION_MICROS,
        elapsed_micros(started_at, ticks.last().now) >= CALIBRATION_MICROS,
    ensures
        forall|i: int|
            0 < i < ticks.len() ==> before.after_start(
                is_action,
                started_at,
                initial,
            ).emitted_last(#[trigger] ticks.subrange(0, i)).is_none(),
        before.after_start(is_action, started_at, initial).emitted_last(ticks) == Some(
            CalibrationResult { is_action, baseline: ticks.last().gathered },
        ),
        before.after_start(is_action, started_at, initial).after_ticks(ticks).phase is Idle,
        is_action ==> {
            &&& before.after_start(is_action, started_at, initial).after_ticks(ticks).action
                == Some(ticks.last().gathered)
            &&& before.after_start(is_action, started_at, initial).after_ticks(ticks).rest
                == before.rest
        },
        !is_action ==> {
            &&& before.after_start(is_action, started_at, initial).after_ticks(ticks).rest == Some(
                ticks.last().gathered,
            )
            &&& before.after_start(is_action, started_at, initial).after_ticks(ticks).action
                == before.action
        },
{
    let armed = before.after_start(is_action, started_at, initial);
    assert forall|i: int| 0 < i < ticks.len() implies armed.emitted_last(
        #[trigger] ticks.subrange(0, i),
    ).is_none() by {
        let upto = ticks.subrange(0, i);
        assert(upto.drop_last() =~= ticks.subrange(0, i - 1));
        assert(upto.last() == ticks[i - 1]);
        lemma_still_recording(before, is_action, started_at, initial, ticks, i - 1);
    }
    assert(ticks.drop_last() =~= ticks.subrange(0, ticks.len() - 1));
    lemma_still_recording(before, is_action, started_at, initial, ticks, ticks.len() - 1);
}

/// While every tick so far came before the three seconds were over, the
/// recording is still under way and no baseline has changed.
proof fn lemma_still_recording<A>(
    before: Calibrator<A>,
    is_action: bool,
    started_at: Seconds,
    initial: A,
    ticks: Seq<CalibrationTick<A>>,
    upto: int,
)
    requires
        0 <= upto <= ticks.len(),
        forall|i: int|
            0 <= i < upto ==> elapsed_micros(started_at, (#[trigger] ticks[i]).now)
                < CALIBRATION_MICROS,
    ensures
        ({
            let sofar = before.after_start(is_action, started_at, initial).after_ticks(
                ticks.subrange(0, upto),
            );
            &&& sofar.rest == before.rest
            &&& sofar.action == before.action
            &&& sofar.phase matches CalibrationPhase::Armed {
                is_action: armed_for,
                started_at: since,
                ..
            }
            &&& armed_for == is_action
            &&& since == started_at
        }),
    decreases upto,
{
    if upto > 0 {
        lemma_still_recording(before, is_action, started_at, initial, ticks, upto - 1);
        let sofar = ticks.subrange(0, upto);
        assert(sofar.drop_last() =~= ticks.subrange(0, upto - 1));
        assert(sofar.last() == ticks[upto - 1]);
    }
}

} // verus!
