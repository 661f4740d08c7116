//! The state of the engine as one value. Commands are applied to it one at
//! a time, between ticks; each says what changes and what is to be done.

use crate::engine::calibration::{elapsed_micros, CalibrationResult, Calibrator};
use crate::engine::decoder::{decoded_state, process_neural_intent};
use crate::engine::mapping::MappingHelper;
use crate::types::{ConnectionMode, GamepadState, GuiCommand, SimInputIntent};
use crate::units::Seconds;
use vstd::prelude::*;

verus! {

/// The rate that the engine assumes until an amplifier reports its own.
pub const DEFAULT_SAMPLE_RATE_HZ: u32 = 250;

/// The time between two reports of the gamepad state, in microseconds.
pub const GAMEPAD_REPORT_MICROS: u64 = 30_000;

/// Something for the log.
#[derive(Clone, Copy, Debug, PartialEq, Eq, Structural)]
pub enum EngineNotice {
    /// The simulation is connected.
    SimulationReady,
    /// The amplifier is connected and samples at the given rate.
    HardwareReady(u32),
    /// The amplifier could not be connected.
    ConnectFailed,
    StreamStarted,
    StreamStopped,
}

/// Something that a command asks to be done outside the engine.
#[derive(Clone, Debug)]
pub enum EngineEffect {
    /// Open a session with the amplifier on the named port, then tell the
    /// engine how it went.
    OpenSession(String),
    /// Let the session go, if there is one.
    CloseSession,
    /// Start the session's stream, if there is a session.
    StartSessionStream,
    /// Stop the session's stream, if there is a session.
    StopSessionStream,
    /// Make the filters anew for the given rate.
    ResetFilters(u32),
    /// Report whether the engine is connected.
    ReportStatus(bool),
    /// Report whether samples are being recorded.
    ReportRecording(bool),
    /// Start recording under the given label.
    StartRecorder(String),
    /// Stop recording.
    StopRecorder,
    /// Write to the log.
    Notice(EngineNotice),
}

/// Where the next frame of samples comes from.
#[derive(Clone, Copy, Debug, PartialEq, Eq, Structural)]
pub enum Acquisition {
    /// Nowhere: the engine is not streaming.
    Idle,
    /// From the simulated keys.
    Simulate,
    /// From the amplifier.
    ReadHardware,
}

/// What the engine made of one frame.
#[derive(Clone, Copy, Debug)]
pub struct FrameOutcome<A> {
    /// The gamepad state that the frame stands for.
    pub gamepad: GamepadState,
    /// Whether the gamepad state is to be reported.
    pub report_gamepad: bool,
    /// The baseline, where the frame ended a calibration.
    pub calibration: Option<CalibrationResult<A>>,
    /// Both baselines, rest first, where the frame ended a calibration and
    /// both are then known: the threshold was set anew from them.
    pub rethreshold: Option<(A, A)>,
}

/// The state of the engine. `A` is the type of an amplitude.
pub struct Engine<A> {
    /// Where samples come from.
    pub mode: ConnectionMode,
    /// Whether the engine is connected.
    pub is_active: bool,
    /// Whether the engine is streaming.
    pub is_streaming: bool,
    /// Samples per second on each channel.
    pub sample_rate_hz: u32,
    /// The amplitude above which a channel counts as active.
    pub threshold: A,
    /// What a calibration starts to gather from.
    pub calibration_reset: A,
    /// The keys held down in the simulation.
    pub sim_input: SimInputIntent,
    /// The mapping helper.
    pub mapping_helper: MappingHelper,
    /// The calibration and its baselines.
    pub calibrator: Calibrator<A>,
    /// When the gamepad state was last reported.
    pub last_gamepad_report: Seconds,
}

impl<A> Engine<A> {
    /// The engine as it starts: in simulation mode, not connected, at the
    /// default rate.
    pub open spec fn initial(threshold: A, calibration_reset: A) -> Engine<A> {
        Engine {
            mode: ConnectionMode::Simulation,
            is_active: false,
            is_streaming: false,
            sample_rate_hz: DEFAULT_SAMPLE_RATE_HZ,
            threshold,
            calibration_reset,
            sim_input: SimInputIntent::released(),
            mapping_helper: MappingHelper::off(),
            calibrator: Calibrator::fresh(),
            last_gamepad_report: Seconds { micros: 0 },
        }
    }

    /// The engine after `command` was applied at `now`.
    pub open spec fn after_command(self, command: GuiCommand<A>, now: Seconds) -> Engine<A> {
        match command {
            GuiCommand::Connect(mode, _) => match mode {
                ConnectionMode::Simulation => Engine { mode, is_active: true, ..self },
                ConnectionMode::Hardware => Engine { mode, ..self },
            },
            GuiCommand::Disconnect => Engine {
                is_active: false,
                is_streaming: false,
                calibrator: self.calibrator.after_cancel(),
                ..self
            },
            GuiCommand::StartStream => if self.is_active {
                Engine { is_streaming: true, ..self }
            } else {
                self
            },
            GuiCommand::StopStream => Engine { is_streaming: false, ..self },
            GuiCommand::SetThreshold(threshold) => Engine { threshold, ..self },
            GuiCommand::StartCalibration(is_action) => Engine {
                calibrator: self.calibrator.after_start(is_action, now, self.calibration_reset),
                ..self
            },
            GuiCommand::UpdateSimInput(sim_input) => Engine { sim_input, ..self },
            GuiCommand::SetMappingHelper(told) => Engine {
                mapping_helper: MappingHelper::told(told, now),
                ..self
            },
            GuiCommand::StartRecording(_) => self,
            GuiCommand::StopRecording => self,
            GuiCommand::InjectArtifact => self,
        }
    }

    /// What `command` asks to be done outside the engine, in order.
    pub open spec fn effects_of(self, command: GuiCommand<A>) -> Seq<EngineEffect> {
        match command {
            GuiCommand::Connect(mode, port) => match mode {
                ConnectionMode::Simulation => seq![
                    EngineEffect::ReportStatus(true),
                    EngineEffect::Notice(EngineNotice::SimulationReady),
                ],
                ConnectionMode::Hardware => seq![EngineEffect::OpenSession(port)],
            },
            GuiCommand::Disconnect => seq![
                EngineEffect::CloseSession,
                EngineEffect::ReportStatus(false),
            ],
            GuiCommand::StartStream => if self.is_active {
                seq![
                    EngineEffect::StartSessionStream,
                    EngineEffect::Notice(EngineNotice::StreamStarted),
                ]
            } else {
                Seq::empty()
            },
            GuiCommand::StopStream => seq![
                EngineEffect::StopSessionStream,
                EngineEffect::Notice(EngineNotice::StreamStopped),
            ],
            GuiCommand::StartRecording(label) => seq![
                EngineEffect::StartRecorder(label),
                EngineEffect::ReportRecording(true),
            ],
            GuiCommand::StopRecording => seq![
                EngineEffect::StopRecorder,
                EngineEffect::ReportRecording(false),
            ],
            _ => Seq::empty(),
        }
    }

    /// The engine after the amplifier was connected and reported its rate.
    pub open spec fn after_session_opened(self, sample_rate_hz: u32) -> Engine<A> {
        Engine { sample_rate_hz, is_active: true, ..self }
    }

    /// Where the next frame comes from.
    pub open spec fn acquires(self) -> Acquisition {
        if !self.is_streaming {
            Acquisition::Idle
        } else if self.mode == ConnectionMode::Simulation {
            Acquisition::Simulate
        } else {
            Acquisition::ReadHardware
        }
    }

    /// The engine after a tick of the mapping helper at `now`: the helper has
    /// ticked, and where it drives the gamepad a report that was due was made.
    pub open spec fn after_helper_tick(self, now: Seconds) -> Engine<A> {
        let helper = self.mapping_helper.after_tick(now);
        if helper.driven(now).is_some() {
            Engine { mapping_helper: helper, ..self.after_report(now) }
        } else {
            Engine { mapping_helper: helper, ..self }
        }
    }

    /// What a tick of the mapping helper at `now` hands out: what the helper
    /// then drives the gamepad with, and whether that is to be reported.
    pub open spec fn helper_drives(self, now: Seconds) -> Option<(GamepadState, bool)> {
        match self.mapping_helper.after_tick(now).driven(now) {
            Some(state) => Some((state, self.report_due(now))),
            None => None,
        }
    }

    /// Whether the gamepad state is reported at `now`: more than the time
    /// between two reports has passed since the last.
    pub open spec fn report_due(self, now: Seconds) -> bool {
        elapsed_micros(self.last_gamepad_report, now) > GAMEPAD_REPORT_MICROS
    }

    /// The engine after the gamepad state was offered for a report at `now`.
    pub open spec fn after_report(self, now: Seconds) -> Engine<A> {
        if self.report_due(now) {
            Engine { last_gamepad_report: now, ..self }
        } else {
            self
        }
    }

    /// The engine after a frame at `now` that left `gathered` in the
    /// calibration, but for its threshold: the calibration has ticked, and a
    /// report that was due was made.
    pub open spec fn after_frame(self, now: Seconds, gathered: A) -> Engine<A> {
        Engine { calibrator: self.calibrator.after_tick(now, gathered), ..self.after_report(now) }
    }

    /// What the engine makes of a frame at `now` with the given channels
    /// active, which left `gathered` in the calibration.
    pub open spec fn outcome_of(self, now: Seconds, active: Seq<bool>, gathered: A) -> FrameOutcome<
        A,
    > {
        FrameOutcome {
            gamepad: decoded_state(active),
            report_gamepad: self.report_due(now),
            calibration: self.calibrator.emitted(now, gathered),
            rethreshold: if self.calibrator.completes_at(now) {
                self.calibrator.after_tick(now, gathered).known_baselines()
            } else {
                None
            },
        }
    }
}

impl<A: Copy> Engine<A> {
    /// The engine as it starts, with the given threshold; calibrations start
    /// to gather from `calibration_reset`.
    pub fn new(threshold: A, calibration_reset: A) -> (engine: Self)
        ensures
            engine == Engine::initial(threshold, calibration_reset),
    {
        Engine {
            mode: ConnectionMode::Simulation,
            is_active: false,
            is_streaming: false,
            sample_rate_hz: DEFAULT_SAMPLE_RATE_HZ,
            threshold,
            calibration_reset,
            sim_input: SimInputIntent::default(),
            mapping_helper: MappingHelper::new(),
            calibrator: Calibrator::new(),
            last_gamepad_report: Seconds { micros: 0 },
        }
    }

    /// Applies `command` at `now` and returns what is to be done outside the
    /// engine, in order.
    pub fn apply(&mut self, command: GuiCommand<A>, now: Seconds) -> (effects: Vec<EngineEffect>)
        ensures
            *final(self) == old(self).after_command(command, now),
            effects@ == old(self).effects_of(command),
    {
        let mut effects: Vec<EngineEffect> = Vec::new();
        match command {
            GuiCommand::Connect(mode, port) => {
                self.mode = mode;
                match mode {
                    ConnectionMode::Simulation => {
                        self.is_active = true;
                        effects.push(EngineEffect::ReportStatus(true));
                        effects.push(EngineEffect::Notice(EngineNotice::SimulationReady));
                    },
                    ConnectionMode::Hardware => {
                        effects.push(EngineEffect::OpenSession(port));
                    },
                }
            },
            GuiCommand::Disconnect => {
                self.is_active = false;
                self.is_streaming = false;
                self.calibrator.cancel();
                effects.push(EngineEffect::CloseSession);
                effects.push(EngineEffect::ReportStatus(false));
            },
            GuiCommand::StartStream => {
                if self.is_active {
                    self.is_streaming = true;
                    effects.push(EngineEffect::StartSessionStream);
                    effects.push(EngineEffect::Notice(EngineNotice::StreamStarted));
                }
            },
            GuiCommand::StopStream => {
                self.is_streaming = false;
                effects.push(EngineEffect::StopSessionStream);
                effects.push(EngineEffect::Notice(EngineNotice::StreamStopped));
            },
            GuiCommand::SetThreshold(threshold) => {
                self.threshold = threshold;
            },
            GuiCommand::StartCalibration(is_action) => {
                let reset = self.calibration_reset;
                self.calibrator.start(is_action, now, reset);
            },
            GuiCommand::UpdateSimInput(sim_input) => {
                self.sim_input = sim_input;
            },
            GuiCommand::SetMappingHelper(told) => {
                self.mapping_helper.tell(told, now);
            },
            GuiCommand::StartRecording(label) => {
                effects.push(EngineEffect::StartRecorder(label));
                effects.push(EngineEffect::ReportRecording(true));
            },
            GuiCommand::StopRecording => {
                effects.push(EngineEffect::StopRecorder);
                effects.push(EngineEffect::ReportRecording(false));
            },
            GuiCommand::InjectArtifact => {},
        }
        assert(effects@ =~= old(self).effects_of(command));
        effects
    }

    /// Records that the amplifier was connected and samples at
    /// `sample_rate_hz`; returns what is to be done then.
    pub fn session_opened(&mut self, sample_rate_hz: u32) -> (effects: Vec<EngineEffect>)
        ensures
            *final(self) == old(self).after_session_opened(sample_rate_hz),
            effects@ == seq![
                EngineEffect::ResetFilters(sample_rate_hz),
                EngineEffect::ReportStatus(true),
                EngineEffect::Notice(EngineNotice::HardwareReady(sample_rate_hz)),
            ],
    {
        self.sample_rate_hz = sample_rate_hz;
        self.is_active = true;
        let mut effects: Vec<EngineEffect> = Vec::new();
        effects.push(EngineEffect::ResetFilters(sample_rate_hz));
        effects.push(EngineEffect::ReportStatus(true));
        effects.push(EngineEffect::Notice(EngineNotice::HardwareReady(sample_rate_hz)));
        effects
    }

    /// What is to be done when the amplifier could not be connected: the
    /// engine stays as it is, and the failure goes to the log.
    pub fn session_failed(&self) -> (effects: Vec<EngineEffect>)
        ensures
            effects@ == seq![EngineEffect::Notice(EngineNotice::ConnectFailed)],
    {
        let mut effects: Vec<EngineEffect> = Vec::new();
        effects.push(EngineEffect::Notice(EngineNotice::ConnectFailed));
        effects
    }

    /// Where the next frame comes from.
    pub fn acquisition(&self) -> (source: Acquisition)
        ensures
            source == self.acquires(),
    {
        if !self.is_streaming {
            Acquisition::Idle
        } else {
            match self.mode {
                ConnectionMode::Simulation => Acquisition::Simulate,
                ConnectionMode::Hardware => Acquisition::ReadHardware,
            }
        }
    }

    /// The keys that the simulation is fed at `now`: those of the mapping
    /// helper while it gives any, else the keys held down.
    pub fn simulated_keys(&self, now: Seconds) -> (keys: SimInputIntent)
        ensures
            keys == self.mapping_helper.keys(now, self.sim_input),
    {
        self.mapping_helper.simulated_keys(now, self.sim_input)
    }

    /// One tick of the mapping helper at `now`. Returns what it drives the
    /// gamepad with and whether that is to be reported; `None` while the
    /// helper is switched off.
    pub fn helper_tick(&mut self, now: Seconds) -> (driven: Option<(GamepadState, bool)>)
        ensures
            *final(self) == old(self).after_helper_tick(now),
            driven == old(self).helper_drives(now),
    {
        let mut helper = self.mapping_helper;
        helper.tick(now);
        match helper.gamepad(now) {
            Some(state) => {
                let report = self.offer_report(now);
                self.mapping_helper = helper;
                Some((state, report))
            },
            None => {
                self.mapping_helper = helper;
                None
            },
        }
    }

    /// Takes in one frame at `now`: `active[i]` says whether channel `i` lies
    /// above the threshold, and `gathered` is what the calibration holds once
    /// the frame was taken into account. Decodes the frame, ticks the
    /// calibration and says whether the gamepad state is to be reported.
    /// Where the frame ends a calibration and both baselines are then known,
    /// the threshold becomes what `threshold_from` makes of them, rest first;
    /// otherwise it stays.
    pub fn frame<F: Fn(A, A) -> A>(
        &mut self,
        now: Seconds,
        active: &[bool],
        gathered: A,
        threshold_from: F,
    ) -> (outcome: FrameOutcome<A>)
        requires
            forall|rest: A, action: A| call_requires(threshold_from, (rest, action)),
        ensures
            outcome == old(self).outcome_of(now, active@, gathered),
            outcome.gamepad.axes_in_range(),
            *final(self) == (Engine {
                threshold: final(self).threshold,
                ..old(self).after_frame(now, gathered)
            }),
            match outcome.rethreshold {
                Some((rest, action)) => call_ensures(
                    threshold_from,
                    (rest, action),
                    final(self).threshold,
                ),
                None => final(self).threshold == old(self).threshold,
            },
    {
        let gamepad = process_neural_intent(active);
        let calibration = self.calibrator.tick(now, gathered);
        let rethreshold = match calibration {
            Some(_) => self.calibrator.baselines(),
            None => None,
        };
        let report_gamepad = self.offer_report(now);
        match rethreshold {
            Some((rest, action)) => {
                self.threshold = threshold_from(rest, action);
            },
            None => {},
        }
        FrameOutcome { gamepad, report_gamepad, calibration, rethreshold }
    }

    /// Says whether the gamepad state is to be reported at `now`, and notes
    /// the report where it is.
    fn offer_report(&mut self, now: Seconds) -> (due: bool)
        ensures
            due == old(self).report_due(now),
            *final(self) == old(self).after_report(now),
    {
        let since: u64 = if now.micros >= self.last_gamepad_report.micros {
            now.micros - self.last_gamepad_report.micros
        } else {
            0
        };
        if since > GAMEPAD_REPORT_MICROS {
            self.last_gamepad_report = now;
            true
        } else {
            false
        }
    }
}

/// Commands change nothing but what they name: the threshold changes only
/// by `SetThreshold`, and the baselines change by no command at all.
pub proof fn lemma_commands_keep_baselines<A>(engine: Engine<A>, command: GuiCommand<A>, now: Seconds)
    ensures
        engine.after_command(command, now).calibrator.rest == engine.calibrator.rest,
        engine.after_command(command, now).calibrator.action == engine.calibrator.action,
        !(command is SetThreshold) ==> engine.after_command(command, now).threshold
            == engine.threshold,
        engine.after_command(command, now).sample_rate_hz == engine.sample_rate_hz,
{
}

/// A calibration that a disconnect interrupts is dropped: no baseline
/// changes, and no later frame ends it.
pub proof fn lemma_disconnect_drops_calibration<A>(
    engine: Engine<A>,
    now: Seconds,
    later: Seconds,
    gathered: A,
    active: Seq<bool>,
)
    ensures
        ({
            let cut = engine.after_command(GuiCommand::Disconnect, now);
            &&& cut.calibrator.known_baselines() == engine.calibrator.known_baselines()
            &&& cut.outcome_of(later, active, gathered).calibration.is_none()
            &&& cut.outcome_of(later, active, gathered).rethreshold.is_none()
            &&& cut.after_frame(later, gathered).calibrator == cut.calibrator
            &&& !cut.is_streaming
        }),
{
}

/// Once a frame ends a calibration and both baselines are then known, the
/// frame hands out both for the threshold to be set from: the one just
/// recorded and the one from before.
pub proof fn lemma_rethreshold_after_both_baselines<A>(
    engine: Engine<A>,
    now: Seconds,
    active: Seq<bool>,
    gathered: A,
)
    requires
        engine.calibrator.completes_at(now),
    ensures
        engine.outcome_of(now, active, gathered).calibration.is_some(),
        engine.calibrator.phase matches crate::engine::calibration::CalibrationPhase::Armed {
            is_action,
            ..
        } ==> {
            &&& (is_action && engine.calibrator.rest.is_some()) ==> engine.outcome_of(
                now,
                active,
                gathered,
            ).rethreshold == Some((engine.calibrator.rest.unwrap(), gathered))
            &&& (!is_action && engine.calibrator.action.is_some()) ==> engine.outcome_of(
                now,
                active,
                gathered,
            ).rethreshold == Some((gathered, engine.calibrator.action.unwrap()))
            &&& (is_action && engine.calibrator.rest.is_none()) ==> engine.outcome_of(
                now,
                active,
                gathered,
            ).rethreshold.is_none()
            &&& (!is_action && engine.calibrator.action.is_none()) ==> engine.outcome_of(
                now,
                active,
                gathered,
            ).rethreshold.is_none()
        },
{
}

} // verus!
