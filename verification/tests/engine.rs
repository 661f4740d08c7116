use qnmdsol::engine::machine::{Acquisition, Engine, EngineEffect, EngineNotice};
use qnmdsol::engine::mapping::MappingHelper;
use qnmdsol::types::{
    ConnectionMode, GamepadState, GuiCommand, MappingHelperCommand, SimInputIntent, AXIS_FULL_SCALE,
};
use qnmdsol::units::Seconds;

fn ms(millis: u64) -> Seconds {
    Seconds::from_millis(millis)
}

fn share(rest: f64, action: f64) -> f64 {
    (rest + action) * 0.6
}

fn channels(on: &[usize]) -> Vec<bool> {
    (0..16).map(|i| on.contains(&i)).collect()
}

#[test]
fn the_engine_starts_disconnected() {
    let engine: Engine<f64> = Engine::new(150.0, 0.0);
    assert_eq!(engine.mode, ConnectionMode::Simulation);
    assert!(!engine.is_active && !engine.is_streaming);
    assert_eq!(engine.sample_rate_hz, 250);
    assert_eq!(engine.threshold, 150.0);
    assert_eq!(engine.acquisition(), Acquisition::Idle);
}

#[test]
fn connecting_the_simulation_reports_at_once() {
    let mut engine: Engine<f64> = Engine::new(150.0, 0.0);
    let effects = engine.apply(GuiCommand::Connect(ConnectionMode::Simulation, "COM3".into()), ms(0));
    assert!(engine.is_active);
    assert_eq!(effects.len(), 2);
    assert!(matches!(effects[0], EngineEffect::ReportStatus(true)));
    assert!(matches!(effects[1], EngineEffect::Notice(EngineNotice::SimulationReady)));
}

#[test]
fn connecting_the_amplifier_waits_for_the_session() {
    let mut engine: Engine<f64> = Engine::new(150.0, 0.0);
    let effects = engine.apply(GuiCommand::Connect(ConnectionMode::Hardware, "COM7".into()), ms(0));
    assert_eq!(engine.mode, ConnectionMode::Hardware);
    assert!(!engine.is_active);
    assert_eq!(effects.len(), 1);
    assert!(matches!(&effects[0], EngineEffect::OpenSession(port) if port == "COM7"));
    let failed = engine.session_failed();
    assert!(matches!(failed[..], [EngineEffect::Notice(EngineNotice::ConnectFailed)]));
    assert!(!engine.is_active);
    let opened = engine.session_opened(125);
    assert!(engine.is_active);
    assert_eq!(engine.sample_rate_hz, 125);
    assert!(matches!(
        opened[..],
        [
            EngineEffect::ResetFilters(125),
            EngineEffect::ReportStatus(true),
            EngineEffect::Notice(EngineNotice::HardwareReady(125))
        ]
    ));
}

#[test]
fn streaming_needs_a_connection() {
    let mut engine: Engine<f64> = Engine::new(150.0, 0.0);
    assert!(engine.apply(GuiCommand::StartStream, ms(0)).is_empty());
    assert!(!engine.is_streaming);
    engine.apply(GuiCommand::Connect(ConnectionMode::Simulation, String::new()), ms(0));
    let started = engine.apply(GuiCommand::StartStream, ms(1));
    assert!(engine.is_streaming);
    assert!(matches!(
        started[..],
        [EngineEffect::StartSessionStream, EngineEffect::Notice(EngineNotice::StreamStarted)]
    ));
    assert_eq!(engine.acquisition(), Acquisition::Simulate);
    let stopped = engine.apply(GuiCommand::StopStream, ms(2));
    assert!(!engine.is_streaming);
    assert!(matches!(
        stopped[..],
        [EngineEffect::StopSessionStream, EngineEffect::Notice(EngineNotice::StreamStopped)]
    ));
}

#[test]
fn hardware_streams_are_read_from_the_amplifier() {
    let mut engine: Engine<f64> = Engine::new(150.0, 0.0);
    engine.apply(GuiCommand::Connect(ConnectionMode::Hardware, "COM7".into()), ms(0));
    engine.session_opened(250);
    engine.apply(GuiCommand::StartStream, ms(1));
    assert_eq!(engine.acquisition(), Acquisition::ReadHardware);
}

#[test]
fn disconnecting_stops_everything() {
    let mut engine: Engine<f64> = Engine::new(150.0, 0.0);
    engine.apply(GuiCommand::Connect(ConnectionMode::Simulation, String::new()), ms(0));
    engine.apply(GuiCommand::StartStream, ms(0));
    engine.apply(GuiCommand::StartCalibration(false), ms(0));
    let effects = engine.apply(GuiCommand::Disconnect, ms(1000));
    assert!(!engine.is_active && !engine.is_streaming);
    assert!(!engine.calibrator.is_armed());
    assert!(matches!(effects[..], [EngineEffect::CloseSession, EngineEffect::ReportStatus(false)]));
    let outcome = engine.frame(ms(5000), &channels(&[]), 9.0, share);
    assert!(outcome.calibration.is_none());
    assert_eq!(engine.calibrator.rest, None);
}

#[test]
fn commands_set_what_they_name() {
    let mut engine: Engine<f64> = Engine::new(150.0, 0.0);
    assert!(engine.apply(GuiCommand::SetThreshold(99.5), ms(0)).is_empty());
    assert_eq!(engine.threshold, 99.5);
    let keys = SimInputIntent { w: true, ..SimInputIntent::default() };
    engine.apply(GuiCommand::UpdateSimInput(keys), ms(0));
    assert_eq!(engine.sim_input, keys);
    assert_eq!(engine.simulated_keys(ms(0)), keys);
    assert!(engine.apply(GuiCommand::InjectArtifact, ms(0)).is_empty());
}

#[test]
fn recording_is_done_outside() {
    let mut engine: Engine<f64> = Engine::new(150.0, 0.0);
    let started = engine.apply(GuiCommand::StartRecording("Attack".into()), ms(0));
    assert!(matches!(
        &started[..],
        [EngineEffect::StartRecorder(label), EngineEffect::ReportRecording(true)] if label == "Attack"
    ));
    let stopped = engine.apply(GuiCommand::StopRecording, ms(0));
    assert!(matches!(stopped[..], [EngineEffect::StopRecorder, EngineEffect::ReportRecording(false)]));
}

#[test]
fn a_frame_is_decoded_and_reported_every_thirty_milliseconds() {
    let mut engine: Engine<f64> = Engine::new(150.0, 0.0);
    let first = engine.frame(ms(31), &channels(&[0, 4, 8]), 0.0, share);
    assert_eq!(first.gamepad, GamepadState { ly: AXIS_FULL_SCALE, ..GamepadState::default() });
    assert!(first.report_gamepad);
    assert!(first.calibration.is_none() && first.rethreshold.is_none());
    assert!(!engine.frame(ms(61), &channels(&[]), 0.0, share).report_gamepad);
    assert!(engine.frame(ms(62), &channels(&[]), 0.0, share).report_gamepad);
    assert!(!engine.frame(ms(10), &channels(&[]), 0.0, share).report_gamepad);
}

#[test]
fn calibration_through_the_engine_yields_both_baselines() {
    let mut engine: Engine<f64> = Engine::new(150.0, 0.0);
    engine.apply(GuiCommand::StartCalibration(false), ms(1_000));
    assert_eq!(engine.calibrator.accumulator(), Some(0.0));
    assert!(engine.frame(ms(2_000), &channels(&[]), 30.0, share).calibration.is_none());
    let rest = engine.frame(ms(4_000), &channels(&[]), 40.0, share);
    assert_eq!(rest.calibration.unwrap().baseline, 40.0);
    assert!(!rest.calibration.unwrap().is_action);
    assert_eq!(rest.rethreshold, None);
    assert_eq!(engine.threshold, 150.0);
    engine.apply(GuiCommand::StartCalibration(true), ms(5_000));
    let action = engine.frame(ms(8_000), &channels(&[]), 460.0, share);
    assert_eq!(action.calibration.unwrap().baseline, 460.0);
    assert_eq!(action.rethreshold, Some((40.0, 460.0)));
    assert_eq!(engine.threshold, 300.0);
    assert!(engine.frame(ms(9_000), &channels(&[]), 1.0, share).rethreshold.is_none());
    assert_eq!(engine.threshold, 300.0);
}

#[test]
fn the_helper_is_off_until_told() {
    let mut engine: Engine<f64> = Engine::new(150.0, 0.0);
    assert_eq!(engine.helper_tick(ms(100)), None);
    let helper = MappingHelper::new();
    assert_eq!(helper.gamepad(ms(0)), None);
    let held = SimInputIntent { d: true, ..SimInputIntent::default() };
    assert_eq!(helper.simulated_keys(ms(0), held), held);
}

#[test]
fn a_pulse_lasts_six_hundred_milliseconds() {
    let mut helper = MappingHelper::new();
    helper.tell(MappingHelperCommand::PulseDpadLeft, ms(1_000));
    let pressed = GamepadState { dpad_left: true, ..GamepadState::default() };
    assert_eq!(helper.gamepad(ms(1_000)), Some(pressed));
    assert_eq!(helper.gamepad(ms(1_600)), Some(pressed));
    assert_eq!(helper.gamepad(ms(1_601)), Some(GamepadState::default()));
    let held = SimInputIntent { w: true, ..SimInputIntent::default() };
    assert_eq!(helper.simulated_keys(ms(1_200), held), SimInputIntent::default());
    assert_eq!(helper.simulated_keys(ms(1_601), held), held);
    helper.tell(MappingHelperCommand::PulseLeftStickDown, ms(2_000));
    assert_eq!(
        helper.gamepad(ms(2_100)),
        Some(GamepadState { ly: -AXIS_FULL_SCALE, ..GamepadState::default() })
    );
    assert_eq!(
        helper.simulated_keys(ms(2_100), held),
        SimInputIntent { s: true, ..SimInputIntent::default() }
    );
}

#[test]
fn the_cycle_moves_on_every_six_hundred_and_fifty_milliseconds() {
    let mut helper = MappingHelper::new();
    helper.tell(MappingHelperCommand::AutoCycle, ms(0));
    let rest = GamepadState::default();
    let expected = [
        GamepadState { a: true, ..rest },
        GamepadState { b: true, ..rest },
        GamepadState { x: true, ..rest },
        GamepadState { y: true, ..rest },
        GamepadState { ly: AXIS_FULL_SCALE, ..rest },
        GamepadState { ly: -AXIS_FULL_SCALE, ..rest },
        GamepadState { lx: -AXIS_FULL_SCALE, ..rest },
        GamepadState { lx: AXIS_FULL_SCALE, ..rest },
        GamepadState { a: true, ..rest },
    ];
    for (step, state) in expected.iter().enumerate() {
        let now = ms(650 * step as u64);
        helper.tick(now);
        assert_eq!(helper.gamepad(now), Some(*state));
        helper.tick(ms(650 * step as u64 + 649));
        assert_eq!(helper.gamepad(now), Some(*state));
    }
}

#[test]
fn the_cycle_feeds_the_simulation_its_key() {
    let mut engine: Engine<f64> = Engine::new(150.0, 0.0);
    engine.apply(GuiCommand::SetMappingHelper(MappingHelperCommand::AutoCycle), ms(0));
    assert_eq!(
        engine.simulated_keys(ms(0)),
        SimInputIntent { space: true, ..SimInputIntent::default() }
    );
    let (state, report) = engine.helper_tick(ms(700)).unwrap();
    assert_eq!(state, GamepadState { b: true, ..GamepadState::default() });
    assert!(report);
    assert_eq!(
        engine.simulated_keys(ms(700)),
        SimInputIntent { key_z: true, ..SimInputIntent::default() }
    );
    let (_, again) = engine.helper_tick(ms(710)).unwrap();
    assert!(!again);
    engine.apply(GuiCommand::SetMappingHelper(MappingHelperCommand::Off), ms(800));
    assert_eq!(engine.helper_tick(ms(900)), None);
}
