//! The values that pass between the engine and what surrounds it.

use crate::drivers::buffer::TimeSeriesFrame;
use crate::drivers::fft::FrequencySpectrum;
use vstd::prelude::*;

verus! {

/// Where samples come from.
#[derive(PartialEq, Eq, Clone, Copy, Debug, Structural)]
pub enum ConnectionMode {
    /// Samples made up from the simulated keys.
    Simulation,
    /// Samples read from the amplifier.
    Hardware,
}

/// The deflection that stands for an axis pushed all the way: an axis value
/// `v` in `[-1, 1]` is held as `v` times this many steps.
pub const AXIS_FULL_SCALE: i32 = 16000;

/// The state of the virtual gamepad: four axes, each from `-AXIS_FULL_SCALE`
/// to `AXIS_FULL_SCALE` steps, and the buttons.
#[derive(Clone, Copy, Debug, PartialEq, Eq, Structural)]
pub struct GamepadState {
    pub lx: i32,
    pub ly: i32,
    pub rx: i32,
    pub ry: i32,
    pub a: bool,
    pub b: bool,
    pub x: bool,
    pub y: bool,
    pub lb: bool,
    pub rb: bool,
    pub lt: bool,
    pub rt: bool,
    pub dpad_up: bool,
    pub dpad_down: bool,
    pub dpad_left: bool,
    pub dpad_right: bool,
}

impl GamepadState {
    /// The gamepad at rest: every axis centred, no button down.
    pub open spec fn neutral() -> GamepadState {
        GamepadState {
            lx: 0,
            ly: 0,
            rx: 0,
            ry: 0,
            a: false,
            b: false,
            x: false,
            y: false,
            lb: false,
            rb: false,
            lt: false,
            rt: false,
            dpad_up: false,
            dpad_down: false,
            dpad_left: false,
            dpad_right: false,
        }
    }

    /// Whether every axis lies within full scale.
    pub open spec fn axes_in_range(self) -> bool {
        &&& -AXIS_FULL_SCALE <= self.lx <= AXIS_FULL_SCALE
        &&& -AXIS_FULL_SCALE <= self.ly <= AXIS_FULL_SCALE
        &&& -AXIS_FULL_SCALE <= self.rx <= AXIS_FULL_SCALE
        &&& -AXIS_FULL_SCALE <= self.ry <= AXIS_FULL_SCALE
    }
}

impl Default for GamepadState {
    /// The gamepad at rest.
    fn default() -> (state: Self)
        ensures
            state == GamepadState::neutral(),
    {
        GamepadState {
            lx: 0,
            ly: 0,
            rx: 0,
            ry: 0,
            a: false,
            b: false,
            x: false,
            y: false,
            lb: false,
            rb: false,
            lt: false,
            rt: false,
            dpad_up: false,
            dpad_down: false,
            dpad_left: false,
            dpad_right: false,
        }
    }
}

/// The keys of the simulated input, each down or up.
#[derive(Clone, Copy, Debug, PartialEq, Eq, Structural)]
pub struct SimInputIntent {
    pub w: bool,
    pub a: bool,
    pub s: bool,
    pub d: bool,
    pub up: bool,
    pub down: bool,
    pub left: bool,
    pub right: bool,
    pub space: bool,
    pub key_z: bool,
    pub key_x: bool,
    pub key_c: bool,
    pub key_1: bool,
    pub key_2: bool,
    pub q: bool,
    pub e: bool,
    pub u: bool,
    pub o: bool,
    pub arrow_up: bool,
    pub arrow_down: bool,
    pub arrow_left: bool,
    pub arrow_right: bool,
}

impl SimInputIntent {
    /// No key down.
    pub open spec fn released() -> SimInputIntent {
        SimInputIntent {
            w: false,
            a: false,
            s: false,
            d: false,
            up: false,
            down: false,
            left: false,
            right: false,
            space: false,
            key_z: false,
            key_x: false,
            key_c: false,
            key_1: false,
            key_2: false,
            q: false,
            e: false,
            u: false,
            o: false,
            arrow_up: false,
            arrow_down: false,
            arrow_left: false,
            arrow_right: false,
        }
    }
}

impl Default for SimInputIntent {
    /// No key down.
    fn default() -> (keys: Self)
        ensures
            keys == SimInputIntent::released(),
    {
        SimInputIntent {
            w: false,
            a: false,
            s: false,
            d: false,
            up: false,
            down: false,
            left: false,
            right: false,
            space: false,
            key_z: false,
            key_x: false,
            key_c: false,
            key_1: false,
            key_2: false,
            q: false,
            e: false,
            u: false,
            o: false,
            arrow_up: false,
            arrow_down: false,
            arrow_left: false,
            arrow_right: false,
        }
    }
}

/// What the mapping helper drives the gamepad with while a game's input
/// bindings are set up.
#[derive(Clone, Copy, Debug, PartialEq, Eq, Structural)]
pub enum MappingHelperCommand {
    Off,
    AutoCycle,
    PulseA,
    PulseB,
    PulseX,
    PulseY,
    PulseDpadUp,
    PulseDpadDown,
    PulseDpadLeft,
    PulseDpadRight,
    PulseLeftStickUp,
    PulseLeftStickDown,
    PulseLeftStickLeft,
    PulseLeftStickRight,
}

/// A command to the engine. `A` is the type of an amplitude: the engine
/// keeps a threshold of that type and never computes with it.
#[derive(Clone, Debug)]
pub enum GuiCommand<A> {
    /// Connect in the given mode, to the named port.
    Connect(ConnectionMode, String),
    Disconnect,
    StartStream,
    StopStream,
    SetThreshold(A),
    /// Record a baseline: of the action where `true`, of rest where `false`.
    StartCalibration(bool),
    UpdateSimInput(SimInputIntent),
    /// Record samples under the given label.
    StartRecording(String),
    StopRecording,
    InjectArtifact,
    SetMappingHelper(MappingHelperCommand),
}

/// A message from the engine. `T` is the type of a sample, `A` that of an
/// amplitude.
#[derive(Clone, Debug)]
pub enum BciMessage<T, A> {
    Log(String),
    Status(bool),
    VJoyStatus(bool),
    DataFrame(TimeSeriesFrame<T>),
    Spectrum(FrequencySpectrum<T>),
    GamepadUpdate(GamepadState),
    RecordingStatus(bool),
    /// The baseline that a calibration ended with.
    CalibrationResult(A),
    ModelPrediction(Vec<T>),
}

} // verus!
