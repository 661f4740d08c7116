//! The mapping helper: it drives the gamepad by itself, one control at a
//! time, while a game's input bindings are set up.

use crate::engine::calibration::elapsed_micros;
use crate::types::{GamepadState, MappingHelperCommand, SimInputIntent, AXIS_FULL_SCALE};
use crate::units::Seconds;
use vstd::prelude::*;

verus! {

/// How long a pulse lasts, in microseconds.
pub const PULSE_MICROS: u64 = 600_000;

/// How long the cycle stays on one control, in microseconds.
pub const CYCLE_STEP_MICROS: u64 = 650_000;

/// The number of controls that the cycle goes through.
pub const CYCLE_STEPS: u8 = 8;

/// The mapping helper: what it was told to do, and how far it has come.
#[derive(Clone, Copy, Debug, PartialEq, Eq, Structural)]
pub struct MappingHelper {
    /// What the helper was told to do.
    pub command: MappingHelperCommand,
    /// Until when a pulse lasts, on the engine's clock.
    pub until: Seconds,
    /// The control that the cycle is on, counted from zero.
    pub step: u8,
    /// When the cycle last moved on.
    pub last_step: Seconds,
}

/// The gamepad with only the control of cycle step `step` driven: A, B, X,
/// Y, then the left stick up, down, left and right.
pub open spec fn cycle_gamepad(step: u8) -> GamepadState {
    let rest = GamepadState::neutral();
    if step == 0 {
        GamepadState { a: true, ..rest }
    } else if step == 1 {
        GamepadState { b: true, ..rest }
    } else if step == 2 {
        GamepadState { x: true, ..rest }
    } else if step == 3 {
        GamepadState { y: true, ..rest }
    } else if step == 4 {
        GamepadState { ly: AXIS_FULL_SCALE, ..rest }
    } else if step == 5 {
        GamepadState { ly: (-AXIS_FULL_SCALE) as i32, ..rest }
    } else if step == 6 {
        GamepadState { lx: (-AXIS_FULL_SCALE) as i32, ..rest }
    } else {
        GamepadState { lx: AXIS_FULL_SCALE, ..rest }
    }
}

/// The simulated keys with only the key of cycle step `step` down: space, Z,
/// X, C, then W, S, A and D.
pub open spec fn cycle_keys(step: u8) -> SimInputIntent {
    let none = SimInputIntent::released();
    if step == 0 {
        SimInputIntent { space: true, ..none }
    } else if step == 1 {
        SimInputIntent { key_z: true, ..none }
    } else if step == 2 {
        SimInputIntent { key_x: true, ..none }
    } else if step == 3 {
        SimInputIntent { key_c: true, ..none }
    } else if step == 4 {
        SimInputIntent { w: true, ..none }
    } else if step == 5 {
        SimInputIntent { s: true, ..none }
    } else if step == 6 {
        SimInputIntent { a: true, ..none }
    } else {
        SimInputIntent { d: true, ..none }
    }
}

/// The gamepad with only the control of the pulse `command` driven; at rest
/// for a command that is no pulse.
pub open spec fn pulse_gamepad(command: MappingHelperCommand) -> GamepadState {
    let rest = GamepadState::neutral();
    match command {
        MappingHelperCommand::PulseA => GamepadState { a: true, ..rest },
        MappingHelperCommand::PulseB => GamepadState { b: true, ..rest },
        MappingHelperCommand::PulseX => GamepadState { x: true, ..rest },
        MappingHelperCommand::PulseY => GamepadState { y: true, ..rest },
        MappingHelperCommand::PulseDpadUp => GamepadState { dpad_up: true, ..rest },
        MappingHelperCommand::PulseDpadDown => GamepadState { dpad_down: true, ..rest },
        MappingHelperCommand::PulseDpadLeft => GamepadState { dpad_left: true, ..rest },
        MappingHelperCommand::PulseDpadRight => GamepadState { dpad_right: true, ..rest },
        MappingHelperCommand::PulseLeftStickUp => GamepadState { ly: AXIS_FULL_SCALE, ..rest },
        MappingHelperCommand::PulseLeftStickDown => GamepadState {
            ly: (-AXIS_FULL_SCALE) as i32,
            ..rest
        },
        MappingHelperCommand::PulseLeftStickLeft => GamepadState {
            lx: (-AXIS_FULL_SCALE) as i32,
            ..rest
        },
        MappingHelperCommand::PulseLeftStickRight => GamepadState { lx: AXIS_FULL_SCALE, ..rest },
        MappingHelperCommand::AutoCycle => rest,
        MappingHelperCommand::Off => rest,
    }
}

/// The simulated keys with only the key of the pulse `command` down; none
/// down for a pulse of the d-pad, which has no key, and for a command that
/// is no pulse.
pub open spec fn pulse_keys(command: MappingHelperCommand) -> SimInputIntent {
    let none = SimInputIntent::released();
    match command {
        MappingHelperCommand::PulseA => SimInputIntent { space: true, ..none },
        MappingHelperCommand::PulseB => SimInputIntent { key_z: true, ..none },
        MappingHelperCommand::PulseX => SimInputIntent { key_x: true, ..none },
        MappingHelperCommand::PulseY => SimInputIntent { key_c: true, ..none },
        MappingHelperCommand::PulseLeftStickUp => SimInputIntent { w: true, ..none },
        MappingHelperCommand::PulseLeftStickDown => SimInputIntent { s: true, ..none },
        MappingHelperCommand::PulseLeftStickLeft => SimInputIntent { a: true, ..none },
        MappingHelperCommand::PulseLeftStickRight => SimInputIntent { d: true, ..none },
        _ => none,
    }
}

impl MappingHelper {
    /// The helper switched off.
    pub open spec fn off() -> MappingHelper {
        MappingHelper {
            command: MappingHelperCommand::Off,
            until: Seconds { micros: 0 },
            step: 0,
            last_step: Seconds { micros: 0 },
        }
    }

    /// The helper after it was told `command` at `now`: a pulse lasts from
    /// now, the cycle starts over.
    pub open spec fn told(command: MappingHelperCommand, now: Seconds) -> MappingHelper {
        MappingHelper {
            command,
            until: Seconds {
                micros: if now.micros + PULSE_MICROS <= u64::MAX {
                    (now.micros + PULSE_MICROS) as u64
                } else {
                    u64::MAX
                },
            },
            step: 0,
            last_step: now,
        }
    }

    /// Whether the cycle moves on at `now`: it runs and has stayed on its
    /// control for the time of a step.
    pub open spec fn cycle_due(self, now: Seconds) -> bool {
        self.command == MappingHelperCommand::AutoCycle && elapsed_micros(self.last_step, now)
            >= CYCLE_STEP_MICROS
    }

    /// The helper after a tick at `now`: the cycle moves to the next control
    /// where it is due, and starts over after the last.
    pub open spec fn after_tick(self, now: Seconds) -> MappingHelper {
        if self.cycle_due(now) {
            MappingHelper {
                step: if self.step + 1 < CYCLE_STEPS {
                    (self.step + 1) as u8
                } else {
                    0
                },
                last_step: now,
                ..self
            }
        } else {
            self
        }
    }

    /// Whether a pulse is being given at `now`.
    pub open spec fn pulsing(self, now: Seconds) -> bool {
        self.command != MappingHelperCommand::Off && self.command
            != MappingHelperCommand::AutoCycle && now.micros <= self.until.micros
    }

    /// What the helper drives the gamepad with at `now`; `None` while it is
    /// switched off. The cycle drives its control; a pulse drives its control
    /// while it lasts and leaves the gamepad at rest after.
    #[verifier::opaque]
    pub open spec fn driven(self, now: Seconds) -> Option<GamepadState> {
        if self.command == MappingHelperCommand::Off {
            None
        } else if self.command == MappingHelperCommand::AutoCycle {
            Some(cycle_gamepad(self.step))
        } else if self.pulsing(now) {
            Some(pulse_gamepad(self.command))
        } else {
            Some(GamepadState::neutral())
        }
    }

    /// The keys that the simulation is fed at `now` when `held` are the keys
    /// held down: the key of the cycle's control while the cycle runs, the
    /// key of a pulse while it lasts, else `held`.
    pub open spec fn keys(self, now: Seconds, held: SimInputIntent) -> SimInputIntent {
        if self.command == MappingHelperCommand::AutoCycle {
            cycle_keys(self.step)
        } else if self.pulsing(now) {
            pulse_keys(self.command)
        } else {
            held
        }
    }

    /// The helper switched off.
    pub fn new() -> (helper: Self)
        ensures
            helper == MappingHelper::off(),
    {
        MappingHelper {
            command: MappingHelperCommand::Off,
            until: Seconds { micros: 0 },
            step: 0,
            last_step: Seconds { micros: 0 },
        }
    }

    /// Tells the helper `command` at `now`.
    pub fn tell(&mut self, command: MappingHelperCommand, now: Seconds)
        ensures
            *final(self) == MappingHelper::told(command, now),
    {
        let until: u64 = if now.micros <= u64::MAX - PULSE_MICROS {
            now.micros + PULSE_MICROS
        } else {
            u64::MAX
        };
        self.command = command;
        self.until = Seconds { micros: until };
        self.step = 0;
        self.last_step = now;
    }

    /// One tick at `now`: moves the cycle on where it is due.
    pub fn tick(&mut self, now: Seconds)
        ensures
            *final(self) == old(self).after_tick(now),
    {
        let since: u64 = if now.micros >= self.last_step.micros {
            now.micros - self.last_step.micros
        } else {
            0
        };
        if matches!(self.command, MappingHelperCommand::AutoCycle) && since >= CYCLE_STEP_MICROS {
            self.step = if self.step < CYCLE_STEPS - 1 {
                self.step + 1
            } else {
                0
            };
            self.last_step = now;
        }
    }

    /// What the helper drives the gamepad with at `now`; `None` while it is
    /// switched off.
    pub fn gamepad(&self, now: Seconds) -> (state: Option<GamepadState>)
        ensures
            state == self.driven(now),
    {
        proof {
            reveal(MappingHelper::driven);
        }
        let mut state = GamepadState::default();
        match self.command {
            MappingHelperCommand::Off => {
                return None;
            },
            MappingHelperCommand::AutoCycle => {
                if self.step == 0 {
                    state.a = true;
                } else if self.step == 1 {
                    state.b = true;
                } else if self.step == 2 {
                    state.x = true;
                } else if self.step == 3 {
                    state.y = true;
                } else if self.step == 4 {
                    state.ly = AXIS_FULL_SCALE;
                } else if self.step == 5 {
                    state.ly = -AXIS_FULL_SCALE;
                } else if self.step == 6 {
                    state.lx = -AXIS_FULL_SCALE;
                } else {
                    state.lx = AXIS_FULL_SCALE;
                }
            },
            pulse => {
                if now.micros <= self.until.micros {
                    match pulse {
                        MappingHelperCommand::PulseA => {
                            state.a = true;
                        },
                        MappingHelperCommand::PulseB => {
                            state.b = true;
                        },
                        MappingHelperCommand::PulseX => {
                            state.x = true;
                        },
                        MappingHelperCommand::PulseY => {
                            state.y = true;
                        },
                        MappingHelperCommand::PulseDpadUp => {
                            state.dpad_up = true;
                        },
                        MappingHelperCommand::PulseDpadDown => {
                            state.dpad_down = true;
                        },
                        MappingHelperCommand::PulseDpadLeft => {
                            state.dpad_left = true;
                        },
                        MappingHelperCommand::PulseDpadRight => {
                            state.dpad_right = true;
                        },
                        MappingHelperCommand::PulseLeftStickUp => {
                            state.ly = AXIS_FULL_SCALE;
                        },
                        MappingHelperCommand::PulseLeftStickDown => {
                            state.ly = -AXIS_FULL_SCALE;
                        },
                        MappingHelperCommand::PulseLeftStickLeft => {
                            state.lx = -AXIS_FULL_SCALE;
                        },
                        MappingHelperCommand::PulseLeftStickRight => {
                            state.lx = AXIS_FULL_SCALE;
                        },
                        _ => {},
                    }
                }
            },
        }
        Some(state)
    }

    /// The keys that the simulation is fed at `now` when `held` are the keys
    /// held down.
    pub fn simulated_keys(&self, now: Seconds, held: SimInputIntent) -> (keys: SimInputIntent)
        ensures
            keys == self.keys(now, held),
    {
        let mut keys = SimInputIntent::default();
        match self.command {
            MappingHelperCommand::Off => {
                return held;
            },
            MappingHelperCommand::AutoCycle => {
                if self.step == 0 {
                    keys.space = true;
                } else if self.step == 1 {
                    keys.key_z = true;
                } else if self.step == 2 {
                    keys.key_x = true;
                } else if self.step == 3 {
                    keys.key_c = true;
                } else if self.step == 4 {
                    keys.w = true;
                } else if self.step == 5 {
                    keys.s = true;
                } else if self.step == 6 {
                    keys.a = true;
                } else {
                    keys.d = true;
                }
            },
            pulse => {
                if now.micros > self.until.micros {
                    return held;
                }
                match pulse {
                    MappingHelperCommand::PulseA => {
                        keys.space = true;
                    },
                    MappingHelperCommand::PulseB => {
                        keys.key_z = true;
                    },
                    MappingHelperCommand::PulseX => {
                        keys.key_x = true;
                    },
                    MappingHelperCommand::PulseY => {
                        keys.key_c = true;
                    },
                    MappingHelperCommand::PulseLeftStickUp => {
                        keys.w = true;
                    },
                    MappingHelperCommand::PulseLeftStickDown => {
                        keys.s = true;
                    },
                    MappingHelperCommand::PulseLeftStickLeft => {
                        keys.a = true;
                    },
                    MappingHelperCommand::PulseLeftStickRight => {
                        keys.d = true;
                    },
                    _ => {},
                }
            },
        }
        keys
    }
}

} // verus!
