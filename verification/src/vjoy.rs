//! What the virtual joystick is told: for a gamepad state, the buttons to
//! set and the axis values to write.

use crate::types::{GamepadState, AXIS_FULL_SCALE};
use vstd::prelude::*;

verus! {

/// The axis value of a centred axis.
pub const AXIS_CENTER: i32 = 16384;

/// The identifier of the X axis.
pub const AXIS_X: u32 = 0x30;

/// The identifier of the Y axis.
pub const AXIS_Y: u32 = 0x31;

pub const BUTTON_A: u8 = 1;

pub const BUTTON_B: u8 = 2;

pub const BUTTON_X: u8 = 3;

pub const BUTTON_Y: u8 = 4;

pub const BUTTON_DPAD_UP: u8 = 9;

pub const BUTTON_DPAD_DOWN: u8 = 10;

pub const BUTTON_DPAD_LEFT: u8 = 11;

pub const BUTTON_DPAD_RIGHT: u8 = 12;

/// One thing to tell the joystick.
#[derive(Clone, Copy, Debug, PartialEq, Eq, Structural)]
pub enum SinkCommand {
    /// Press or release a button.
    SetButton { button: u8, down: bool },
    /// Write the value of an axis.
    SetAxis { axis: u32, value: i32 },
}

/// `steps`, held to full scale either way.
pub open spec fn clamped_steps(steps: i32) -> i32 {
    if steps > AXIS_FULL_SCALE {
        AXIS_FULL_SCALE
    } else if steps < -AXIS_FULL_SCALE {
        (-AXIS_FULL_SCALE) as i32
    } else {
        steps
    }
}

/// The value written for an axis deflected by `steps`: the centre plus the
/// deflection, which is `16384 + v * 16000` for an axis at `v` in `[-1, 1]`.
pub open spec fn axis_value_of(steps: i32) -> i32 {
    (AXIS_CENTER + clamped_steps(steps)) as i32
}

/// What the joystick is told for `state`: the face buttons, the d-pad, then
/// the two axes of the left stick.
pub open spec fn commands_for(state: GamepadState) -> Seq<SinkCommand> {
    seq![
        SinkCommand::SetButton { button: BUTTON_A, down: state.a },
        SinkCommand::SetButton { button: BUTTON_B, down: state.b },
        SinkCommand::SetButton { button: BUTTON_X, down: state.x },
        SinkCommand::SetButton { button: BUTTON_Y, down: state.y },
        SinkCommand::SetButton { button: BUTTON_DPAD_UP, down: state.dpad_up },
        SinkCommand::SetButton { button: BUTTON_DPAD_DOWN, down: state.dpad_down },
        SinkCommand::SetButton { button: BUTTON_DPAD_LEFT, down: state.dpad_left },
        SinkCommand::SetButton { button: BUTTON_DPAD_RIGHT, down: state.dpad_right },
        SinkCommand::SetAxis { axis: AXIS_X, value: axis_value_of(state.lx) },
        SinkCommand::SetAxis { axis: AXIS_Y, value: axis_value_of(state.ly) },
    ]
}

/// The value to write for an axis deflected by `steps`. A deflection past
/// full scale is written as full scale.
pub fn axis_value(steps: i32) -> (value: i32)
    ensures
        value == axis_value_of(steps),
        AXIS_CENTER - AXIS_FULL_SCALE <= value <= AXIS_CENTER + AXIS_FULL_SCALE,
{
    let held: i32 = if steps > AXIS_FULL_SCALE {
        AXIS_FULL_SCALE
    } else if steps < -AXIS_FULL_SCALE {
        -AXIS_FULL_SCALE
    } else {
        steps
    };
    AXIS_CENTER + held
}

/// What to tell the joystick for `state`, in the order to tell it.
pub fn sink_commands(state: &GamepadState) -> (commands: Vec<SinkCommand>)
    ensures
        commands@ == commands_for(*state),
{
    let mut commands: Vec<SinkCommand> = Vec::new();
    commands.push(SinkCommand::SetButton { button: BUTTON_A, down: state.a });
    commands.push(SinkCommand::SetButton { button: BUTTON_B, down: state.b });
    commands.push(SinkCommand::SetButton { button: BUTTON_X, down: state.x });
    commands.push(SinkCommand::SetButton { button: BUTTON_Y, down: state.y });
    commands.push(SinkCommand::SetButton { button: BUTTON_DPAD_UP, down: state.dpad_up });
    commands.push(SinkCommand::SetButton { button: BUTTON_DPAD_DOWN, down: state.dpad_down });
    commands.push(SinkCommand::SetButton { button: BUTTON_DPAD_LEFT, down: state.dpad_left });
    commands.push(SinkCommand::SetButton { button: BUTTON_DPAD_RIGHT, down: state.dpad_right });
    commands.push(SinkCommand::SetAxis { axis: AXIS_X, value: axis_value(state.lx) });
    commands.push(SinkCommand::SetAxis { axis: AXIS_Y, value: axis_value(state.ly) });
    assert(commands@ =~= commands_for(*state));
    commands
}

/// A larger deflection is never written as a smaller value, and every value
/// lies within full scale of the centre.
pub proof fn lemma_axis_value_is_monotonic(smaller: i32, larger: i32)
    requires
        smaller <= larger,
    ensures
        axis_value_of(smaller) <= axis_value_of(larger),
        AXIS_CENTER - AXIS_FULL_SCALE <= axis_value_of(smaller),
        axis_value_of(larger) <= AXIS_CENTER + AXIS_FULL_SCALE,
{
}

} // verus!
