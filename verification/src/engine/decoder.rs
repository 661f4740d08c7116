//! The pattern decoder: which channels must be active for which control, and
//! the gamepad state that a set of active channels stands for.

use crate::types::{GamepadState, AXIS_FULL_SCALE};
use vstd::prelude::*;

verus! {

/// The number of channels that the simulated input drives.
pub const SIM_CHANNELS: usize = 16;

/// A control of the virtual gamepad.
#[derive(Clone, Copy, Debug, PartialEq, Eq, Structural)]
pub enum Control {
    LeftStickUp,
    LeftStickDown,
    LeftStickLeft,
    LeftStickRight,
    A,
    B,
    X,
    Y,
    RightStickUp,
    RightStickDown,
    RightStickLeft,
    RightStickRight,
    Lb,
    Rb,
    Lt,
    Rt,
    DpadUp,
    DpadDown,
    DpadLeft,
    DpadRight,
}

/// The decode table: the channels that must all be active for a control to
/// fire. The directions of the d-pad have no entry: no pattern of channels
/// raises them.
pub open spec fn required_channels(control: Control) -> Option<Seq<int>> {
    match control {
        Control::LeftStickUp => Some(seq![0int, 4, 8]),
        Control::LeftStickDown => Some(seq![1int, 5, 9]),
        Control::LeftStickLeft => Some(seq![2int, 6, 10]),
        Control::LeftStickRight => Some(seq![3int, 7, 11]),
        Control::A => Some(seq![0int, 1, 2]),
        Control::B => Some(seq![3int, 4, 5]),
        Control::X => Some(seq![6int, 7, 8]),
        Control::Y => Some(seq![9int, 10, 11]),
        Control::RightStickUp => Some(seq![12int, 0]),
        Control::RightStickDown => Some(seq![13int, 1]),
        Control::RightStickLeft => Some(seq![14int, 2]),
        Control::RightStickRight => Some(seq![15int, 3]),
        Control::Lb => Some(seq![0int, 15]),
        Control::Rb => Some(seq![2int, 13]),
        Control::Lt => Some(seq![1int, 14]),
        Control::Rt => Some(seq![3int, 12]),
        Control::DpadUp => None,
        Control::DpadDown => None,
        Control::DpadLeft => None,
        Control::DpadRight => None,
    }
}

/// Whether `channel` is active. A channel that the frame does not have is
/// not.
pub open spec fn channel_active(active: Seq<bool>, channel: int) -> bool {
    0 <= channel < active.len() && active[channel]
}

/// Whether every channel listed in `channels` is active.
pub open spec fn all_listed_active(active: Seq<bool>, channels: Seq<int>) -> bool {
    forall|k: int| 0 <= k < channels.len() ==> channel_active(active, #[trigger] channels[k])
}

/// Whether `control` fires: it has an entry in the decode table and every
/// channel of the entry is active.
pub open spec fn control_fires(control: Control, active: Seq<bool>) -> bool {
    match required_channels(control) {
        Some(channels) => all_listed_active(active, channels),
        None => false,
    }
}

/// The deflection of an axis whose one direction fires where `positive`
/// holds and whose other direction fires where `negative` holds: full scale
/// one way or the other, centred where both or neither fire.
pub open spec fn axis_steps(positive: bool, negative: bool) -> i32 {
    if positive && !negative {
        AXIS_FULL_SCALE
    } else if negative && !positive {
        (-AXIS_FULL_SCALE) as i32
    } else {
        0
    }
}

/// The gamepad state that the active channels stand for. Every control is
/// judged on its own, so several may fire at once.
pub open spec fn decoded_state(active: Seq<bool>) -> GamepadState {
    GamepadState {
        lx: axis_steps(
            control_fires(Control::LeftStickRight, active),
            control_fires(Control::LeftStickLeft, active),
        ),
        ly: axis_steps(
            control_fires(Control::LeftStickUp, active),
            control_fires(Control::LeftStickDown, active),
        ),
        rx: axis_steps(
            control_fires(Control::RightStickRight, active),
            control_fires(Control::RightStickLeft, active),
        ),
        ry: axis_steps(
            control_fires(Control::RightStickUp, active),
            control_fires(Control::RightStickDown, active),
        ),
        a: control_fires(Control::A, active),
        b: control_fires(Control::B, active),
        x: control_fires(Control::X, active),
        y: control_fires(Control::Y, active),
        lb: control_fires(Control::Lb, active),
        rb: control_fires(Control::Rb, active),
        lt: control_fires(Control::Lt, active),
        rt: control_fires(Control::Rt, active),
        dpad_up: control_fires(Control::DpadUp, active),
        dpad_down: control_fires(Control::DpadDown, active),
        dpad_left: control_fires(Control::DpadLeft, active),
        dpad_right: control_fires(Control::DpadRight, active),
    }
}

/// Whether `channel` is active in `active`.
fn is_active(active: &[bool], channel: usize) -> (on: bool)
    ensures
        on == channel_active(active@, channel as int),
{
    channel < active.len() && active[channel]
}

/// Whether the two channels are both active.
fn both_active(active: &[bool], first: usize, second: usize) -> (on: bool)
    ensures
        on == all_listed_active(active@, seq![first as int, second as int]),
{
    let on = is_active(active, first) && is_active(active, second);
    proof {
        let pattern = seq![first as int, second as int];
        assert(pattern[0] == first && pattern[1] == second);
    }
    on
}

/// Whether the three channels are all active.
fn all_active(active: &[bool], first: usize, second: usize, third: usize) -> (on: bool)
    ensures
        on == all_listed_active(active@, seq![first as int, second as int, third as int]),
{
    let on = is_active(active, first) && is_active(active, second) && is_active(active, third);
    proof {
        let pattern = seq![first as int, second as int, third as int];
        assert(pattern[0] == first && pattern[1] == second && pattern[2] == third);
    }
    on
}

/// The channels that `control` asks for, in the order of the decode table;
/// `None` for a control without an entry.
pub fn channels_of(control: Control) -> (channels: Option<Vec<usize>>)
    ensures
        channels.is_some() <==> required_channels(control).is_some(),
        channels matches Some(listed) ==> {
            &&& listed@.len() == required_channels(control).unwrap().len()
            &&& forall|k: int|
                0 <= k < listed@.len() ==> #[trigger] listed@[k] as int == required_channels(
                    control,
                ).unwrap()[k]
        },
{
    match control {
        Control::LeftStickUp => Some(vec![0, 4, 8]),
        Control::LeftStickDown => Some(vec![1, 5, 9]),
        Control::LeftStickLeft => Some(vec![2, 6, 10]),
        Control::LeftStickRight => Some(vec![3, 7, 11]),
        Control::A => Some(vec![0, 1, 2]),
        Control::B => Some(vec![3, 4, 5]),
        Control::X => Some(vec![6, 7, 8]),
        Control::Y => Some(vec![9, 10, 11]),
        Control::RightStickUp => Some(vec![12, 0]),
        Control::RightStickDown => Some(vec![13, 1]),
        Control::RightStickLeft => Some(vec![14, 2]),
        Control::RightStickRight => Some(vec![15, 3]),
        Control::Lb => Some(vec![0, 15]),
        Control::Rb => Some(vec![2, 13]),
        Control::Lt => Some(vec![1, 14]),
        Control::Rt => Some(vec![3, 12]),
        Control::DpadUp => None,
        Control::DpadDown => None,
        Control::DpadLeft => None,
        Control::DpadRight => None,
    }
}

/// Whether `control` fires on the active channels.
pub fn fires(control: Control, active: &[bool]) -> (on: bool)
    ensures
        on == control_fires(control, active@),
{
    match control {
        Control::LeftStickUp => all_active(active, 0, 4, 8),
        Control::LeftStickDown => all_active(active, 1, 5, 9),
        Control::LeftStickLeft => all_active(active, 2, 6, 10),
        Control::LeftStickRight => all_active(active, 3, 7, 11),
        Control::A => all_active(active, 0, 1, 2),
        Control::B => all_active(active, 3, 4, 5),
        Control::X => all_active(active, 6, 7, 8),
        Control::Y => all_active(active, 9, 10, 11),
        Control::RightStickUp => both_active(active, 12, 0),
        Control::RightStickDown => both_active(active, 13, 1),
        Control::RightStickLeft => both_active(active, 14, 2),
        Control::RightStickRight => both_active(active, 15, 3),
        Control::Lb => both_active(active, 0, 15),
        Control::Rb => both_active(active, 2, 13),
        Control::Lt => both_active(active, 1, 14),
        Control::Rt => both_active(active, 3, 12),
        Control::DpadUp => false,
        Control::DpadDown => false,
        Control::DpadLeft => false,
        Control::DpadRight => false,
    }
}

/// The deflection of an axis from whether each of its directions fires.
fn axis(positive: bool, negative: bool) -> (steps: i32)
    ensures
        steps == axis_steps(positive, negative),
{
    if positive && !negative {
        AXIS_FULL_SCALE
    } else if negative && !positive {
        -AXIS_FULL_SCALE
    } else {
        0
    }
}

/// Decodes one frame: `active[i]` says whether the sample of channel `i`
/// lies above the threshold. A frame of any length is taken; with no channel
/// active, or none at all, the gamepad is at rest.
pub fn process_neural_intent(active: &[bool]) -> (state: GamepadState)
    ensures
        state == decoded_state(active@),
        state.axes_in_range(),
{
    GamepadState {
        lx: axis(fires(Control::LeftStickRight, active), fires(Control::LeftStickLeft, active)),
        ly: axis(fires(Control::LeftStickUp, active), fires(Control::LeftStickDown, active)),
        rx: axis(fires(Control::RightStickRight, active), fires(Control::RightStickLeft, active)),
        ry: axis(fires(Control::RightStickUp, active), fires(Control::RightStickDown, active)),
        a: fires(Control::A, active),
        b: fires(Control::B, active),
        x: fires(Control::X, active),
        y: fires(Control::Y, active),
        lb: fires(Control::Lb, active),
        rb: fires(Control::Rb, active),
        lt: fires(Control::Lt, active),
        rt: fires(Control::Rt, active),
        dpad_up: fires(Control::DpadUp, active),
        dpad_down: fires(Control::DpadDown, active),
        dpad_left: fires(Control::DpadLeft, active),
        dpad_right: fires(Control::DpadRight, active),
    }
}

/// A control fires exactly when it has an entry and none of the entry's
/// channels is inactive.
pub proof fn lemma_fires_needs_every_channel(control: Control, active: Seq<bool>, k: int)
    requires
        required_channels(control) matches Some(channels) && 0 <= k < channels.len()
            && !channel_active(active, channels[k]),
    ensures
        !control_fires(control, active),
{
}

/// With channels 0, 4 and 8 active and no other, the left stick is pushed
/// all the way up and no other control fires.
pub proof fn lemma_forward_pattern_alone(active: Seq<bool>)
    requires
        forall|channel: int|
            channel_active(active, channel) <==> (channel == 0 || channel == 4 || channel == 8),
    ensures
        decoded_state(active) == (GamepadState { ly: AXIS_FULL_SCALE, ..GamepadState::neutral() }),
{
    assert(control_fires(Control::LeftStickUp, active)) by {
        let channels = seq![0int, 4, 8];
        assert(channels[0] == 0 && channels[1] == 4 && channels[2] == 8);
    }
    lemma_fires_needs_every_channel(Control::LeftStickDown, active, 0);
    lemma_fires_needs_every_channel(Control::LeftStickLeft, active, 0);
    lemma_fires_needs_every_channel(Control::LeftStickRight, active, 0);
    lemma_fires_needs_every_channel(Control::A, active, 1);
    lemma_fires_needs_every_channel(Control::B, active, 0);
    lemma_fires_needs_every_channel(Control::X, active, 0);
    lemma_fires_needs_every_channel(Control::Y, active, 0);
    lemma_fires_needs_every_channel(Control::RightStickUp, active, 0);
    lemma_fires_needs_every_channel(Control::RightStickDown, active, 0);
    lemma_fires_needs_every_channel(Control::RightStickLeft, active, 0);
    lemma_fires_needs_every_channel(Control::RightStickRight, active, 0);
    lemma_fires_needs_every_channel(Control::Lb, active, 1);
    lemma_fires_needs_every_channel(Control::Rb, active, 0);
    lemma_fires_needs_every_channel(Control::Lt, active, 0);
    lemma_fires_needs_every_channel(Control::Rt, active, 0);
}

/// With no channel active, and so with no channel at all, the gamepad is at
/// rest.
pub proof fn lemma_nothing_active_is_neutral(active: Seq<bool>)
    requires
        forall|channel: int| !channel_active(active, channel),
    ensures
        decoded_state(active) == GamepadState::neutral(),
{
    lemma_fires_needs_every_channel(Control::LeftStickUp, active, 0);
    lemma_fires_needs_every_channel(Control::LeftStickDown, active, 0);
    lemma_fires_needs_every_channel(Control::LeftStickLeft, active, 0);
    lemma_fires_needs_every_channel(Control::LeftStickRight, active, 0);
    lemma_fires_needs_every_channel(Control::A, active, 0);
    lemma_fires_needs_every_channel(Control::B, active, 0);
    lemma_fires_needs_every_channel(Control::X, active, 0);
    lemma_fires_needs_every_channel(Control::Y, active, 0);
    lemma_fires_needs_every_channel(Control::RightStickUp, active, 0);
    lemma_fires_needs_every_channel(Control::RightStickDown, active, 0);
    lemma_fires_needs_every_channel(Control::RightStickLeft, active, 0);
    lemma_fires_needs_every_channel(Control::RightStickRight, active, 0);
    lemma_fires_needs_every_channel(Control::Lb, active, 0);
    lemma_fires_needs_every_channel(Control::Rb, active, 0);
    lemma_fires_needs_every_channel(Control::Lt, active, 0);
    lemma_fires_needs_every_channel(Control::Rt, active, 0);
}

/// A control that fires keeps firing when more channels become active.
pub proof fn lemma_fires_is_monotonic(control: Control, fewer: Seq<bool>, more: Seq<bool>)
    requires
        forall|channel: int| channel_active(fewer, channel) ==> channel_active(more, channel),
        control_fires(control, fewer),
    ensures
        control_fires(control, more),
{
}

} // verus!
