//! The simulated input: which channels a key raises. It reads the decode
//! table, so what it raises is what the decoder looks for.

use crate::engine::decoder::{
    channel_active, control_fires, required_channels, Control, SIM_CHANNELS,
};
use crate::types::SimInputIntent;
use vstd::prelude::*;

verus! {

/// Whether the key of `control` is down. Only the left stick and the face
/// buttons have keys: W, S, A, D, space, Z, X and C.
pub open spec fn key_down(keys: SimInputIntent, control: Control) -> bool {
    match control {
        Control::LeftStickUp => keys.w,
        Control::LeftStickDown => keys.s,
        Control::LeftStickLeft => keys.a,
        Control::LeftStickRight => keys.d,
        Control::A => keys.space,
        Control::B => keys.key_z,
        Control::X => keys.key_x,
        Control::Y => keys.key_c,
        _ => false,
    }
}

/// Whether the decode table lists `channel` for `control`.
pub open spec fn lists(control: Control, channel: int) -> bool {
    match required_channels(control) {
        Some(channels) => channels.contains(channel),
        None => false,
    }
}

/// One where the key of `control` is down and raises `channel`, else zero.
#[verifier::opaque]
pub open spec fn bump(keys: SimInputIntent, control: Control, channel: int) -> nat {
    if key_down(keys, control) && lists(control, channel) {
        1
    } else {
        0
    }
}

/// How many of the keys that are down raise `channel`.
pub open spec fn bumps(keys: SimInputIntent, channel: int) -> nat {
    bump(keys, Control::LeftStickUp, channel) + bump(keys, Control::LeftStickDown, channel) + bump(
        keys,
        Control::LeftStickLeft,
        channel,
    ) + bump(keys, Control::LeftStickRight, channel) + bump(keys, Control::A, channel) + bump(
        keys,
        Control::B,
        channel,
    ) + bump(keys, Control::X, channel) + bump(keys, Control::Y, channel)
}

/// The channels that the keys raise, as the decoder sees them: a channel is
/// active where at least one key raises it.
pub open spec fn raised(keys: SimInputIntent) -> Seq<bool> {
    Seq::new(SIM_CHANNELS as nat, |channel: int| bumps(keys, channel) > 0)
}

/// Whether the decode table lists `channel` for `control`, for the controls
/// that have a key.
fn keyed_control_lists(control: Control, channel: usize) -> (listed: bool)
    requires
        has_key(control),
    ensures
        listed == lists(control, channel as int),
{
    proof {
        let channels = required_channels(control).unwrap();
        assert(channels.len() == 3);
        assert(channels.contains(channel as int) <==> (channels[0] == channel || channels[1]
            == channel || channels[2] == channel));
    }
    match control {
        Control::LeftStickUp => channel == 0 || channel == 4 || channel == 8,
        Control::LeftStickDown => channel == 1 || channel == 5 || channel == 9,
        Control::LeftStickLeft => channel == 2 || channel == 6 || channel == 10,
        Control::LeftStickRight => channel == 3 || channel == 7 || channel == 11,
        Control::A => channel == 0 || channel == 1 || channel == 2,
        Control::B => channel == 3 || channel == 4 || channel == 5,
        Control::X => channel == 6 || channel == 7 || channel == 8,
        _ => channel == 9 || channel == 10 || channel == 11,
    }
}

/// One where the key of `control` is down and raises `channel`, else zero.
fn bump_of(keys: &SimInputIntent, control: Control, channel: usize) -> (count: u8)
    requires
        has_key(control),
    ensures
        count == bump(*keys, control, channel as int),
        count <= 1,
{
    let down: bool = match control {
        Control::LeftStickUp => keys.w,
        Control::LeftStickDown => keys.s,
        Control::LeftStickLeft => keys.a,
        Control::LeftStickRight => keys.d,
        Control::A => keys.space,
        Control::B => keys.key_z,
        Control::X => keys.key_x,
        _ => keys.key_c,
    };
    proof {
        reveal(bump);
    }
    if down && keyed_control_lists(control, channel) {
        1
    } else {
        0
    }
}

/// For each of the sixteen simulated channels, how many of the keys that are
/// down raise it. The simulation adds one bump of amplitude to a channel for
/// each.
pub fn stimulus(keys: &SimInputIntent) -> (counts: Vec<u8>)
    ensures
        counts@.len() == SIM_CHANNELS,
        forall|channel: int|
            0 <= channel < SIM_CHANNELS ==> #[trigger] counts@[channel] == bumps(*keys, channel),
{
    let mut counts: Vec<u8> = Vec::new();
    let mut channel: usize = 0;
    while channel < SIM_CHANNELS
        invariant
            channel <= SIM_CHANNELS,
            counts@.len() == channel,
            forall|j: int| 0 <= j < channel ==> #[trigger] counts@[j] == bumps(*keys, j),
        decreases SIM_CHANNELS - channel,
    {
        let up: u8 = bump_of(keys, Control::LeftStickUp, channel);
        let down: u8 = bump_of(keys, Control::LeftStickDown, channel);
        let left: u8 = bump_of(keys, Control::LeftStickLeft, channel);
        let right: u8 = bump_of(keys, Control::LeftStickRight, channel);
        let a: u8 = bump_of(keys, Control::A, channel);
        let b: u8 = bump_of(keys, Control::B, channel);
        let x: u8 = bump_of(keys, Control::X, channel);
        let y: u8 = bump_of(keys, Control::Y, channel);
        counts.push(up + down + left + right + a + b + x + y);
        channel += 1;
    }
    counts
}

/// The channels that the keys raise, as the decoder takes them.
pub fn stimulated_channels(keys: &SimInputIntent) -> (active: Vec<bool>)
    ensures
        active@ == raised(*keys),
{
    let counts = stimulus(keys);
    let mut active: Vec<bool> = Vec::new();
    let mut channel: usize = 0;
    while channel < SIM_CHANNELS
        invariant
            channel <= SIM_CHANNELS,
            counts@.len() == SIM_CHANNELS,
            active@.len() == channel,
            forall|j: int| 0 <= j < SIM_CHANNELS ==> #[trigger] counts@[j] == bumps(*keys, j),
            forall|j: int| 0 <= j < channel ==> #[trigger] active@[j] == (bumps(*keys, j) > 0),
        decreases SIM_CHANNELS - channel,
    {
        active.push(counts[channel] > 0);
        channel += 1;
    }
    assert(active@ =~= raised(*keys));
    active
}

/// The simulation and the decoder agree: whatever keys are down, the control
/// of every key that is down fires on the channels that the keys raise.
pub proof fn lemma_key_fires_its_control(keys: SimInputIntent, control: Control)
    requires
        key_down(keys, control),
    ensures
        control_fires(control, raised(keys)),
{
    let channels = required_channels(control).unwrap();
    assert forall|k: int| 0 <= k < channels.len() implies channel_active(
        raised(keys),
        #[trigger] channels[k],
    ) by {
        assert(channels.contains(channels[k]));
        assert(bump(keys, control, channels[k]) == 1) by {
            reveal(bump);
        }
        assert(0 <= channels[k] < SIM_CHANNELS);
    }
}

/// With no key down the simulation raises no channel.
pub proof fn lemma_no_key_raises_nothing(channel: int)
    ensures
        !channel_active(raised(SimInputIntent::released()), channel),
{
    reveal(bump);
}


/// With only the key of one control down, a channel is raised exactly where
/// the decode table lists it for that control.
proof fn lemma_single_key_raises_its_channels(keys: SimInputIntent, control: Control)
    requires
        key_down(keys, control),
        forall|other: Control| other != control ==> !key_down(keys, other),
    ensures
        forall|channel: int| channel_active(raised(keys), channel) <==> lists(control, channel),
{
    reveal(bump);
    assert forall|channel: int| channel_active(raised(keys), channel) <==> lists(
        control,
        channel,
    ) by {
        assert(!key_down(keys, Control::LeftStickUp) || control == Control::LeftStickUp);
        assert(!key_down(keys, Control::LeftStickDown) || control == Control::LeftStickDown);
        assert(!key_down(keys, Control::LeftStickLeft) || control == Control::LeftStickLeft);
        assert(!key_down(keys, Control::LeftStickRight) || control == Control::LeftStickRight);
        assert(!key_down(keys, Control::A) || control == Control::A);
        assert(!key_down(keys, Control::B) || control == Control::B);
        assert(!key_down(keys, Control::X) || control == Control::X);
        assert(!key_down(keys, Control::Y) || control == Control::Y);
        if lists(control, channel) {
            let channels = required_channels(control).unwrap();
            let k = choose|k: int| 0 <= k < channels.len() && channels[k] == channel;
            assert(0 <= channel < SIM_CHANNELS);
        }
    }
}

/// Whether `control` has a key in the simulation.
pub open spec fn has_key(control: Control) -> bool {
    control == Control::LeftStickUp || control == Control::LeftStickDown || control
        == Control::LeftStickLeft || control == Control::LeftStickRight || control == Control::A
        || control == Control::B || control == Control::X || control == Control::Y
}

/// A control with a key lists three channels, and no others.
proof fn lemma_lists_three(control: Control, channel: int)
    requires
        has_key(control),
    ensures
        required_channels(control).unwrap().len() == 3,
        lists(control, channel) <==> (required_channels(control).unwrap()[0] == channel
            || required_channels(control).unwrap()[1] == channel || required_channels(
            control,
        ).unwrap()[2] == channel),
{
    let channels = required_channels(control).unwrap();
    assert(channels.len() == 3);
    if channels[0] == channel || channels[1] == channel || channels[2] == channel {
        assert(channels.contains(channel));
    }
}

/// Two controls of the decode table share one channel at most: of the first
/// two channels of the one, the other lists one at most.
proof fn lemma_controls_share_one_channel(control: Control, other: Control)
    requires
        has_key(control),
        other != control,
        required_channels(other).is_some(),
    ensures
        !lists(control, required_channels(other).unwrap()[0]) || !lists(
            control,
            required_channels(other).unwrap()[1],
        ),
{
    let needed = required_channels(other).unwrap();
    assert(needed.len() >= 2);
    lemma_lists_three(control, needed[0]);
    lemma_lists_three(control, needed[1]);
    let mine = required_channels(control).unwrap();
    let first = needed[0];
    let second = needed[1];
    assert(mine[0] == match control {
        Control::LeftStickUp => 0int,
        Control::LeftStickDown => 1,
        Control::LeftStickLeft => 2,
        Control::LeftStickRight => 3,
        Control::A => 0,
        Control::B => 3,
        Control::X => 6,
        _ => 9,
    });
    assert(mine[1] == match control {
        Control::LeftStickUp => 4int,
        Control::LeftStickDown => 5,
        Control::LeftStickLeft => 6,
        Control::LeftStickRight => 7,
        Control::A => 1,
        Control::B => 4,
        Control::X => 7,
        _ => 10,
    });
    assert(mine[2] == match control {
        Control::LeftStickUp => 8int,
        Control::LeftStickDown => 9,
        Control::LeftStickLeft => 10,
        Control::LeftStickRight => 11,
        Control::A => 2,
        Control::B => 5,
        Control::X => 8,
        _ => 11,
    });
    assert(first == match other {
        Control::LeftStickUp => 0int,
        Control::LeftStickDown => 1,
        Control::LeftStickLeft => 2,
        Control::LeftStickRight => 3,
        Control::A => 0,
        Control::B => 3,
        Control::X => 6,
        Control::Y => 9,
        Control::RightStickUp => 12,
        Control::RightStickDown => 13,
        Control::RightStickLeft => 14,
        Control::RightStickRight => 15,
        Control::Lb => 0,
        Control::Rb => 2,
        Control::Lt => 1,
        _ => 3,
    });
    assert(second == match other {
        Control::LeftStickUp => 4int,
        Control::LeftStickDown => 5,
        Control::LeftStickLeft => 6,
        Control::LeftStickRight => 7,
        Control::A => 1,
        Control::B => 4,
        Control::X => 7,
        Control::Y => 10,
        Control::RightStickUp => 0,
        Control::RightStickDown => 1,
        Control::RightStickLeft => 2,
        Control::RightStickRight => 3,
        Control::Lb => 15,
        Control::Rb => 13,
        Control::Lt => 14,
        _ => 12,
    });
}

/// With only the key of one control down, that control fires on what the
/// simulation raises, and no other control does: the simulation and the
/// decoder read one table.
pub proof fn lemma_single_key_decodes_alone(keys: SimInputIntent, control: Control, other: Control)
    requires
        key_down(keys, control),
        forall|any: Control| any != control ==> !key_down(keys, any),
    ensures
        control_fires(other, raised(keys)) <==> other == control,
{
    lemma_single_key_raises_its_channels(keys, control);
    lemma_key_fires_its_control(keys, control);
    if other != control && required_channels(other).is_some() {
        lemma_controls_share_one_channel(control, other);
        let needed = required_channels(other).unwrap();
        assert(needed.len() >= 2);
        if !lists(control, needed[0]) {
            assert(!channel_active(raised(keys), needed[0]));
        } else {
            assert(!channel_active(raised(keys), needed[1]));
        }
    }
}

} // verus!
