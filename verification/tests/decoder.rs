use qnmdsol::engine::decoder::{channels_of, fires, process_neural_intent, Control};
use qnmdsol::engine::simulation::{stimulated_channels, stimulus};
use qnmdsol::types::{GamepadState, SimInputIntent, AXIS_FULL_SCALE};

fn active_of(threshold: f64, data: &[f64]) -> Vec<bool> {
    data.iter().map(|v| v.abs() > threshold).collect()
}

fn channels(on: &[usize], count: usize) -> Vec<bool> {
    (0..count).map(|i| on.contains(&i)).collect()
}

#[test]
fn forward_pattern_pushes_the_left_stick_up() {
    let mut data = vec![3.0f64; 16];
    data[0] = 500.0;
    data[4] = -500.0;
    data[8] = 151.0;
    let state = process_neural_intent(&active_of(150.0, &data));
    let expected = GamepadState { ly: AXIS_FULL_SCALE, ..GamepadState::default() };
    assert_eq!(state, expected);
}

#[test]
fn nothing_above_threshold_is_neutral() {
    let data = vec![149.9f64; 16];
    assert_eq!(process_neural_intent(&active_of(150.0, &data)), GamepadState::default());
    assert_eq!(process_neural_intent(&[]), GamepadState::default());
}

#[test]
fn an_invalid_sample_counts_as_inactive() {
    let mut data = vec![500.0f64; 16];
    data[0] = f64::NAN;
    let state = process_neural_intent(&active_of(150.0, &data));
    assert_eq!(state.ly, -AXIS_FULL_SCALE);
    assert!(!state.a);
    assert!(state.b && state.x && state.y);
}

#[test]
fn a_short_frame_misses_the_channels_it_lacks() {
    let state = process_neural_intent(&channels(&[0, 1, 2, 3, 4, 5, 6, 7, 8], 9));
    assert!(state.a && state.b && state.x);
    assert!(!state.y);
    assert_eq!(state.ly, AXIS_FULL_SCALE);
    assert_eq!(state.lx, 0);
}

#[test]
fn every_control_has_its_pattern() {
    let table: Vec<(Control, Vec<usize>)> = vec![
        (Control::LeftStickUp, vec![0, 4, 8]),
        (Control::LeftStickDown, vec![1, 5, 9]),
        (Control::LeftStickLeft, vec![2, 6, 10]),
        (Control::LeftStickRight, vec![3, 7, 11]),
        (Control::A, vec![0, 1, 2]),
        (Control::B, vec![3, 4, 5]),
        (Control::X, vec![6, 7, 8]),
        (Control::Y, vec![9, 10, 11]),
        (Control::RightStickUp, vec![12, 0]),
        (Control::RightStickDown, vec![13, 1]),
        (Control::RightStickLeft, vec![14, 2]),
        (Control::RightStickRight, vec![15, 3]),
        (Control::Lb, vec![0, 15]),
        (Control::Rb, vec![2, 13]),
        (Control::Lt, vec![1, 14]),
        (Control::Rt, vec![3, 12]),
    ];
    for (control, pattern) in &table {
        assert_eq!(channels_of(*control), Some(pattern.clone()));
        assert!(fires(*control, &channels(pattern, 16)));
        for missing in pattern {
            let fewer: Vec<usize> = pattern.iter().copied().filter(|c| c != missing).collect();
            assert!(!fires(*control, &channels(&fewer, 16)));
        }
    }
    for control in [Control::DpadUp, Control::DpadDown, Control::DpadLeft, Control::DpadRight] {
        assert_eq!(channels_of(control), None);
        assert!(!fires(control, &vec![true; 16]));
    }
}

#[test]
fn axes_follow_their_directions() {
    assert_eq!(process_neural_intent(&channels(&[1, 5, 9], 16)).ly, -AXIS_FULL_SCALE);
    assert_eq!(process_neural_intent(&channels(&[2, 6, 10], 16)).lx, -AXIS_FULL_SCALE);
    assert_eq!(process_neural_intent(&channels(&[3, 7, 11], 16)).lx, AXIS_FULL_SCALE);
    assert_eq!(process_neural_intent(&channels(&[12, 0], 16)).ry, AXIS_FULL_SCALE);
    assert_eq!(process_neural_intent(&channels(&[13, 1], 16)).ry, -AXIS_FULL_SCALE);
    assert_eq!(process_neural_intent(&channels(&[14, 2], 16)).rx, -AXIS_FULL_SCALE);
    assert_eq!(process_neural_intent(&channels(&[15, 3], 16)).rx, AXIS_FULL_SCALE);
}

#[test]
fn opposite_directions_cancel() {
    let state = process_neural_intent(&channels(&[0, 4, 8, 1, 5, 9], 16));
    assert_eq!(state.ly, 0);
}

#[test]
fn several_controls_fire_at_once() {
    let state = process_neural_intent(&vec![true; 16]);
    assert_eq!((state.lx, state.ly, state.rx, state.ry), (0, 0, 0, 0));
    assert!(state.a && state.b && state.x && state.y);
    assert!(state.lb && state.rb && state.lt && state.rt);
    assert!(!state.dpad_up && !state.dpad_down && !state.dpad_left && !state.dpad_right);
    let some = process_neural_intent(&channels(&[0, 15, 12], 16));
    assert!(some.lb);
    assert_eq!(some.ry, AXIS_FULL_SCALE);
}

#[test]
fn stimulus_counts_the_keys_on_each_channel() {
    let keys = SimInputIntent { w: true, space: true, ..SimInputIntent::default() };
    assert_eq!(stimulus(&keys), vec![2, 1, 1, 0, 1, 0, 0, 0, 1, 0, 0, 0, 0, 0, 0, 0]);
    assert_eq!(stimulus(&SimInputIntent::default()), vec![0; 16]);
    let unmapped = SimInputIntent { up: true, q: true, arrow_left: true, key_1: true, ..SimInputIntent::default() };
    assert_eq!(stimulus(&unmapped), vec![0; 16]);
}

#[test]
fn a_single_key_decodes_to_its_control_alone() {
    let none = SimInputIntent::default();
    let cases = vec![
        (SimInputIntent { w: true, ..none }, GamepadState { ly: AXIS_FULL_SCALE, ..GamepadState::default() }),
        (SimInputIntent { s: true, ..none }, GamepadState { ly: -AXIS_FULL_SCALE, ..GamepadState::default() }),
        (SimInputIntent { a: true, ..none }, GamepadState { lx: -AXIS_FULL_SCALE, ..GamepadState::default() }),
        (SimInputIntent { d: true, ..none }, GamepadState { lx: AXIS_FULL_SCALE, ..GamepadState::default() }),
        (SimInputIntent { space: true, ..none }, GamepadState { a: true, ..GamepadState::default() }),
        (SimInputIntent { key_z: true, ..none }, GamepadState { b: true, ..GamepadState::default() }),
        (SimInputIntent { key_x: true, ..none }, GamepadState { x: true, ..GamepadState::default() }),
        (SimInputIntent { key_c: true, ..none }, GamepadState { y: true, ..GamepadState::default() }),
    ];
    for (keys, expected) in cases {
        assert_eq!(process_neural_intent(&stimulated_channels(&keys)), expected);
    }
}
