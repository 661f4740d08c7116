use qnmdsol::types::{GamepadState, AXIS_FULL_SCALE};
use qnmdsol::vjoy::{axis_value, sink_commands, SinkCommand};

#[test]
fn axis_value_is_centre_plus_deflection() {
    assert_eq!(axis_value(0), 16384);
    assert_eq!(axis_value(AXIS_FULL_SCALE), 32384);
    assert_eq!(axis_value(-AXIS_FULL_SCALE), 384);
    assert_eq!(axis_value(8000), 24384);
    assert_eq!(axis_value(-1), 16383);
}

#[test]
fn axis_value_stops_at_full_scale() {
    assert_eq!(axis_value(16001), 32384);
    assert_eq!(axis_value(i32::MAX), 32384);
    assert_eq!(axis_value(-16001), 384);
    assert_eq!(axis_value(i32::MIN), 384);
}

#[test]
fn the_sink_is_told_buttons_then_axes() {
    let state = GamepadState {
        lx: -AXIS_FULL_SCALE,
        ly: AXIS_FULL_SCALE,
        a: true,
        y: true,
        dpad_down: true,
        rb: true,
        ..GamepadState::default()
    };
    assert_eq!(
        sink_commands(&state),
        vec![
            SinkCommand::SetButton { button: 1, down: true },
            SinkCommand::SetButton { button: 2, down: false },
            SinkCommand::SetButton { button: 3, down: false },
            SinkCommand::SetButton { button: 4, down: true },
            SinkCommand::SetButton { button: 9, down: false },
            SinkCommand::SetButton { button: 10, down: true },
            SinkCommand::SetButton { button: 11, down: false },
            SinkCommand::SetButton { button: 12, down: false },
            SinkCommand::SetAxis { axis: 0x30, value: 384 },
            SinkCommand::SetAxis { axis: 0x31, value: 32384 },
        ]
    );
}
