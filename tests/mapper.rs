use evdev::{AbsoluteAxisType, EventType, InputEvent, Key};
use fpv_bridge::controller::mapper::{
    ControllerState, EventMapper, AXIS_CENTER, AXIS_MAX, AXIS_MIN, DPAD_NEGATIVE, DPAD_POSITIVE,
    DPAD_RELEASED,
};


/// Helper to create an axis event for testing.
fn make_axis_event(axis: AbsoluteAxisType, value: i32) -> InputEvent {
    InputEvent::new(EventType::ABSOLUTE, axis.0, value)
}

/// Helper to create a key event for testing.
fn make_key_event(key: Key, pressed: bool) -> InputEvent {
    InputEvent::new(EventType::KEY, key.code(), if pressed { 1 } else { 0 })
}

// ==================== ControllerState Tests ====================

#[test]
fn test_controller_state_default() {
    let state = ControllerState::default();

    // Sticks should be centered
    assert_eq!(state.left_stick_x, AXIS_CENTER);
    assert_eq!(state.left_stick_y, AXIS_CENTER);
    assert_eq!(state.right_stick_x, AXIS_CENTER);
    assert_eq!(state.right_stick_y, AXIS_CENTER);

    // Triggers should be released
    assert_eq!(state.trigger_l2, AXIS_MIN);
    assert_eq!(state.trigger_r2, AXIS_MIN);

    // D-Pad should be centered
    assert_eq!(state.dpad_x, DPAD_RELEASED);
    assert_eq!(state.dpad_y, DPAD_RELEASED);

    // All buttons should be released
    assert!(!state.btn_cross);
    assert!(!state.btn_circle);
    assert!(!state.btn_square);
    assert!(!state.btn_triangle);
    assert!(!state.btn_l1);
    assert!(!state.btn_r1);
    assert!(!state.btn_l2);
    assert!(!state.btn_r2);
    assert!(!state.btn_share);
    assert!(!state.btn_options);
    assert!(!state.btn_ps);
    assert!(!state.btn_l3);
    assert!(!state.btn_r3);
    assert!(!state.btn_touchpad);
}

#[test]
fn test_controller_state_new() {
    let state = ControllerState::new();
    assert_eq!(state, ControllerState::default());
}

#[test]
fn test_any_stick_moved_centered() {
    let state = ControllerState::default();
    assert!(!state.any_stick_moved(10));
}

#[test]
fn test_any_stick_moved_left_stick_x() {
    let mut state = ControllerState::default();
    state.left_stick_x = AXIS_CENTER + 20;
    assert!(state.any_stick_moved(10));
}

#[test]
fn test_any_stick_moved_left_stick_y() {
    let mut state = ControllerState::default();
    state.left_stick_y = AXIS_CENTER - 20;
    assert!(state.any_stick_moved(10));
}

#[test]
fn test_any_stick_moved_right_stick_x() {
    let mut state = ControllerState::default();
    state.right_stick_x = AXIS_MAX;
    assert!(state.any_stick_moved(10));
}

#[test]
fn test_any_stick_moved_right_stick_y() {
    let mut state = ControllerState::default();
    state.right_stick_y = AXIS_MIN;
    assert!(state.any_stick_moved(10));
}

#[test]
fn test_any_stick_moved_within_threshold() {
    let mut state = ControllerState::default();
    state.left_stick_x = AXIS_CENTER + 5;
    assert!(!state.any_stick_moved(10)); // Within threshold
    assert!(state.any_stick_moved(3));   // Exceeds threshold
}

#[test]
fn test_any_button_pressed_none() {
    let state = ControllerState::default();
    assert!(!state.any_button_pressed());
}

#[test]
fn test_any_button_pressed_face_buttons() {
    for button in ["cross", "circle", "square", "triangle"] {
        let mut state = ControllerState::default();
        match button {
            "cross" => state.btn_cross = true,
            "circle" => state.btn_circle = true,
            "square" => state.btn_square = true,
            "triangle" => state.btn_triangle = true,
            _ => unreachable!(),
        }
        assert!(state.any_button_pressed(), "Button {} should register", button);
    }
}

#[test]
fn test_any_button_pressed_shoulder_buttons() {
    for button in ["l1", "r1", "l2", "r2"] {
        let mut state = ControllerState::default();
        match button {
            "l1" => state.btn_l1 = true,
            "r1" => state.btn_r1 = true,
            "l2" => state.btn_l2 = true,
            "r2" => state.btn_r2 = true,
            _ => unreachable!(),
        }
        assert!(state.any_button_pressed(), "Button {} should register", button);
    }
}

#[test]
fn test_any_button_pressed_system_buttons() {
    for button in ["share", "options", "ps"] {
        let mut state = ControllerState::default();
        match button {
            "share" => state.btn_share = true,
            "options" => state.btn_options = true,
            "ps" => state.btn_ps = true,
            _ => unreachable!(),
        }
        assert!(state.any_button_pressed(), "Button {} should register", button);
    }
}

#[test]
fn test_any_button_pressed_stick_clicks() {
    let mut state = ControllerState::default();
    state.btn_l3 = true;
    assert!(state.any_button_pressed());

    let mut state = ControllerState::default();
    state.btn_r3 = true;
    assert!(state.any_button_pressed());
}

#[test]
fn test_any_button_pressed_touchpad() {
    let mut state = ControllerState::default();
    state.btn_touchpad = true;
    assert!(state.any_button_pressed());
}

#[test]
fn test_any_trigger_pressed_none() {
    let state = ControllerState::default();
    assert!(!state.any_trigger_pressed(10));
}

#[test]
fn test_any_trigger_pressed_l2() {
    let mut state = ControllerState::default();
    state.trigger_l2 = 200;
    assert!(state.any_trigger_pressed(10));
}

#[test]
fn test_any_trigger_pressed_r2() {
    let mut state = ControllerState::default();
    state.trigger_r2 = 150;
    assert!(state.any_trigger_pressed(10));
}

#[test]
fn test_any_trigger_pressed_threshold() {
    let mut state = ControllerState::default();
    state.trigger_l2 = 50;
    assert!(!state.any_trigger_pressed(100)); // Below threshold
    assert!(state.any_trigger_pressed(10));   // Above threshold
}

// ==================== EventMapper Tests ====================

#[test]
fn test_event_mapper_new() {
    let mapper = EventMapper::new();
    assert_eq!(*mapper.state(), ControllerState::default());
}

#[test]
fn test_event_mapper_default() {
    let mapper = EventMapper::default();
    assert_eq!(*mapper.state(), ControllerState::default());
}

#[test]
fn test_event_mapper_state_snapshot() {
    let mapper = EventMapper::new();
    let snapshot = mapper.state_snapshot();
    assert_eq!(snapshot, ControllerState::default());
}

#[test]
fn test_event_mapper_reset() {
    let mut mapper = EventMapper::new();

    // Modify state
    let event = make_axis_event(AbsoluteAxisType::ABS_X, 200);
    mapper.process_event(&event);
    assert_eq!(mapper.state().left_stick_x, 200);

    // Reset
    mapper.reset();
    assert_eq!(mapper.state().left_stick_x, AXIS_CENTER);
}

// ==================== Axis Event Tests ====================

#[test]
fn test_process_left_stick_x() {
    let mut mapper = EventMapper::new();

    let event = make_axis_event(AbsoluteAxisType::ABS_X, 0);
    mapper.process_event(&event);
    assert_eq!(mapper.state().left_stick_x, 0);

    let event = make_axis_event(AbsoluteAxisType::ABS_X, 255);
    mapper.process_event(&event);
    assert_eq!(mapper.state().left_stick_x, 255);
}

#[test]
fn test_process_left_stick_y() {
    let mut mapper = EventMapper::new();

    let event = make_axis_event(AbsoluteAxisType::ABS_Y, 50);
    mapper.process_event(&event);
    assert_eq!(mapper.state().left_stick_y, 50);
}

#[test]
fn test_process_right_stick_x() {
    let mut mapper = EventMapper::new();

    let event = make_axis_event(AbsoluteAxisType::ABS_Z, 100);
    mapper.process_event(&event);
    assert_eq!(mapper.state().right_stick_x, 100);
}

#[test]
fn test_process_right_stick_y() {
    let mut mapper = EventMapper::new();

    let event = make_axis_event(AbsoluteAxisType::ABS_RZ, 200);
    mapper.process_event(&event);
    assert_eq!(mapper.state().right_stick_y, 200);
}

#[test]
fn test_process_trigger_l2() {
    let mut mapper = EventMapper::new();

    let event = make_axis_event(AbsoluteAxisType::ABS_RX, 128);
    mapper.process_event(&event);
    assert_eq!(mapper.state().trigger_l2, 128);
}

#[test]
fn test_process_trigger_r2() {
    let mut mapper = EventMapper::new();

    let event = make_axis_event(AbsoluteAxisType::ABS_RY, 255);
    mapper.process_event(&event);
    assert_eq!(mapper.state().trigger_r2, 255);
}

#[test]
fn test_process_dpad_x() {
    let mut mapper = EventMapper::new();

    // Press left
    let event = make_axis_event(AbsoluteAxisType::ABS_HAT0X, -1);
    mapper.process_event(&event);
    assert_eq!(mapper.state().dpad_x, -1);

    // Release
    let event = make_axis_event(AbsoluteAxisType::ABS_HAT0X, 0);
    mapper.process_event(&event);
    assert_eq!(mapper.state().dpad_x, 0);

    // Press right
    let event = make_axis_event(AbsoluteAxisType::ABS_HAT0X, 1);
    mapper.process_event(&event);
    assert_eq!(mapper.state().dpad_x, 1);
}

#[test]
fn test_process_dpad_y() {
    let mut mapper = EventMapper::new();

    // Press up
    let event = make_axis_event(AbsoluteAxisType::ABS_HAT0Y, -1);
    mapper.process_event(&event);
    assert_eq!(mapper.state().dpad_y, -1);

    // Press down
    let event = make_axis_event(AbsoluteAxisType::ABS_HAT0Y, 1);
    mapper.process_event(&event);
    assert_eq!(mapper.state().dpad_y, 1);
}

// ==================== Key Event Tests ====================

#[test]
fn test_process_face_buttons() {
    let mut mapper = EventMapper::new();

    // Cross
    mapper.process_event(&make_key_event(Key::BTN_SOUTH, true));
    assert!(mapper.state().btn_cross);
    mapper.process_event(&make_key_event(Key::BTN_SOUTH, false));
    assert!(!mapper.state().btn_cross);

    // Circle
    mapper.process_event(&make_key_event(Key::BTN_EAST, true));
    assert!(mapper.state().btn_circle);

    // Square
    mapper.process_event(&make_key_event(Key::BTN_WEST, true));
    assert!(mapper.state().btn_square);

    // Triangle
    mapper.process_event(&make_key_event(Key::BTN_NORTH, true));
    assert!(mapper.state().btn_triangle);
}

#[test]
fn test_process_shoulder_buttons() {
    let mut mapper = EventMapper::new();

    mapper.process_event(&make_key_event(Key::BTN_TL, true));
    assert!(mapper.state().btn_l1);

    mapper.process_event(&make_key_event(Key::BTN_TR, true));
    assert!(mapper.state().btn_r1);

    mapper.process_event(&make_key_event(Key::BTN_TL2, true));
    assert!(mapper.state().btn_l2);

    mapper.process_event(&make_key_event(Key::BTN_TR2, true));
    assert!(mapper.state().btn_r2);
}

#[test]
fn test_process_system_buttons() {
    let mut mapper = EventMapper::new();

    mapper.process_event(&make_key_event(Key::BTN_SELECT, true));
    assert!(mapper.state().btn_share);

    mapper.process_event(&make_key_event(Key::BTN_START, true));
    assert!(mapper.state().btn_options);

    mapper.process_event(&make_key_event(Key::BTN_MODE, true));
    assert!(mapper.state().btn_ps);
}

#[test]
fn test_process_stick_clicks() {
    let mut mapper = EventMapper::new();

    mapper.process_event(&make_key_event(Key::BTN_THUMBL, true));
    assert!(mapper.state().btn_l3);

    mapper.process_event(&make_key_event(Key::BTN_THUMBR, true));
    assert!(mapper.state().btn_r3);
}

#[test]
fn test_process_touchpad() {
    let mut mapper = EventMapper::new();

    mapper.process_event(&make_key_event(Key::BTN_TOUCH, true));
    assert!(mapper.state().btn_touchpad);

    mapper.process_event(&make_key_event(Key::BTN_TOUCH, false));
    assert!(!mapper.state().btn_touchpad);
}

#[test]
fn test_button_press_release_cycle() {
    let mut mapper = EventMapper::new();

    // Press L1
    mapper.process_event(&make_key_event(Key::BTN_TL, true));
    assert!(mapper.state().btn_l1);

    // Press R1 while L1 still held
    mapper.process_event(&make_key_event(Key::BTN_TR, true));
    assert!(mapper.state().btn_l1);
    assert!(mapper.state().btn_r1);

    // Release L1
    mapper.process_event(&make_key_event(Key::BTN_TL, false));
    assert!(!mapper.state().btn_l1);
    assert!(mapper.state().btn_r1);

    // Release R1
    mapper.process_event(&make_key_event(Key::BTN_TR, false));
    assert!(!mapper.state().btn_r1);
}

// ==================== Integration Tests ====================

#[test]
fn test_complex_input_sequence() {
    let mut mapper = EventMapper::new();

    // Simulate throttle up while pressing L1 (arming sequence)
    mapper.process_event(&make_axis_event(AbsoluteAxisType::ABS_Y, 0)); // Throttle up
    mapper.process_event(&make_key_event(Key::BTN_TL, true)); // L1 pressed

    assert_eq!(mapper.state().left_stick_y, 0);
    assert!(mapper.state().btn_l1);

    // Move right stick for roll
    mapper.process_event(&make_axis_event(AbsoluteAxisType::ABS_Z, 200));
    assert_eq!(mapper.state().right_stick_x, 200);

    // Press trigger
    mapper.process_event(&make_axis_event(AbsoluteAxisType::ABS_RY, 255));
    assert_eq!(mapper.state().trigger_r2, 255);
}

#[test]
fn test_state_persistence_across_events() {
    let mut mapper = EventMapper::new();

    // Set multiple values
    mapper.process_event(&make_axis_event(AbsoluteAxisType::ABS_X, 100));
    mapper.process_event(&make_axis_event(AbsoluteAxisType::ABS_Y, 150));
    mapper.process_event(&make_key_event(Key::BTN_TL, true));

    // Verify all values persist
    let state = mapper.state();
    assert_eq!(state.left_stick_x, 100);
    assert_eq!(state.left_stick_y, 150);
    assert!(state.btn_l1);

    // Modify one value
    mapper.process_event(&make_axis_event(AbsoluteAxisType::ABS_X, 200));

    // Other values should remain unchanged
    let state = mapper.state();
    assert_eq!(state.left_stick_x, 200);
    assert_eq!(state.left_stick_y, 150);
    assert!(state.btn_l1);
}

#[test]
fn test_unknown_axis_ignored() {
    let mut mapper = EventMapper::new();

    // ABS_MISC is not mapped
    let event = InputEvent::new(EventType::ABSOLUTE, AbsoluteAxisType::ABS_MISC.0, 100);
    mapper.process_event(&event);

    // State should be unchanged
    assert_eq!(*mapper.state(), ControllerState::default());
}

#[test]
fn test_sync_events_ignored() {
    let mut mapper = EventMapper::new();

    // SYN_REPORT events should be ignored
    let event = InputEvent::new(EventType::SYNCHRONIZATION, 0, 0);
    mapper.process_event(&event);

    assert_eq!(*mapper.state(), ControllerState::default());
}

// ==================== Constants Tests ====================

#[test]
fn test_axis_constants() {
    assert_eq!(AXIS_MIN, 0);
    assert_eq!(AXIS_MAX, 255);
    assert_eq!(AXIS_CENTER, 128);
}

#[test]
fn test_dpad_constants() {
    assert_eq!(DPAD_RELEASED, 0);
    assert_eq!(DPAD_NEGATIVE, -1);
    assert_eq!(DPAD_POSITIVE, 1);
}

// ==================== Edge Case Tests ====================

#[test]
fn test_axis_boundary_values() {
    let mut mapper = EventMapper::new();

    // Test minimum
    mapper.process_event(&make_axis_event(AbsoluteAxisType::ABS_X, AXIS_MIN));
    assert_eq!(mapper.state().left_stick_x, AXIS_MIN);

    // Test maximum
    mapper.process_event(&make_axis_event(AbsoluteAxisType::ABS_X, AXIS_MAX));
    assert_eq!(mapper.state().left_stick_x, AXIS_MAX);

    // Test center
    mapper.process_event(&make_axis_event(AbsoluteAxisType::ABS_X, AXIS_CENTER));
    assert_eq!(mapper.state().left_stick_x, AXIS_CENTER);
}

#[test]
fn test_controller_state_clone() {
    let mut state = ControllerState::default();
    state.btn_l1 = true;
    state.left_stick_x = 200;

    let cloned = state.clone();
    assert_eq!(state, cloned);
    assert!(cloned.btn_l1);
    assert_eq!(cloned.left_stick_x, 200);
}

#[test]
fn test_controller_state_equality() {
    let state1 = ControllerState::default();
    let state2 = ControllerState::new();
    assert_eq!(state1, state2);

    let mut state3 = ControllerState::default();
    state3.btn_l1 = true;
    assert_ne!(state1, state3);
}
