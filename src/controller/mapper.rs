//! Controller state, and the event mapper that builds it from raw input
//! events (type, code, value) as the Linux input layer reports them.

use vstd::prelude::*;

verus! {

/// Smallest raw axis value.
pub const AXIS_MIN: i32 = 0;
/// Largest raw axis value.
pub const AXIS_MAX: i32 = 255;
/// Raw value of a centered stick.
pub const AXIS_CENTER: i32 = 128;
/// D-pad released.
pub const DPAD_RELEASED: i32 = 0;
/// D-pad pressed left or up.
pub const DPAD_NEGATIVE: i32 = -1;
/// D-pad pressed right or down.
pub const DPAD_POSITIVE: i32 = 1;

/// Event type of key and button events.
pub const EV_KEY: u16 = 0x01;
/// Event type of absolute axis events.
pub const EV_ABS: u16 = 0x03;

/// Axis code of the left stick x.
pub const ABS_X: u16 = 0x00;
/// Axis code of the left stick y.
pub const ABS_Y: u16 = 0x01;
/// Axis code of the right stick x.
pub const ABS_Z: u16 = 0x02;
/// Axis code of the right stick y.
pub const ABS_RZ: u16 = 0x05;
/// Axis code of the trigger l2.
pub const ABS_RX: u16 = 0x03;
/// Axis code of the trigger r2.
pub const ABS_RY: u16 = 0x04;
/// Axis code of the dpad x.
pub const ABS_HAT0X: u16 = 0x10;
/// Axis code of the dpad y.
pub const ABS_HAT0Y: u16 = 0x11;
/// Key code of the cross button.
pub const BTN_SOUTH: u16 = 0x130;
/// Key code of the circle button.
pub const BTN_EAST: u16 = 0x131;
/// Key code of the square button.
pub const BTN_WEST: u16 = 0x134;
/// Key code of the triangle button.
pub const BTN_NORTH: u16 = 0x133;
/// Key code of the l1 button.
pub const BTN_TL: u16 = 0x136;
/// Key code of the r1 button.
pub const BTN_TR: u16 = 0x137;
/// Key code of the l2 digital click.
pub const BTN_TL2: u16 = 0x138;
/// Key code of the r2 digital click.
pub const BTN_TR2: u16 = 0x139;
/// Key code of the share button.
pub const BTN_SELECT: u16 = 0x13a;
/// Key code of the options button.
pub const BTN_START: u16 = 0x13b;
/// Key code of the ps button.
pub const BTN_MODE: u16 = 0x13c;
/// Key code of the l3.
pub const BTN_THUMBL: u16 = 0x13d;
/// Key code of the r3.
pub const BTN_THUMBR: u16 = 0x13e;
/// Key code of the touchpad click.
pub const BTN_TOUCH: u16 = 0x14a;

/// The complete state of the controller, in raw values: 0-255 for sticks
/// and triggers (128 is a centered stick), -1/0/1 for the d-pad.
#[derive(Debug, Clone, Copy, PartialEq, Eq, Structural)]
pub struct ControllerState {
    /// Left stick X (yaw): 0 full left, 255 full right.
    pub left_stick_x: i32,
    /// Left stick Y (throttle): 0 full up, 255 full down.
    pub left_stick_y: i32,
    /// Right stick X (roll): 0 full left, 255 full right.
    pub right_stick_x: i32,
    /// Right stick Y (pitch): 0 full up, 255 full down.
    pub right_stick_y: i32,
    /// L2 trigger: 0 released, 255 fully pressed.
    pub trigger_l2: i32,
    /// R2 trigger: 0 released, 255 fully pressed.
    pub trigger_r2: i32,
    /// D-pad X: -1 left, 0 center, 1 right.
    pub dpad_x: i32,
    /// D-pad Y: -1 up, 0 center, 1 down.
    pub dpad_y: i32,
    /// Cross button.
    pub btn_cross: bool,
    /// Circle button.
    pub btn_circle: bool,
    /// Square button.
    pub btn_square: bool,
    /// Triangle button.
    pub btn_triangle: bool,
    /// L1 button (arm switch).
    pub btn_l1: bool,
    /// R1 button (flight mode).
    pub btn_r1: bool,
    /// L2 digital click.
    pub btn_l2: bool,
    /// R2 digital click.
    pub btn_r2: bool,
    /// Share button.
    pub btn_share: bool,
    /// Options button.
    pub btn_options: bool,
    /// PS button.
    pub btn_ps: bool,
    /// L3 (left stick click).
    pub btn_l3: bool,
    /// R3 (right stick click).
    pub btn_r3: bool,
    /// Touchpad click.
    pub btn_touchpad: bool,
}

/// Sticks centered, triggers and d-pad released, no button pressed.
pub open spec fn centered_state() -> ControllerState {
    ControllerState {
        left_stick_x: AXIS_CENTER,
        left_stick_y: AXIS_CENTER,
        right_stick_x: AXIS_CENTER,
        right_stick_y: AXIS_CENTER,
        trigger_l2: AXIS_MIN,
        trigger_r2: AXIS_MIN,
        dpad_x: DPAD_RELEASED,
        dpad_y: DPAD_RELEASED,
        btn_cross: false,
        btn_circle: false,
        btn_square: false,
        btn_triangle: false,
        btn_l1: false,
        btn_r1: false,
        btn_l2: false,
        btn_r2: false,
        btn_share: false,
        btn_options: false,
        btn_ps: false,
        btn_l3: false,
        btn_r3: false,
        btn_touchpad: false,
    }
}

/// The state after one raw event: an axis event sets the value of its axis,
/// a key event sets its button to pressed when the value is not 0; events
/// of other types or codes leave the state as it is.
pub open spec fn apply_event(s: ControllerState, event_type: u16, code: u16, value: i32) -> ControllerState {
    if event_type == EV_ABS {
        if code == ABS_X {
            ControllerState { left_stick_x: value, ..s }
        } else if code == ABS_Y {
            ControllerState { left_stick_y: value, ..s }
        } else if code == ABS_Z {
            ControllerState { right_stick_x: value, ..s }
        } else if code == ABS_RZ {
            ControllerState { right_stick_y: value, ..s }
        } else if code == ABS_RX {
            ControllerState { trigger_l2: value, ..s }
        } else if code == ABS_RY {
            ControllerState { trigger_r2: value, ..s }
        } else if code == ABS_HAT0X {
            ControllerState { dpad_x: value, ..s }
        } else if code == ABS_HAT0Y {
            ControllerState { dpad_y: value, ..s }
        } else {
            s
        }
    } else if event_type == EV_KEY {
        if code == BTN_SOUTH {
            ControllerState { btn_cross: value != 0, ..s }
        } else if code == BTN_EAST {
            ControllerState { btn_circle: value != 0, ..s }
        } else if code == BTN_WEST {
            ControllerState { btn_square: value != 0, ..s }
        } else if code == BTN_NORTH {
            ControllerState { btn_triangle: value != 0, ..s }
        } else if code == BTN_TL {
            ControllerState { btn_l1: value != 0, ..s }
        } else if code == BTN_TR {
            ControllerState { btn_r1: value != 0, ..s }
        } else if code == BTN_TL2 {
            ControllerState { btn_l2: value != 0, ..s }
        } else if code == BTN_TR2 {
            ControllerState { btn_r2: value != 0, ..s }
        } else if code == BTN_SELECT {
            ControllerState { btn_share: value != 0, ..s }
        } else if code == BTN_START {
            ControllerState { btn_options: value != 0, ..s }
        } else if code == BTN_MODE {
            ControllerState { btn_ps: value != 0, ..s }
        } else if code == BTN_THUMBL {
            ControllerState { btn_l3: value != 0, ..s }
        } else if code == BTN_THUMBR {
            ControllerState { btn_r3: value != 0, ..s }
        } else if code == BTN_TOUCH {
            ControllerState { btn_touchpad: value != 0, ..s }
        } else {
            s
        }
    } else {
        s
    }
}

/// Distance of a raw stick value from center.
pub open spec fn off_center(v: i32) -> int {
    if v >= AXIS_CENTER {
        v - AXIS_CENTER
    } else {
        AXIS_CENTER - v
    }
}

fn distance_from_center(v: i32) -> (r: i64)
    ensures
        r == off_center(v),
{
    let d = v as i64 - AXIS_CENTER as i64;
    if d < 0 {
        -d
    } else {
        d
    }
}

impl Default for ControllerState {
    fn default() -> (r: ControllerState)
        ensures
            r == centered_state(),
    {
        ControllerState {
            left_stick_x: AXIS_CENTER,
            left_stick_y: AXIS_CENTER,
            right_stick_x: AXIS_CENTER,
            right_stick_y: AXIS_CENTER,
            trigger_l2: AXIS_MIN,
            trigger_r2: AXIS_MIN,
            dpad_x: DPAD_RELEASED,
            dpad_y: DPAD_RELEASED,
            btn_cross: false,
            btn_circle: false,
            btn_square: false,
            btn_triangle: false,
            btn_l1: false,
            btn_r1: false,
            btn_l2: false,
            btn_r2: false,
            btn_share: false,
            btn_options: false,
            btn_ps: false,
            btn_l3: false,
            btn_r3: false,
            btn_touchpad: false,
        }
    }
}

impl ControllerState {
    /// A state with sticks centered and everything released.
    pub fn new() -> (r: ControllerState)
        ensures
            r == centered_state(),
    {
        ControllerState::default()
    }

    /// Whether some stick is further than `threshold` from center.
    pub fn any_stick_moved(&self, threshold: i32) -> (r: bool)
        ensures
            r == (off_center(self.left_stick_x) > threshold || off_center(self.left_stick_y)
                > threshold || off_center(self.right_stick_x) > threshold || off_center(
                self.right_stick_y,
            ) > threshold),
    {
        let t = threshold as i64;
        distance_from_center(self.left_stick_x) > t || distance_from_center(self.left_stick_y) > t
            || distance_from_center(self.right_stick_x) > t || distance_from_center(
            self.right_stick_y,
        ) > t
    }

    /// Whether some button is pressed.
    pub fn any_button_pressed(&self) -> (r: bool)
        ensures
            r == (self.btn_cross || self.btn_circle || self.btn_square || self.btn_triangle || self.btn_l1 || self.btn_r1 || self.btn_l2 || self.btn_r2 || self.btn_share || self.btn_options || self.btn_ps || self.btn_l3 || self.btn_r3 || self.btn_touchpad),
    {
        self.btn_cross
            || self.btn_circle
            || self.btn_square
            || self.btn_triangle
            || self.btn_l1
            || self.btn_r1
            || self.btn_l2
            || self.btn_r2
            || self.btn_share
            || self.btn_options
            || self.btn_ps
            || self.btn_l3
            || self.btn_r3
            || self.btn_touchpad
    }

    /// Whether some trigger is pressed beyond `threshold`.
    pub fn any_trigger_pressed(&self, threshold: i32) -> (r: bool)
        ensures
            r == (self.trigger_l2 > threshold || self.trigger_r2 > threshold),
    {
        self.trigger_l2 > threshold || self.trigger_r2 > threshold
    }
}

/// Relies on `evdev::InputEvent`, an input event read from the device,
/// carried through opaquely and read only by the three accessors below.
#[verifier::external_type_specification]
#[verifier::external_body]
pub struct ExInputEvent(evdev::InputEvent);

/// Relies on `evdev::InputEvent::code`, which returns the raw code field.
pub assume_specification[ evdev::InputEvent::code ](event: &evdev::InputEvent) -> u16;

/// Relies on `evdev::InputEvent::value`, which returns the raw value field.
pub assume_specification[ evdev::InputEvent::value ](event: &evdev::InputEvent) -> i32;

/// Relies on `evdev::InputEvent::event_type`, whose `EventType` holds the
/// raw type field in its public field.
#[verifier::external_body]
fn event_type_code(event: &evdev::InputEvent) -> u16 {
    event.event_type().0
}

/// Accumulates input events into a controller state.
#[derive(Debug)]
pub struct EventMapper {
    state: ControllerState,
}

impl View for EventMapper {
    type V = ControllerState;

    closed spec fn view(&self) -> ControllerState {
        self.state
    }
}

impl Default for EventMapper {
    fn default() -> (r: EventMapper)
        ensures
            r@ == centered_state(),
    {
        EventMapper::new()
    }
}

impl EventMapper {
    /// A mapper whose state is centered and released.
    pub fn new() -> (r: EventMapper)
        ensures
            r@ == centered_state(),
    {
        EventMapper { state: ControllerState::default() }
    }

    /// The current state.
    pub fn state(&self) -> (r: &ControllerState)
        ensures
            *r == self@,
    {
        &self.state
    }

    /// A copy of the current state.
    pub fn state_snapshot(&self) -> (r: ControllerState)
        ensures
            r == self@,
    {
        self.state
    }

    /// Applies one raw event given by its type, code and value.
    pub fn process_raw_event(&mut self, event_type: u16, code: u16, value: i32)
        ensures
            final(self)@ == apply_event(old(self)@, event_type, code, value),
    {
        if event_type == EV_ABS {
            self.process_axis_event(code, value);
        } else if event_type == EV_KEY {
            self.process_key_event(code, value != 0);
        }
    }

    /// Applies one input event read from the device.
    pub fn process_event(&mut self, event: &evdev::InputEvent)
        ensures
            exists|t: u16, c: u16, v: i32| final(self)@ == apply_event(old(self)@, t, c, v),
    {
        let event_type = event_type_code(event);
        let code = event.code();
        let value = event.value();
        self.process_raw_event(event_type, code, value);
    }

    fn process_axis_event(&mut self, code: u16, value: i32)
        ensures
            final(self)@ == apply_event(old(self)@, EV_ABS, code, value),
    {
        if code == ABS_X {
            self.state = ControllerState { left_stick_x: value, ..self.state };
        } else if code == ABS_Y {
            self.state = ControllerState { left_stick_y: value, ..self.state };
        } else if code == ABS_Z {
            self.state = ControllerState { right_stick_x: value, ..self.state };
        } else if code == ABS_RZ {
            self.state = ControllerState { right_stick_y: value, ..self.state };
        } else if code == ABS_RX {
            self.state = ControllerState { trigger_l2: value, ..self.state };
        } else if code == ABS_RY {
            self.state = ControllerState { trigger_r2: value, ..self.state };
        } else if code == ABS_HAT0X {
            self.state = ControllerState { dpad_x: value, ..self.state };
        } else if code == ABS_HAT0Y {
            self.state = ControllerState { dpad_y: value, ..self.state };
        }
    }

    fn process_key_event(&mut self, code: u16, pressed: bool)
        ensures
            forall|v: i32|
                (v != 0) == pressed ==> final(self)@ == #[trigger] apply_event(old(self)@, EV_KEY, code, v),
    {
        if code == BTN_SOUTH {
            self.state = ControllerState { btn_cross: pressed, ..self.state };
        } else if code == BTN_EAST {
            self.state = ControllerState { btn_circle: pressed, ..self.state };
        } else if code == BTN_WEST {
            self.state = ControllerState { btn_square: pressed, ..self.state };
        } else if code == BTN_NORTH {
            self.state = ControllerState { btn_triangle: pressed, ..self.state };
        } else if code == BTN_TL {
            self.state = ControllerState { btn_l1: pressed, ..self.state };
        } else if code == BTN_TR {
            self.state = ControllerState { btn_r1: pressed, ..self.state };
        } else if code == BTN_TL2 {
            self.state = ControllerState { btn_l2: pressed, ..self.state };
        } else if code == BTN_TR2 {
            self.state = ControllerState { btn_r2: pressed, ..self.state };
        } else if code == BTN_SELECT {
            self.state = ControllerState { btn_share: pressed, ..self.state };
        } else if code == BTN_START {
            self.state = ControllerState { btn_options: pressed, ..self.state };
        } else if code == BTN_MODE {
            self.state = ControllerState { btn_ps: pressed, ..self.state };
        } else if code == BTN_THUMBL {
            self.state = ControllerState { btn_l3: pressed, ..self.state };
        } else if code == BTN_THUMBR {
            self.state = ControllerState { btn_r3: pressed, ..self.state };
        } else if code == BTN_TOUCH {
            self.state = ControllerState { btn_touchpad: pressed, ..self.state };
        }
    }

    /// Returns to the centered, released state.
    pub fn reset(&mut self)
        ensures
            final(self)@ == centered_state(),
    {
        self.state = ControllerState::default();
    }
}

} // verus!
