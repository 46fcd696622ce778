//! Maps the controller state to the 16 RC channel values.
//!
//! Sticks and triggers (raw 0-255) scale to 0-2047, rounding to nearest;
//! pitch and throttle are inverted so that pushing the stick up raises the
//! value. Buttons give 0 or 2047. Channels without an input stay at 1024.
//! Every channel in the reversal set then has its value `v` replaced by
//! `2047 - v`.

use vstd::prelude::*;
use super::channels::{ARM, BEEPER, FLIGHT_MODE, PITCH, ROLL, THROTTLE, TURTLE, YAW};
use super::mapper::{ControllerState, AXIS_MAX, AXIS_MIN};
use crate::crsf::encoder::{clamp_channel_value, clamp_spec};
use crate::crsf::protocol::{
    RcChannels, CRSF_CHANNEL_VALUE_CENTER, CRSF_CHANNEL_VALUE_MAX, CRSF_CHANNEL_VALUE_MIN,
    CRSF_NUM_CHANNELS,
};

verus! {

/// Channel value of a released switch.
pub const SWITCH_OFF: u16 = CRSF_CHANNEL_VALUE_MIN;

/// Channel value of a pressed switch.
pub const SWITCH_ON: u16 = CRSF_CHANNEL_VALUE_MAX;

/// A raw axis value limited to 0..=255.
pub open spec fn clamp_axis(v: int) -> int {
    if v < AXIS_MIN {
        AXIS_MIN as int
    } else if v > AXIS_MAX {
        AXIS_MAX as int
    } else {
        v
    }
}

/// A raw axis value scaled to the channel range, rounded to nearest:
/// `round(clamp(v) * 2047 / 255)`.
pub open spec fn axis_to_channel(v: int) -> int {
    (clamp_axis(v) * 2047 + 127) / 255
}

/// The switch value of a button.
pub open spec fn button_to_channel(pressed: bool) -> int {
    if pressed {
        SWITCH_ON as int
    } else {
        SWITCH_OFF as int
    }
}

/// Channel `i` of a state before reversal.
pub open spec fn unreversed_channel(s: ControllerState, i: int) -> int {
    if i == ROLL {
        axis_to_channel(s.right_stick_x as int)
    } else if i == PITCH {
        axis_to_channel(AXIS_MAX - s.right_stick_y)
    } else if i == THROTTLE {
        axis_to_channel(AXIS_MAX - s.left_stick_y)
    } else if i == YAW {
        axis_to_channel(s.left_stick_x as int)
    } else if i == ARM {
        button_to_channel(s.btn_l1)
    } else if i == FLIGHT_MODE {
        button_to_channel(s.btn_r1)
    } else if i == BEEPER {
        axis_to_channel(s.trigger_l2 as int)
    } else if i == TURTLE {
        axis_to_channel(s.trigger_r2 as int)
    } else {
        CRSF_CHANNEL_VALUE_CENTER as int
    }
}

/// Channel `i` of a state under the reversal set `reversed` (indexed 0..16).
pub open spec fn mapped_channel(reversed: Seq<bool>, s: ControllerState, i: int) -> int {
    if reversed[i] {
        CRSF_CHANNEL_VALUE_MAX - unreversed_channel(s, i)
    } else {
        unreversed_channel(s, i)
    }
}

/// Slot `i` of a vector assembled from ready channel values and buttons,
/// before clamping and reversal.
pub open spec fn assembled_slot(
    roll: u16,
    pitch: u16,
    throttle: u16,
    yaw: u16,
    arm: bool,
    flight_mode: bool,
    beeper: u16,
    turtle: u16,
    i: int,
) -> u16 {
    if i == ROLL {
        roll
    } else if i == PITCH {
        pitch
    } else if i == THROTTLE {
        throttle
    } else if i == YAW {
        yaw
    } else if i == ARM {
        button_to_channel(arm) as u16
    } else if i == FLIGHT_MODE {
        button_to_channel(flight_mode) as u16
    } else if i == BEEPER {
        beeper
    } else if i == TURTLE {
        turtle
    } else {
        CRSF_CHANNEL_VALUE_CENTER
    }
}

proof fn lemma_axis_to_channel_in_range(v: int)
    ensures
        0 <= axis_to_channel(v) <= 2047,
{
    let c = clamp_axis(v);
    assert(0 <= (c * 2047 + 127) / 255 <= 2047) by (nonlinear_arith)
        requires
            0 <= c <= 255,
    ;
}

/// Every channel before reversal lies in 0..=2047.
pub proof fn lemma_unreversed_in_range(s: ControllerState, i: int)
    ensures
        0 <= unreversed_channel(s, i) <= 2047,
{
    lemma_axis_to_channel_in_range(s.right_stick_x as int);
    lemma_axis_to_channel_in_range(AXIS_MAX - s.right_stick_y);
    lemma_axis_to_channel_in_range(AXIS_MAX - s.left_stick_y);
    lemma_axis_to_channel_in_range(s.left_stick_x as int);
    lemma_axis_to_channel_in_range(s.trigger_l2 as int);
    lemma_axis_to_channel_in_range(s.trigger_r2 as int);
}

/// Maps controller states to RC channels under a set of reversed channels.
#[derive(Debug, Clone)]
pub struct ChannelMapper {
    reversed_channels: [bool; 16],
}

impl View for ChannelMapper {
    /// Whether each of the 16 channels (0-based) is reversed.
    type V = Seq<bool>;

    closed spec fn view(&self) -> Seq<bool> {
        self.reversed_channels@
    }
}

impl Default for ChannelMapper {
    fn default() -> (r: ChannelMapper)
        ensures
            r@.len() == 16,
            forall|i: int| 0 <= i < 16 ==> !r@[i],
    {
        ChannelMapper::new()
    }
}

impl ChannelMapper {
    /// A mapper that reverses no channel.
    pub fn new() -> (r: ChannelMapper)
        ensures
            r@.len() == 16,
            forall|i: int| 0 <= i < 16 ==> !r@[i],
    {
        ChannelMapper { reversed_channels: [false; 16] }
    }

    /// A mapper whose reversal set holds the slots listed in `reversed`,
    /// counted from 0; values of 16 or more are ignored.
    pub fn with_reversed(reversed: &[usize]) -> (r: ChannelMapper)
        ensures
            r@.len() == 16,
            forall|i: int|
                0 <= i < 16 ==> (r@[i] <==> exists|k: int|
                    0 <= k < reversed@.len() && #[trigger] reversed@[k] == i),
    {
        let mut reversed_channels = [false; 16];
        let mut k: usize = 0;
        while k < reversed.len()
            invariant
                k <= reversed@.len(),
                forall|i: int|
                    0 <= i < 16 ==> (reversed_channels@[i] <==> exists|j: int|
                        0 <= j < k && #[trigger] reversed@[j] == i),
            decreases reversed.len() - k,
        {
            let ch = reversed[k];
            if ch < CRSF_NUM_CHANNELS {
                reversed_channels[ch] = true;
            }
            proof {
                assert forall|i: int|
                    0 <= i < 16 implies (reversed_channels@[i] <==> exists|j: int|
                        0 <= j < k + 1 && #[trigger] reversed@[j] == i) by {
                    if reversed@[k as int] == i {
                        assert(reversed@[k as int] == i);
                    }
                }
            }
            k += 1;
        }
        ChannelMapper { reversed_channels }
    }

    /// Whether channel slot `channel` (0-based) is reversed.
    pub fn is_reversed(&self, channel: usize) -> (r: bool)
        requires
            channel < 16,
        ensures
            r == self@[channel as int],
    {
        self.reversed_channels[channel]
    }

    /// Maps a state to the 16 channel values.
    pub fn map_to_channels(&self, state: &ControllerState) -> (r: RcChannels)
        ensures
            forall|i: int| 0 <= i < 16 ==> r@[i] == mapped_channel(self@, *state, i),
            forall|i: int| 0 <= i < 16 ==> r@[i] <= CRSF_CHANNEL_VALUE_MAX,
    {
        let mut channels: RcChannels = [CRSF_CHANNEL_VALUE_CENTER; 16];
        channels[ROLL] = Self::scale_axis_to_crsf(state.right_stick_x);
        channels[PITCH] = Self::scale_axis_inverted(state.right_stick_y);
        channels[THROTTLE] = Self::scale_axis_inverted(state.left_stick_y);
        channels[YAW] = Self::scale_axis_to_crsf(state.left_stick_x);
        channels[ARM] = Self::button_value(state.btn_l1);
        channels[FLIGHT_MODE] = Self::button_value(state.btn_r1);
        channels[BEEPER] = Self::scale_axis_to_crsf(state.trigger_l2);
        channels[TURTLE] = Self::scale_axis_to_crsf(state.trigger_r2);
        let mut i: usize = 0;
        while i < CRSF_NUM_CHANNELS
            invariant
                i <= 16,
                self@.len() == 16,
                forall|k: int| 0 <= k < i ==> channels@[k] == mapped_channel(self@, *state, k),
                forall|k: int| 0 <= k < i ==> channels@[k] <= CRSF_CHANNEL_VALUE_MAX,
                forall|k: int| i <= k < 16 ==> channels@[k] == unreversed_channel(*state, k),
            decreases 16 - i,
        {
            proof {
                lemma_unreversed_in_range(*state, i as int);
            }
            let value = channels[i];
            channels[i] = self.apply_reverse(value, i);
            i += 1;
        }
        channels
    }

    /// Applies the reversal set to a vector that is already mapped: each
    /// value is first clamped to 0..=2047, then reversed channels get
    /// `2047 - v`.
    pub fn reverse_channels(&self, channels: &RcChannels) -> (r: RcChannels)
        ensures
            forall|i: int|
                0 <= i < 16 ==> r@[i] == if self@[i] {
                    CRSF_CHANNEL_VALUE_MAX - clamp_spec(channels@[i])
                } else {
                    clamp_spec(channels@[i]) as int
                },
    {
        let mut out: RcChannels = *channels;
        let mut i: usize = 0;
        while i < CRSF_NUM_CHANNELS
            invariant
                i <= 16,
                self@.len() == 16,
                forall|k: int|
                    0 <= k < i ==> out@[k] == if self@[k] {
                        CRSF_CHANNEL_VALUE_MAX - clamp_spec(channels@[k])
                    } else {
                        clamp_spec(channels@[k]) as int
                    },
                forall|k: int| i <= k < 16 ==> out@[k] == channels@[k],
            decreases 16 - i,
        {
            let value = clamp_channel_value(out[i]);
            out[i] = self.apply_reverse(value, i);
            i += 1;
        }
        out
    }

    /// Builds the channel vector from axis and trigger values that are
    /// already channel values and from the two switch buttons: roll, pitch,
    /// throttle and yaw in slots 0-3, arm and flight mode as 0 or 2047 in
    /// slots 4-5, beeper and turtle in slots 6-7, 1024 elsewhere; then
    /// clamps every value to 0..=2047 and applies the reversal set.
    pub fn assemble_channels(
        &self,
        roll: u16,
        pitch: u16,
        throttle: u16,
        yaw: u16,
        arm: bool,
        flight_mode: bool,
        beeper: u16,
        turtle: u16,
    ) -> (r: RcChannels)
        ensures
            forall|i: int|
                0 <= i < 16 ==> {
                    let v = clamp_spec(
                        assembled_slot(roll, pitch, throttle, yaw, arm, flight_mode, beeper, turtle, i),
                    );
                    #[trigger] r@[i] == if self@[i] {
                        CRSF_CHANNEL_VALUE_MAX - v
                    } else {
                        v as int
                    }
                },
    {
        let mut channels: RcChannels = [CRSF_CHANNEL_VALUE_CENTER; 16];
        channels[ROLL] = roll;
        channels[PITCH] = pitch;
        channels[THROTTLE] = throttle;
        channels[YAW] = yaw;
        channels[ARM] = Self::button_value(arm);
        channels[FLIGHT_MODE] = Self::button_value(flight_mode);
        channels[BEEPER] = beeper;
        channels[TURTLE] = turtle;
        self.reverse_channels(&channels)
    }

    /// Scales a raw axis value to the channel range: clamps it to 0..=255,
    /// then `(v * 2047 + 127) / 255`.
    pub fn scale_axis_to_crsf(value: i32) -> (r: u16)
        ensures
            r == axis_to_channel(value as int),
    {
        let clamped: i32 = if value < AXIS_MIN {
            AXIS_MIN
        } else if value > AXIS_MAX {
            AXIS_MAX
        } else {
            value
        };
        proof {
            lemma_axis_to_channel_in_range(value as int);
        }
        let scaled: u32 = ((clamped as u32) * (CRSF_CHANNEL_VALUE_MAX as u32) + 127) / 255;
        scaled as u16
    }

    /// Scales an axis whose raw direction is upside down: `255 - value`.
    fn scale_axis_inverted(value: i32) -> (r: u16)
        ensures
            r == axis_to_channel(AXIS_MAX - value),
    {
        let clamped: i32 = if value < AXIS_MIN {
            AXIS_MIN
        } else if value > AXIS_MAX {
            AXIS_MAX
        } else {
            value
        };
        Self::scale_axis_to_crsf(AXIS_MAX - clamped)
    }

    /// The switch value of a button.
    fn button_value(pressed: bool) -> (r: u16)
        ensures
            r == button_to_channel(pressed),
    {
        if pressed {
            SWITCH_ON
        } else {
            SWITCH_OFF
        }
    }

    /// Reverses `value` when `channel` is in the reversal set.
    fn apply_reverse(&self, value: u16, channel: usize) -> (r: u16)
        requires
            channel < 16,
            value <= CRSF_CHANNEL_VALUE_MAX,
        ensures
            r == if self@[channel as int] {
                CRSF_CHANNEL_VALUE_MAX - value
            } else {
                value as int
            },
    {
        if self.reversed_channels[channel] {
            CRSF_CHANNEL_VALUE_MAX - value
        } else {
            value
        }
    }
}

/// Reversing a channel turns its value `v` into `2047 - v`: two mappers
/// that differ only in whether channel `i` is reversed, with `i` reversed
/// in `with`, give `v` and `2047 - v` there from the same state, and the
/// same value on every other channel.
pub proof fn lemma_reversal_mirrors_channel(
    without: Seq<bool>,
    with: Seq<bool>,
    s: ControllerState,
    i: int,
)
    requires
        without.len() == 16,
        with.len() == 16,
        0 <= i < 16,
        !without[i],
        with[i],
        forall|k: int| 0 <= k < 16 && k != i ==> without[k] == with[k],
    ensures
        mapped_channel(with, s, i) == CRSF_CHANNEL_VALUE_MAX - mapped_channel(without, s, i),
        0 <= mapped_channel(without, s, i) <= 2047,
        forall|k: int|
            0 <= k < 16 && k != i ==> #[trigger] mapped_channel(with, s, k) == mapped_channel(
                without,
                s,
                k,
            ),
{
    lemma_unreversed_in_range(s, i);
}

} // verus!
