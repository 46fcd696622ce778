//! Channel slots of the RC vector, 0-based.

use vstd::prelude::*;

verus! {

/// Roll: right stick X.
pub const ROLL: usize = 0;
/// Pitch: right stick Y.
pub const PITCH: usize = 1;
/// Throttle: left stick Y.
pub const THROTTLE: usize = 2;
/// Yaw: left stick X.
pub const YAW: usize = 3;
/// Arm switch: L1.
pub const ARM: usize = 4;
/// Flight mode: R1.
pub const FLIGHT_MODE: usize = 5;
/// Beeper: L2 trigger.
pub const BEEPER: usize = 6;
/// Turtle mode: R2 trigger.
pub const TURTLE: usize = 7;

} // verus!
