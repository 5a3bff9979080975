//! Positions of an SG90 servo motor and the pulse widths that select them.
//!
//! The motor expects one pulse in every period of 20 ms; the width of the
//! pulse sets the angle. Widths and period are kept in whole microseconds,
//! so the duty cycle of a position is `pulse_width_us / SG90_MOTOR_PERIOD_US`.

use vstd::prelude::*;

verus! {

/// Length of one control period, in microseconds.
pub const SG90_MOTOR_PERIOD_US: u32 = 20_000;

/// Control periods per second.
pub const SG90_MOTOR_FREQUENCY_HZ: u32 = 50;

/// Pulse width of the position at 0 degrees, in microseconds.
pub const SG90_MOTOR_INIT_POSITION_PULSE_US: u32 = 1_500;

/// Pulse width of the position at -90 degrees, in microseconds.
pub const SG90_MOTOR_NEGATIVE_90_DEGREE_PULSE_US: u32 = 2_400;

/// Pulse width of the position at 90 degrees, in microseconds.
pub const SG90_MOTOR_POSITIVE_90_DEGREE_PULSE_US: u32 = 500;

/// Time that the motor is given to reach the position at 0 degrees after it
/// has been switched on, in milliseconds.
pub const SG90_MOTOR_SETTLE_MS: u64 = 250;

/// A position that the motor can be sent to.
#[derive(Debug, Clone, Copy, PartialEq, Eq, Structural)]
pub enum SG90ServoMotorInitPosition {
    Init,
    Negative90Degree,
    Positive90Degree,
}

impl SG90ServoMotorInitPosition {
    /// Width of the pulse that selects this position, in microseconds.
    pub open spec fn spec_pulse_width_us(&self) -> u32 {
        match self {
            SG90ServoMotorInitPosition::Init => SG90_MOTOR_INIT_POSITION_PULSE_US,
            SG90ServoMotorInitPosition::Negative90Degree => SG90_MOTOR_NEGATIVE_90_DEGREE_PULSE_US,
            SG90ServoMotorInitPosition::Positive90Degree => SG90_MOTOR_POSITIVE_90_DEGREE_PULSE_US,
        }
    }

    /// Width of the pulse that selects this position, in microseconds. It is
    /// shorter than the period, so the duty cycle lies strictly between 0
    /// and 1.
    #[verifier::when_used_as_spec(spec_pulse_width_us)]
    pub fn pulse_width_us(&self) -> (width: u32)
        ensures
            width == self.spec_pulse_width_us(),
            0 < width < SG90_MOTOR_PERIOD_US,
    {
        match self {
            SG90ServoMotorInitPosition::Init => SG90_MOTOR_INIT_POSITION_PULSE_US,
            SG90ServoMotorInitPosition::Negative90Degree => SG90_MOTOR_NEGATIVE_90_DEGREE_PULSE_US,
            SG90ServoMotorInitPosition::Positive90Degree => SG90_MOTOR_POSITIVE_90_DEGREE_PULSE_US,
        }
    }

    /// Whether a motor that has just been switched on, and so stands at 0
    /// degrees, still has to be moved to reach this position.
    pub fn needs_move_after_start(&self) -> (needed: bool)
        ensures
            needed == !(*self is Init),
    {
        match self {
            SG90ServoMotorInitPosition::Init => false,
            _ => true,
        }
    }
}

/// The position to send a gate motor to when the button is pressed: a closed
/// gate opens (90 degrees), an open gate closes (0 degrees).
pub fn gate_target(gate_is_open: bool) -> (target: SG90ServoMotorInitPosition)
    ensures
        target == if gate_is_open {
            SG90ServoMotorInitPosition::Init
        } else {
            SG90ServoMotorInitPosition::Positive90Degree
        },
{
    if gate_is_open {
        SG90ServoMotorInitPosition::Init
    } else {
        SG90ServoMotorInitPosition::Positive90Degree
    }
}

/// The control periods of one second fill it exactly.
pub proof fn lemma_period_matches_frequency()
    ensures
        SG90_MOTOR_PERIOD_US * SG90_MOTOR_FREQUENCY_HZ == 1_000_000,
{
}

} // verus!
