//! The discrete decisions of the controller and the motor driver.
//!
//! The arithmetic of the PID loop and of the voltage mapping runs on
//! hardware floats, outside this crate; what it hands in here are the
//! outcomes of its comparisons, and what it gets back is which branch of the
//! control law applies.

use vstd::prelude::*;

verus! {

/// Anti-windup: whether the integral term may accumulate this tick.
///
/// The integrator is frozen while the unclamped output already sits at or
/// beyond the upper limit and the error still pushes upwards, or sits at or
/// beyond the lower limit and the error still pushes downwards.  In every
/// other case it integrates.
pub fn integrator_enabled(
    output_at_or_above_max: bool,
    error_positive: bool,
    output_at_or_below_min: bool,
    error_negative: bool,
) -> (enabled: bool)
    ensures
        enabled == !((output_at_or_above_max && error_positive) || (output_at_or_below_min
            && error_negative)),
{
    let is_hitting_max = output_at_or_above_max && error_positive;
    let is_hitting_min = output_at_or_below_min && error_negative;
    !is_hitting_max && !is_hitting_min
}

/// Which branch of the voltage mapping applies to an effort.
#[derive(Clone, Copy, PartialEq, Eq, Debug)]
pub enum MotorAdjust {
    /// The effort is exactly zero: the motor gets no voltage at all.
    Off,
    /// Positive voltage: the deadband is added on top.
    AddDeadband,
    /// Negative voltage: the deadband is subtracted.
    SubtractDeadband,
    /// Neither sign (the scaled voltage came out as zero or not a number):
    /// the voltage passes through unchanged.
    Unchanged,
}

/// Picks the branch of the voltage mapping: zero effort switches the motor
/// off; otherwise the deadband is added in the direction of the scaled
/// voltage, so that small efforts still overcome static friction.
pub fn motor_adjustment(
    effort_is_zero: bool,
    voltage_positive: bool,
    voltage_negative: bool,
) -> (adjust: MotorAdjust)
    ensures
        adjust == (if effort_is_zero {
            MotorAdjust::Off
        } else if voltage_positive {
            MotorAdjust::AddDeadband
        } else if voltage_negative {
            MotorAdjust::SubtractDeadband
        } else {
            MotorAdjust::Unchanged
        }),
{
    if effort_is_zero {
        MotorAdjust::Off
    } else if voltage_positive {
        MotorAdjust::AddDeadband
    } else if voltage_negative {
        MotorAdjust::SubtractDeadband
    } else {
        MotorAdjust::Unchanged
    }
}

} // verus!
