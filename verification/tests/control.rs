use pc_simulator::control::{integrator_enabled, motor_adjustment, MotorAdjust};

#[test]
fn integrator_runs_inside_the_limits() {
    assert!(integrator_enabled(false, true, false, false));
    assert!(integrator_enabled(false, false, false, true));
    assert!(integrator_enabled(false, false, false, false));
}

#[test]
fn integrator_freezes_when_pushing_into_the_upper_limit() {
    assert!(!integrator_enabled(true, true, false, false));
}

#[test]
fn integrator_freezes_when_pushing_into_the_lower_limit() {
    assert!(!integrator_enabled(false, false, true, true));
}

#[test]
fn integrator_unwinds_when_error_points_away_from_the_limit() {
    // Saturated high but the error is negative: integrating pulls back.
    assert!(integrator_enabled(true, false, false, true));
    // Saturated low but the error is positive.
    assert!(integrator_enabled(false, true, true, false));
}

#[test]
fn zero_effort_switches_the_motor_off() {
    assert_eq!(motor_adjustment(true, false, false), MotorAdjust::Off);
    assert_eq!(motor_adjustment(true, true, false), MotorAdjust::Off);
}

#[test]
fn deadband_follows_the_sign_of_the_voltage() {
    assert_eq!(motor_adjustment(false, true, false), MotorAdjust::AddDeadband);
    assert_eq!(motor_adjustment(false, false, true), MotorAdjust::SubtractDeadband);
    assert_eq!(motor_adjustment(false, false, false), MotorAdjust::Unchanged);
}
