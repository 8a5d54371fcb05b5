//! Verified core of the ball-and-beam simulator: the sliding-window
//! telemetry buffer behind the terminal dashboard, the stagnation rule of
//! the particle-swarm tuner, and the discrete decision rules of the PID
//! controller and the motor driver.

pub mod control;
pub mod swarm;
pub mod telemetry;
