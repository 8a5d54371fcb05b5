# pc_simulator

A ball-and-beam control simulator. The verified library (`src/`) holds the
parts of the program that do not compute on hardware floats:

- `telemetry`: the seven lockstep sliding windows behind the terminal
  dashboard (`TerminalChart`), with the law that the chart always shows exactly
  the most recent `max_points` ticks.
- `swarm`: the stagnation rule of the particle-swarm tuner
  (`StagnationMonitor`), with the law that a re-seed comes after every
  `PATIENCE` epochs in a row without improvement and at no other time.
- `control`: the branch decisions of the PID controller (anti-windup) and of
  the motor voltage mapping (deadband direction).

`app/` is the program: the float controllers and filters, the physics loop,
the randomized evaluator, the swarm tuner (threads via rayon), JSON parameter
files and the dashboard drawing. Run it with no arguments for the live
dashboard, `eval [file]` to score a gain file, or `tune` to search for gains.
