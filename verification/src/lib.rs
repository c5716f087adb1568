//! Calibration library for six-joint robotic arms.
//!
//! Raw actuator encoder readings are decoded into signed angles, rounded to
//! the nearest quarter-turn, compared against two fixed reference poses to
//! resolve per-joint direction inversion, and combined into homing-offset
//! corrections. A sequential state machine drives the whole two-pose
//! procedure; the serial transport itself is operated by the caller, which
//! feeds read results and acknowledgements back into the machine.

pub mod codec;
pub mod config;
pub mod corrector;
pub mod orchestrator;
pub mod poses;
pub mod quantizer;
pub mod resolver;
