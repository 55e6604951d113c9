//! Decision logic of a one-key clock demo driven by a hinge-joint motor.
//!
//! The first press of the space key switches the physics simulation on;
//! every later press advances the clock hand by one hour, which is handed
//! to the engine as a new motor target.
pub mod clock;
pub mod laws;
