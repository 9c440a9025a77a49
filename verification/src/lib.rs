//! The drawing core of a harmonagraph: a damped two-axis oscillator whose
//! trace is sampled a fixed number of times per frame and drawn as a polyline.
//!
//! The crate keeps the discrete part of that job: the simulation clock, which
//! counts sub-steps, the append-only trace of screen points, the frame driver
//! that samples one point per sub-step, the reset, and the list of line
//! segments a full repaint has to draw. What the oscillator's parameters and
//! a point are, and how a point is computed from the parameters and a tick,
//! is left to the caller.

pub mod clock;
pub mod simulation;
pub mod trace;
