//! Coordination of a line of moving platforms on a closed circular track.
//!
//! A central authority (the centre) waits for every platform to report
//! readiness, then broadcasts a synchronized start signal.  Each platform runs
//! a control loop that reads its own and its two neighbours' kinematic state,
//! computes a target acceleration from a track-section speed profile, applies
//! it, and reports safety alerts back to the centre.
//!
//! All quantities are integers in fixed-point units: a length unit, a time
//! unit, and the derived speed (length per time) and acceleration (length per
//! time squared) units.  Callers pick the physical scale; the contracts are
//! exact in whatever units are chosen.

pub mod centre;
pub mod common;
pub mod controller;
pub mod kinematics;
pub mod monitor;
pub mod protocol;
pub mod ring;
pub mod track;
