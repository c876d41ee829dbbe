//! Physics-informed training core for a tuning-fork dimension surrogate.
//!
//! A neural surrogate maps a target acoustic resonance frequency to the five
//! physical dimensions of a tuning fork.  Training is guided by a closed-form
//! cantilever-beam resonance formula plus engineering-feasibility penalties
//! rather than by labelled data.  This crate holds the verified core of that
//! setup: the physics-informed loss, the dataset generator and batcher, and
//! the epoch-driven training schedule.
//!
//! All quantities are exact fixed-point integers: dimensions in micrometres,
//! frequencies in microhertz, losses in tenths of the mixed (microhertz)^2 /
//! (micrometre)^2 unit.  The differentiable floating-point realisation of the
//! same formulas lives outside the verified library.

pub mod constants;
pub mod math;
pub mod physics;
pub mod train;
