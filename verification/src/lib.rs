//! A beat-energy detection engine for multi-channel audio.
//!
//! Samples are fixed-point amplitudes (plain integers in a caller-chosen
//! scale); energies are exact sums of squares of those integers, and the
//! detection threshold is an exact rational, so every quantity the engine
//! computes is pinned down precisely by its contract.

pub mod accumulator;
pub mod arith;
pub mod circular;
pub mod detector;
pub mod limits;
