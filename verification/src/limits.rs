//! Machine limits under which every energy computation in the engine stays
//! inside `i128` arithmetic.
//!
//! The worst-case chain is: a squared sample, times a block of samples, times
//! the channel count, times the history length, times one sensitivity part.
//! With the bounds below that chain tops out at 2^120, comfortably inside
//! `i128`.

use vstd::prelude::*;

verus! {

/// Largest admissible sample magnitude (2^30). With a fixed-point scale of
/// 2^16 this still leaves amplitudes up to +/- 16384.0.
pub const MAX_SAMPLE_MAGNITUDE: i64 = 0x4000_0000;

/// Largest value of one squared sample (2^60): `MAX_SAMPLE_MAGNITUDE` squared.
pub const MAX_SAMPLE_SQUARE: i128 = 0x1000_0000_0000_0000;

/// Largest admissible block size, i.e. samples per channel per block (2^20).
pub const MAX_BLOCK_SIZE: usize = 0x10_0000;

/// Largest instantaneous energy of one channel (2^80):
/// `MAX_BLOCK_SIZE` times `MAX_SAMPLE_SQUARE`.
pub const MAX_BLOCK_ENERGY: i128 = 0x1_0000_0000_0000_0000_0000;

/// Largest admissible channel count (2^10).
pub const MAX_CHANNELS: usize = 0x400;

/// Largest instantaneous energy summed over all channels (2^90):
/// `MAX_CHANNELS` times `MAX_BLOCK_ENERGY`. Every stored history entry is
/// bounded by this as well.
pub const MAX_INSTANT_ENERGY: i128 = 0x400_0000_0000_0000_0000_0000;

/// Largest admissible energy-history length (2^20).
pub const MAX_HISTORY_LEN: usize = 0x10_0000;

/// Largest admissible numerator or denominator of the sensitivity ratio
/// (2^10).
pub const MAX_SENSITIVITY_PART: i128 = 0x400;

/// Largest admissible sample rate in frames per second (2^40).
pub const MAX_SAMPLE_RATE: u64 = 0x100_0000_0000;

} // verus!
