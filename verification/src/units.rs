//! The fixed-point units that the engine counts in.
use vstd::prelude::*;

verus! {

/// Playhead units in one sample of the source waveform: a position is a
/// fixed-point number with 32 fractional bits.
pub const UNITS_PER_SAMPLE: u128 = 0x1_0000_0000;

/// Half a source sample in playhead units.
pub const HALF_SAMPLE: u128 = 0x8000_0000;

/// Tempo units in one beat per minute: a tempo is held in thousandths.
pub const UNITS_PER_BPM: u64 = 1000;

/// Volume units at full volume: a volume is held in thousandths.
pub const FULL_VOLUME: u64 = 1000;

/// Seconds in one minute.
pub const SECONDS_PER_MINUTE: u64 = 60;

} // verus!
