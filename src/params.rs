//! Value domains of the parameters handed to the engine.
use vstd::prelude::*;

verus! {

/// Channel layout of rendered audio.
#[derive(Clone, Copy, Debug, PartialEq, Eq, Structural)]
pub enum OutputMode {
    /// Two channels, left and right samples alternating frame by frame.
    StereoInterleaved,
    /// Two channels, a block of left samples followed by a block of right samples.
    StereoUnweaved,
    /// One channel.
    Mono,
}

impl OutputMode {
    /// Number of output channels of this layout.
    pub open spec fn channels(self) -> nat {
        match self {
            OutputMode::Mono => 1,
            _ => 2,
        }
    }

    /// The engine's code for this layout.
    pub open spec fn code(self) -> i32 {
        match self {
            OutputMode::StereoInterleaved => 0,
            OutputMode::StereoUnweaved => 1,
            OutputMode::Mono => 2,
        }
    }

    pub fn output_channels(&self) -> (r: usize)
        ensures
            r == self.channels(),
    {
        match self {
            OutputMode::Mono => 1,
            _ => 2,
        }
    }

    pub fn engine_code(&self) -> (r: i32)
        ensures
            r == self.code(),
    {
        match self {
            OutputMode::StereoInterleaved => 0,
            OutputMode::StereoUnweaved => 1,
            OutputMode::Mono => 2,
        }
    }
}

} // verus!

verus! {

/// Highest key number the engine accepts.
pub const MAX_KEY: u8 = 127;

/// Bit pattern of the binary32 value 1.0.
pub const VELOCITY_ONE_BITS: u32 = 0x3F80_0000;

/// Bit pattern of the binary32 value -0.0.
pub const NEGATIVE_ZERO_BITS: u32 = 0x8000_0000;

/// Key numbers run from 0 to 127 inclusive.
pub open spec fn key_in_range(key: u8) -> bool {
    key <= MAX_KEY
}

/// A velocity travels as the IEEE-754 binary32 encoding of a real number
/// (`f32::to_bits`). Among non-negative encodings, the order of the bit
/// patterns is the order of the values, and no NaN lies at or below the
/// pattern of 1.0; the one other encoding of a value in [0.0, 1.0] is -0.0.
/// So this holds exactly when the encoded value `v` satisfies
/// `v >= 0.0 && v <= 1.0`.
pub open spec fn velocity_in_range(bits: u32) -> bool {
    bits <= VELOCITY_ONE_BITS || bits == NEGATIVE_ZERO_BITS
}

pub fn key_valid(key: u8) -> (r: bool)
    ensures
        r == key_in_range(key),
{
    key <= MAX_KEY
}

pub fn velocity_valid(bits: u32) -> (r: bool)
    ensures
        r == velocity_in_range(bits),
{
    bits <= VELOCITY_ONE_BITS || bits == NEGATIVE_ZERO_BITS
}

} // verus!
