//! The click that the engine plays when it is given no other waveform.
use vstd::prelude::*;

verus! {

/// A short burst that dies away: 64 samples of 16 bits, one channel, at
/// 44100 samples per second, with the header of a waveform in front.
pub const DEFAULT_CLICK: [u8; 172] = [
    82, 73, 70, 70, 164, 0, 0, 0, 87, 65, 86, 69,
    102, 109, 116, 32, 16, 0, 0, 0, 1, 0, 1, 0,
    68, 172, 0, 0, 136, 88, 1, 0, 2, 0, 16, 0,
    100, 97, 116, 97, 128, 0, 0, 0, 255, 127, 253, 80,
    0, 0, 38, 191, 238, 173, 18, 204, 0, 0, 149, 41,
    159, 52, 76, 33, 0, 0, 87, 229, 67, 222, 167, 234,
    0, 0, 24, 17, 162, 21, 176, 13, 0, 0, 10, 245,
    33, 242, 57, 247, 0, 0, 7, 7, 229, 8, 161, 5,
    0, 0, 126, 251, 76, 250, 100, 252, 0, 0, 228, 2,
    168, 3, 80, 2, 0, 0, 38, 254, 168, 253, 132, 254,
    0, 0, 48, 1, 129, 1, 243, 0, 0, 0, 61, 255,
    9, 255, 100, 255, 0, 0, 125, 0, 158, 0, 100, 0,
    0, 0, 176, 255, 155, 255, 192, 255, 0, 0, 51, 0,
    65, 0, 41, 0, 0, 0, 223, 255, 214, 255, 230, 255,
    0, 0, 21, 0,
];

} // verus!
