//! A player for four-channel Amiga tracker modules.
use vstd::prelude::*;

pub mod tables;
pub mod pattern;
pub mod sample;
pub mod channel;
pub mod voice;
pub mod player;
pub mod play;

verus! {

/// `x` limited to `[min, max]`.
pub open spec fn clamp_spec(x: int, min: int, max: int) -> int {
    if x < min { min } else if x > max { max } else { x }
}

/// Limits `x` to `[min, max]`.
pub fn clamp(x: isize, min: isize, max: isize) -> (r: isize)
    requires
        min <= max,
    ensures
        r as int == clamp_spec(x as int, min as int, max as int),
{
    if x < min { min } else if x > max { max } else { x }
}

} // verus!
