use vstd::prelude::*;

verus! {

/// A fixed-arity record of three signed 8-bit channels, in the
/// conventional color order: `r` first, then `g`, then `b`.
///
/// The record deliberately implements neither `Clone` nor `Copy`: an
/// owning pass moves the record into the iterator, which ends the
/// caller's access to the original at compile time.
#[derive(Debug, PartialEq, Eq, Structural)]
pub struct Pixel {
    pub r: i8,
    pub g: i8,
    pub b: i8,
}

impl Pixel {
    /// The channels in their fixed traversal order.
    pub open spec fn channels(self) -> Seq<i8> {
        seq![self.r, self.g, self.b]
    }

    /// Build a record from its three channel values.
    pub fn new(r: i8, g: i8, b: i8) -> (p: Pixel)
        ensures
            p == (Pixel { r, g, b }),
    {
        Pixel { r, g, b }
    }
}

/// What a pass over `p` yields at step `n`: the channel at position `n`
/// for the first three steps, and exhaustion (`None`) from then on.
pub open spec fn yield_at(p: Pixel, n: int) -> Option<i8> {
    if 0 <= n < 3 {
        Some(p.channels()[n])
    } else {
        None
    }
}

} // verus!
