use vstd::prelude::*;

use crate::pixel::Pixel;
use crate::pixel::yield_at;

verus! {

/// An owning pass over a [`Pixel`]: the record has moved into the
/// iterator, so the caller can no longer reach the original.
pub struct PixelIntoIterator {
    pixel: Pixel,
    index: usize,
}

impl PixelIntoIterator {
    /// The record the pass traverses.
    pub closed spec fn record(self) -> Pixel {
        self.pixel
    }

    /// How many steps the pass has taken.
    pub closed spec fn cursor(self) -> int {
        self.index as int
    }

    /// Yield the next channel by value and advance, or report
    /// exhaustion. Exhaustion is permanent and idempotent: once the
    /// three channels are out, every further call returns `None` and
    /// leaves the iterator exactly as it was.
    pub fn next(&mut self) -> (r: Option<i8>)
        ensures
            r == yield_at(old(self).record(), old(self).cursor()),
            final(self).record() == old(self).record(),
            r is Some ==> final(self).cursor() == old(self).cursor() + 1,
            r is None ==> *final(self) == *old(self),
    {
        let result = match self.index {
            0 => self.pixel.r,
            1 => self.pixel.g,
            2 => self.pixel.b,
            _ => return None,
        };
        self.index += 1;
        Some(result)
    }
}

impl Pixel {
    /// Consume the record and start an owning pass over its channels.
    pub fn into_iter(self) -> (it: PixelIntoIterator)
        ensures
            it.record() == self,
            it.cursor() == 0,
    {
        PixelIntoIterator { pixel: self, index: 0 }
    }
}

/// Run an owning pass to exhaustion and collect every yielded value:
/// exactly the three channels, in order. Consumes the record.
pub fn owned_values(p: Pixel) -> (out: Vec<i8>)
    ensures
        out@ == p.channels(),
{
    let ghost model = p.channels();
    let mut it = p.into_iter();
    let mut out: Vec<i8> = Vec::new();
    loop
        invariant
            it.record().channels() == model,
            0 <= it.cursor() <= 3,
            out@.len() == it.cursor(),
            out@ == model.take(it.cursor()),
        ensures
            out@ == model,
        decreases 3 - it.cursor(),
    {
        match it.next() {
            Some(v) => {
                out.push(v);
                proof {
                    assert(out@ =~= model.take(it.cursor()));
                }
            },
            None => {
                proof {
                    assert(out@ =~= model);
                }
                break;
            },
        }
    }
    out
}

} // verus!
