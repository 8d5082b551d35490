use vstd::prelude::*;

use crate::pixel::Pixel;
use crate::pixel::yield_at;

verus! {

/// A read-only pass over a borrowed [`Pixel`]. The record stays fully
/// readable to the caller, and nothing can be mutated through this
/// handle; any number of such passes may coexist.
pub struct PixelIterator<'a> {
    pixel: &'a Pixel,
    index: usize,
}

impl<'a> PixelIterator<'a> {
    /// The record the pass traverses.
    pub closed spec fn record(self) -> Pixel {
        *self.pixel
    }

    /// How many steps the pass has taken.
    pub closed spec fn cursor(self) -> int {
        self.index as int
    }

    /// Yield a copy of the next channel and advance, or report
    /// exhaustion. The record itself is never changed; once the three
    /// channels are out, every further call returns `None` and leaves
    /// the iterator exactly as it was.
    pub fn next(&mut self) -> (r: Option<i8>)
        ensures
            r == yield_at(old(self).record(), old(self).cursor()),
            final(self).record() == old(self).record(),
            r is Some ==> final(self).cursor() == old(self).cursor() + 1,
            r is None ==> *final(self) == *old(self),
    {
        let result = match self.index {
            0 => self.pixel.r,
            1 => self.pixel.g,
            2 => self.pixel.b,
            _ => return None,
        };
        self.index += 1;
        Some(result)
    }
}

impl Pixel {
    /// Start a read-only pass over the record's channels.
    pub fn iter(&self) -> (it: PixelIterator<'_>)
        ensures
            it.record() == *self,
            it.cursor() == 0,
    {
        PixelIterator { pixel: self, index: 0 }
    }
}

/// Run a read-only pass to exhaustion and collect every yielded value:
/// exactly the three channels, in order. The record is untouched.
pub fn shared_values(p: &Pixel) -> (out: Vec<i8>)
    ensures
        out@ == p.channels(),
{
    let ghost model = p.channels();
    let mut it = p.iter();
    let mut out: Vec<i8> = Vec::new();
    loop
        invariant
            it.record().channels() == model,
            0 <= it.cursor() <= 3,
            out@.len() == it.cursor(),
            out@ == model.take(it.cursor()),
        ensures
            out@ == model,
        decreases 3 - it.cursor(),
    {
        match it.next() {
            Some(v) => {
                out.push(v);
                proof {
                    assert(out@ =~= model.take(it.cursor()));
                }
            },
            None => {
                proof {
                    assert(out@ =~= model);
                }
                break;
            },
        }
    }
    out
}

} // verus!
