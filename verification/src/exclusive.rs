use vstd::prelude::*;

use crate::pixel::Pixel;

verus! {

/// A mutating pass over an exclusively borrowed [`Pixel`]. Each step
/// yields a mutable handle to one channel, through which the caller may
/// overwrite that channel in place. While the pass (or any handle it
/// has yielded) is alive, the borrow makes it the sole access path to
/// the record.
pub struct PixelMutIterator<'a> {
    r: Option<&'a mut i8>,
    g: Option<&'a mut i8>,
    b: Option<&'a mut i8>,
}

impl<'a> PixelMutIterator<'a> {
    /// The not-yet-yielded handle to the first channel, if any.
    pub closed spec fn r_handle(self) -> Option<&'a mut i8> {
        self.r
    }

    /// The not-yet-yielded handle to the second channel, if any.
    pub closed spec fn g_handle(self) -> Option<&'a mut i8> {
        self.g
    }

    /// The not-yet-yielded handle to the third channel, if any.
    pub closed spec fn b_handle(self) -> Option<&'a mut i8> {
        self.b
    }

    /// Handles are yielded in channel order: whenever a handle is still
    /// pending, so are all the later ones.
    pub open spec fn wf(self) -> bool {
        &&& self.r_handle() is Some ==> self.g_handle() is Some
        &&& self.g_handle() is Some ==> self.b_handle() is Some
    }

    /// How many steps the pass has taken.
    pub open spec fn cursor(self) -> int {
        if self.r_handle() is Some {
            0int
        } else if self.g_handle() is Some {
            1int
        } else if self.b_handle() is Some {
            2int
        } else {
            3int
        }
    }

    /// Yield a mutable handle to the next channel, or report
    /// exhaustion. Once all three handles are out, every further call
    /// returns `None` and leaves the iterator exactly as it was.
    pub fn next(&mut self) -> (r: Option<&'a mut i8>)
        ensures
            old(self).cursor() == 0 ==> r == old(self).r_handle()
                && final(self).r_handle() is None
                && final(self).g_handle() == old(self).g_handle()
                && final(self).b_handle() == old(self).b_handle(),
            old(self).cursor() == 1 ==> r == old(self).g_handle()
                && final(self).r_handle() == old(self).r_handle()
                && final(self).g_handle() is None
                && final(self).b_handle() == old(self).b_handle(),
            old(self).cursor() == 2 ==> r == old(self).b_handle()
                && final(self).r_handle() == old(self).r_handle()
                && final(self).g_handle() == old(self).g_handle()
                && final(self).b_handle() is None,
            old(self).cursor() == 3 ==> r is None && *final(self) == *old(self),
            r is Some <==> old(self).cursor() < 3,
            old(self).wf() ==> final(self).wf() && final(self).cursor() == (
            if old(self).cursor() < 3 {
                old(self).cursor() + 1
            } else {
                3int
            }),
    {
        let first = self.r.take();
        if first.is_some() {
            return first;
        }
        let second = self.g.take();
        if second.is_some() {
            return second;
        }
        self.b.take()
    }
}

impl Pixel {
    /// Borrow the record exclusively and start a mutating pass: three
    /// handles, one per channel in order. Whatever the caller finally
    /// leaves in each handle is what the record holds once the pass is
    /// over.
    pub fn iter_mut(&mut self) -> (it: PixelMutIterator<'_>)
        ensures
            it.wf(),
            it.cursor() == 0,
            *it.r_handle().unwrap() == old(self).r,
            *it.g_handle().unwrap() == old(self).g,
            *it.b_handle().unwrap() == old(self).b,
            final(self).r == *final(it.r_handle().unwrap()),
            final(self).g == *final(it.g_handle().unwrap()),
            final(self).b == *final(it.b_handle().unwrap()),
    {
        PixelMutIterator { r: Some(&mut self.r), g: Some(&mut self.g), b: Some(&mut self.b) }
    }
}

/// Run a mutating pass to exhaustion, reading but never overwriting:
/// the collected values are exactly the three channels, in order, and
/// the record is left as it was.
pub fn exclusive_values(p: &mut Pixel) -> (out: Vec<i8>)
    ensures
        out@ == old(p).channels(),
        *final(p) == *old(p),
{
    let mut out: Vec<i8> = Vec::new();
    let mut it = p.iter_mut();
    match it.next() {
        Some(c) => out.push(*c),
        None => (),
    }
    match it.next() {
        Some(c) => out.push(*c),
        None => (),
    }
    match it.next() {
        Some(c) => out.push(*c),
        None => (),
    }
    proof {
        assert(out@ =~= old(p).channels());
    }
    out
}

/// Run a mutating pass to exhaustion, overwriting the channel behind
/// each yielded handle in place: the record afterwards holds exactly
/// `(r, g, b)`, which any later read of it sees.
pub fn assign_channels(p: &mut Pixel, r: i8, g: i8, b: i8)
    ensures
        *final(p) == (Pixel { r, g, b }),
{
    let mut it = p.iter_mut();
    match it.next() {
        Some(c) => {
            *c = r;
        },
        None => (),
    }
    match it.next() {
        Some(c) => {
            *c = g;
        },
        None => (),
    }
    match it.next() {
        Some(c) => {
            *c = b;
        },
        None => (),
    }
}

} // verus!
