use vstd::prelude::*;

use crate::pixel::Pixel;
use crate::pixel::yield_at;

verus! {

/// A pass over a record with channel values `(a, b, c)` yields exactly
/// `a` at the first step, `b` at the second, `c` at the third, and the
/// terminal signal at every step after that. The owning and shared
/// passes state their step contracts with this function; the mutating
/// pass hands out handles whose contents at yield time are the same
/// three values in the same order.
pub proof fn lemma_pass_yields_channels_in_order(p: Pixel)
    ensures
        yield_at(p, 0) == Some(p.r),
        yield_at(p, 1) == Some(p.g),
        yield_at(p, 2) == Some(p.b),
        forall|n: int| n >= 3 ==> yield_at(p, n) is None,
{
}

/// Exhaustion is idempotent: the fourth, fifth, and every later
/// request yields the terminal signal, never a value.
pub proof fn lemma_exhaustion_idempotent(p: Pixel, n: int)
    requires
        n >= 3,
    ensures
        yield_at(p, n) is None,
{
}

/// A read-only pass is repeatable: what a step yields depends on the
/// record alone, so two passes in succession over the same unmodified
/// record yield identical sequences.
pub proof fn lemma_shared_pass_repeatable(first: Pixel, second: Pixel, n: int)
    requires
        second == first,
    ensures
        yield_at(second, n) == yield_at(first, n),
{
}

/// A record that holds `(r, g, b)` reads back exactly `[r, g, b]`:
/// together with the contract of a mutating pass, a later read-only
/// pass sees every in-place overwrite.
pub proof fn lemma_overwrite_visible_to_later_reads(r: i8, g: i8, b: i8)
    ensures
        (Pixel { r, g, b }).channels() == seq![r, g, b],
{
}

} // verus!
