use vstd::prelude::*;

verus! {

/// Relies on rand::Rng::gen_range over the inclusive range `lo..=hi`: it
/// returns a uniform draw within the bounds, and the range is non-empty here,
/// so it cannot panic.
#[verifier::external_body]
pub(crate) fn draw_inclusive(lo: u8, hi: u8) -> (r: u8)
    requires
        lo <= hi,
    ensures
        lo <= r <= hi,
{
    rand::Rng::gen_range(&mut rand::thread_rng(), lo..=hi)
}

/// Relies on rand::Rng::gen_range over the half-open range `0..n`: it returns
/// a uniform index below `n`, and the range is non-empty here, so it cannot
/// panic.
#[verifier::external_body]
pub(crate) fn draw_index(n: usize) -> (r: usize)
    requires
        1 <= n,
    ensures
        r < n,
{
    rand::Rng::gen_range(&mut rand::thread_rng(), 0..n)
}

} // verus!
