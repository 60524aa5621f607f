use rand::Rng;
use vstd::prelude::*;

verus! {

/// Relies on rand's `thread_rng().gen_range(lo..=hi)`: for integers it returns
/// a value of the closed range, and panics only on an empty range.
#[verifier::external_body]
pub(crate) fn draw_between(lo: i64, hi: i64) -> (r: i64)
    requires
        lo <= hi,
    ensures
        lo <= r <= hi,
{
    rand::thread_rng().gen_range(lo..=hi)
}

} // verus!
