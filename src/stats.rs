use vstd::prelude::*;
use crate::region::Region;

verus! {

/// Running hit counts of the two regions.
#[derive(Clone, Copy, Debug)]
pub struct Statistics {
    pub circle_hits: u64,
    pub square_hits: u64,
}

impl Statistics {
    /// The estimate as the exact ratio `(circle_hits, square_hits)`, which is
    /// undefined while no sample has landed in the square.
    pub open spec fn estimate_spec(&self) -> Option<(u64, u64)> {
        if self.square_hits > 0 {
            Some((self.circle_hits, self.square_hits))
        } else {
            None
        }
    }

    /// The count that a hit of `region` increments.
    pub open spec fn hits_of(&self, region: Region) -> u64 {
        match region {
            Region::Circle => self.circle_hits,
            Region::Square => self.square_hits,
        }
    }

    pub fn new() -> (r: Statistics)
        ensures
            r.circle_hits == 0,
            r.square_hits == 0,
    {
        Statistics { circle_hits: 0, square_hits: 0 }
    }

    /// Counts one sample classified into `region`.
    pub fn record_hit(&mut self, region: Region)
        requires
            old(self).hits_of(region) < u64::MAX,
        ensures
            final(self).hits_of(region) == old(self).hits_of(region) + 1,
            region == Region::Circle ==> final(self).square_hits == old(self).square_hits,
            region == Region::Square ==> final(self).circle_hits == old(self).circle_hits,
    {
        match region {
            Region::Circle => self.circle_hits = self.circle_hits + 1,
            Region::Square => self.square_hits = self.square_hits + 1,
        }
    }

    /// The estimate as numerator and denominator, `None` while
    /// `square_hits == 0`.
    pub fn current_estimate(&self) -> (r: Option<(u64, u64)>)
        ensures
            r == self.estimate_spec(),
    {
        if self.square_hits > 0 {
            Some((self.circle_hits, self.square_hits))
        } else {
            None
        }
    }

    /// The estimate scaled by `scale` and rounded down
    /// (`scale == 10_000` gives four decimal places), `None` while
    /// `square_hits == 0`.
    pub fn estimate_scaled(&self, scale: u64) -> (r: Option<u128>)
        ensures
            self.square_hits == 0 <==> r is None,
            r matches Some(v) ==> v as int == (self.circle_hits as int * scale as int)
                / (self.square_hits as int),
    {
        if self.square_hits > 0 {
            let n = self.circle_hits as u128;
            let s = scale as u128;
            assert(n * s <= u64::MAX as int * u64::MAX as int) by (nonlinear_arith)
                requires
                    0 <= n <= u64::MAX,
                    0 <= s <= u64::MAX,
            ;
            assert(u64::MAX as int * u64::MAX as int <= u128::MAX);
            Some(n * s / (self.square_hits as u128))
        } else {
            None
        }
    }
}

} // verus!
