use vstd::prelude::*;
use crate::random::draw_between;
use crate::region::{Region, SimError};
use crate::sample::{Config, Sample, MAX_DT};
use crate::stats::Statistics;

verus! {

/// The live samples of a run, its parameters and its hit counts.
#[derive(Debug)]
pub struct Simulation {
    pub config: Config,
    pub samples: Vec<Sample>,
    pub stats: Statistics,
}

/// One step over the samples `ss`, in order: the samples that are kept and
/// the number of circle and square hits; the first ambiguous
/// classification fails the step.
pub open spec fn step_spec(cfg: Config, ss: Seq<Sample>, dt: int) -> Result<(Seq<Sample>, nat, nat), SimError>
    decreases ss.len(),
{
    if ss.len() == 0 {
        Ok((Seq::empty(), 0, 0))
    } else {
        match step_spec(cfg, ss.drop_last(), dt) {
            Err(e) => Err(e),
            Ok((kept, c, q)) => match cfg.advance_spec(ss.last(), dt) {
                Err(e) => Err(e),
                Ok((next, hit)) => Ok((
                    match next {
                        Some(n) => kept.push(n),
                        None => kept,
                    },
                    if hit == Some(Region::Circle) { c + 1 } else { c },
                    if hit == Some(Region::Square) { q + 1 } else { q },
                )),
            },
        }
    }
}

/// `after` and `after_stats` are what a step of `dt` milliseconds over `ss`
/// and `stats` leaves, and `r` is what it returns; a failed step changes
/// nothing.
pub open spec fn step_result(
    cfg: Config,
    ss: Seq<Sample>,
    stats: Statistics,
    dt: int,
    r: Result<(), SimError>,
    after: Seq<Sample>,
    after_stats: Statistics,
) -> bool {
    match step_spec(cfg, ss, dt) {
        Ok((kept, c, q)) => {
            &&& r is Ok
            &&& after == kept
            &&& after_stats.circle_hits == stats.circle_hits + c
            &&& after_stats.square_hits == stats.square_hits + q
        },
        Err(e) => r == Err::<(), SimError>(e) && after == ss && after_stats == stats,
    }
}

/// An error in the step over a prefix is the error of the whole step.
proof fn lemma_prefix_error(cfg: Config, ss: Seq<Sample>, k: int, dt: int)
    requires
        0 <= k <= ss.len(),
        step_spec(cfg, ss.take(k), dt) is Err,
    ensures
        step_spec(cfg, ss, dt) == step_spec(cfg, ss.take(k), dt),
    decreases ss.len(),
{
    if k < ss.len() {
        assert(ss.drop_last().take(k) =~= ss.take(k));
        lemma_prefix_error(cfg, ss.drop_last(), k, dt);
    } else {
        assert(ss.take(k) =~= ss);
    }
}

impl Simulation {
    pub open spec fn wf(&self) -> bool {
        &&& self.config.wf()
        &&& forall|i: int| 0 <= i < self.samples@.len() ==> #[trigger] self.samples@[i].wf()
    }

    /// A run with no samples and no hits.
    pub fn new(config: Config) -> (r: Simulation)
        requires
            config.wf(),
        ensures
            r.wf(),
            r.config == config,
            r.samples@.len() == 0,
            r.stats.circle_hits == 0,
            r.stats.square_hits == 0,
    {
        Simulation { config, samples: Vec::new(), stats: Statistics::new() }
    }

    /// Takes `s` into the set of live samples.
    pub fn add_sample(&mut self, s: Sample)
        requires
            old(self).wf(),
            s.wf(),
        ensures
            final(self).wf(),
            final(self).config == old(self).config,
            final(self).stats == old(self).stats,
            final(self).samples@ == old(self).samples@.push(s),
    {
        self.samples.push(s);
    }

    /// Launches `count` samples from random points of the launch rectangle.
    pub fn generate(&mut self, count: usize)
        requires
            old(self).wf(),
        ensures
            final(self).wf(),
            final(self).config == old(self).config,
            final(self).stats == old(self).stats,
            final(self).samples@.len() == old(self).samples@.len() + count,
            final(self).samples@.take(old(self).samples@.len() as int) == old(self).samples@,
            forall|i: int|
                old(self).samples@.len() <= i < final(self).samples@.len()
                    ==> old(self).config.launched(#[trigger] final(self).samples@[i]),
    {
        let ghost start = self.samples@;
        let mut k: usize = 0;
        while k < count
            invariant
                self.wf(),
                self.config == old(self).config,
                self.stats == old(self).stats,
                k <= count,
                self.samples@.len() == start.len() + k,
                self.samples@.take(start.len() as int) == start,
                start == old(self).samples@,
                forall|i: int|
                    start.len() <= i < self.samples@.len() ==> self.config.launched(
                        #[trigger] self.samples@[i],
                    ),
            decreases count - k,
        {
            let x = draw_between(self.config.x_min, self.config.x_max);
            let z = draw_between(self.config.z_min, self.config.z_max);
            let s = self.config.launch(x, z);
            let ghost before = self.samples@;
            self.samples.push(s);
            assert(self.samples@.take(start.len() as int) =~= before.take(start.len() as int));
            k = k + 1;
        }
    }

    /// Advances every live sample by `dt` milliseconds, counts the samples
    /// that reached a region and removes those that were classified,
    /// expired or fell below the floor.
    pub fn step(&mut self, dt: u64) -> (r: Result<(), SimError>)
        requires
            old(self).wf(),
            dt <= MAX_DT,
            old(self).stats.circle_hits + old(self).samples@.len() <= u64::MAX,
            old(self).stats.square_hits + old(self).samples@.len() <= u64::MAX,
        ensures
            final(self).wf(),
            final(self).config == old(self).config,
            step_result(
                old(self).config,
                old(self).samples@,
                old(self).stats,
                dt as int,
                r,
                final(self).samples@,
                final(self).stats,
            ),
            final(self).stats.circle_hits >= old(self).stats.circle_hits,
            final(self).stats.square_hits >= old(self).stats.square_hits,
    {
        let n = self.samples.len();
        let mut kept: Vec<Sample> = Vec::new();
        let mut stats = self.stats;
        let mut i: usize = 0;
        while i < n
            invariant
                self.wf(),
                *self == *old(self),
                n == self.samples@.len(),
                dt <= MAX_DT,
                i <= n,
                self.stats.circle_hits <= stats.circle_hits <= self.stats.circle_hits + i,
                self.stats.square_hits <= stats.square_hits <= self.stats.square_hits + i,
                self.stats.circle_hits + n <= u64::MAX,
                self.stats.square_hits + n <= u64::MAX,
                forall|j: int| 0 <= j < kept@.len() ==> #[trigger] kept@[j].wf(),
                step_spec(self.config, self.samples@.take(i as int), dt as int) == Ok::<
                    (Seq<Sample>, nat, nat),
                    SimError,
                >(
                    (
                        kept@,
                        (stats.circle_hits - self.stats.circle_hits) as nat,
                        (stats.square_hits - self.stats.square_hits) as nat,
                    ),
                ),
            decreases n - i,
        {
            let s = self.samples[i];
            proof {
                assert(self.samples@.take(i + 1).drop_last() =~= self.samples@.take(i as int));
                assert(self.samples@.take(i + 1).last() == s);
            }
            match self.config.advance(&s, dt) {
                Err(e) => {
                    proof {
                        lemma_prefix_error(self.config, self.samples@, i + 1, dt as int);
                    }
                    return Err(e);
                },
                Ok((next, hit)) => {
                    match next {
                        Some(ns) => kept.push(ns),
                        None => {},
                    }
                    match hit {
                        Some(h) => stats.record_hit(h),
                        None => {},
                    }
                },
            }
            i = i + 1;
        }
        proof {
            assert(self.samples@.take(n as int) =~= self.samples@);
        }
        self.samples = kept;
        self.stats = stats;
        Ok(())
    }

    /// One tick of the run: launches a batch of samples, then steps all live
    /// samples by `dt` milliseconds.
    pub fn run_step(&mut self, dt: u64) -> (r: Result<(), SimError>)
        requires
            old(self).wf(),
            dt <= MAX_DT,
            old(self).stats.circle_hits + old(self).samples@.len() + old(self).config.batch <= u64::MAX,
            old(self).stats.square_hits + old(self).samples@.len() + old(self).config.batch <= u64::MAX,
            old(self).samples@.len() + old(self).config.batch <= usize::MAX,
        ensures
            final(self).wf(),
            final(self).config == old(self).config,
            exists|fresh: Seq<Sample>|
                {
                    &&& fresh.len() == old(self).config.batch
                    &&& forall|i: int| 0 <= i < fresh.len() ==> old(self).config.launched(#[trigger] fresh[i])
                    &&& step_result(
                        old(self).config,
                        old(self).samples@ + fresh,
                        old(self).stats,
                        dt as int,
                        r,
                        final(self).samples@,
                        final(self).stats,
                    )
                },
            final(self).stats.circle_hits >= old(self).stats.circle_hits,
            final(self).stats.square_hits >= old(self).stats.square_hits,
    {
        let ghost n0 = self.samples@.len();
        self.generate(self.config.batch);
        let ghost fresh = self.samples@.subrange(n0 as int, self.samples@.len() as int);
        assert(self.samples@ =~= old(self).samples@ + fresh);
        assert(forall|i: int| 0 <= i < fresh.len() ==> fresh[i] == self.samples@[n0 + i]);
        let r = self.step(dt);
        assert(forall|i: int| 0 <= i < fresh.len() ==> old(self).config.launched(#[trigger] fresh[i]));
        r
    }
}

} // verus!
