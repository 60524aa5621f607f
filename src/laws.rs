use vstd::prelude::*;
use crate::region::{Region, SimError};
use crate::sample::{Config, Sample, SampleState, MAX_DT};
use crate::sim::step_spec;
use crate::stats::Statistics;

verus! {

/// A step of `dt` milliseconds counts no hit for `s`, and what is left of
/// `s` keeps its state.
pub open spec fn uncounted_step(cfg: Config, s: Sample, dt: int) -> bool {
    match cfg.advance_spec(s, dt) {
        Ok((m, None)) => m matches Some(k) ==> k.state == s.state,
        _ => false,
    }
}

/// A sample is counted at most once: a step that counts it leaves it
/// classified (or removes it), and a classified sample keeps its state and
/// is never counted again, whatever the length of later steps.
pub proof fn lemma_counted_once(cfg: Config, s: Sample, dt: int, dt2: int)
    requires
        cfg.wf(),
        s.wf(),
        0 <= dt <= MAX_DT,
        0 <= dt2 <= MAX_DT,
    ensures
        cfg.advance_spec(s, dt) matches Ok((Some(n), Some(h))) ==> n.state != SampleState::Falling
            && uncounted_step(cfg, n, dt2),
        s.state != SampleState::Falling ==> uncounted_step(cfg, s, dt),
{
}

/// A sample that does not reach the detection plane, and then runs out of
/// lifetime or falls below the floor, is removed without being counted.
pub proof fn lemma_expired_uncounted(cfg: Config, s: Sample, dt: int)
    requires
        cfg.wf(),
        s.wf(),
        0 <= dt <= MAX_DT,
        !cfg.crosses(s, cfg.fallen(s, dt)),
        cfg.fallen(s, dt).y < cfg.floor || (s.remaining matches Some(r) && r <= dt),
    ensures
        cfg.advance_spec(s, dt) == Ok::<(Option<Sample>, Option<Region>), SimError>((None, None)),
{
}

/// A step adds at most one hit per sample it was given, and keeps at most
/// the samples it was given.
pub proof fn lemma_one_hit_per_sample(cfg: Config, ss: Seq<Sample>, dt: int)
    ensures
        step_spec(cfg, ss, dt) matches Ok((kept, c, q)) ==> c + q <= ss.len() && kept.len() <= ss.len(),
    decreases ss.len(),
{
    if ss.len() > 0 {
        lemma_one_hit_per_sample(cfg, ss.drop_last(), dt);
    }
}

/// The estimate depends on the hit counts alone, so asking for it again
/// without a new hit gives the same answer.
pub proof fn lemma_estimate_stable(a: Statistics, b: Statistics)
    requires
        a.circle_hits == b.circle_hits,
        a.square_hits == b.square_hits,
    ensures
        a.estimate_spec() == b.estimate_spec(),
{
}

} // verus!
