use vstd::prelude::*;
use crate::region::{in_limit, Region, Regions, SimError, LIMIT};

verus! {

/// Longest step, in milliseconds, that the simulation accepts.
pub const MAX_DT: u64 = 1_000_000;

/// Where a sample stands in its lifecycle.
#[derive(Clone, Copy, Debug, PartialEq, Eq, Structural)]
pub enum SampleState {
    Falling,
    ClassifiedCircle,
    ClassifiedSquare,
}

/// One trial: a droplet falling straight down from its launch point.
#[derive(Clone, Copy, Debug)]
pub struct Sample {
    pub x: i64,
    pub y: i64,
    pub z: i64,
    /// Downward speed, in thousandths of a unit per second.
    pub speed: u64,
    /// Milliseconds until the sample expires; `None` never expires.
    pub remaining: Option<u64>,
    pub state: SampleState,
}

impl Sample {
    pub open spec fn wf(&self) -> bool {
        in_limit(self.x as int) && in_limit(self.y as int) && in_limit(self.z as int)
            && self.speed <= LIMIT
    }
}

/// The fixed parameters of a run.
#[derive(Clone, Copy, Debug)]
pub struct Config {
    pub regions: Regions,
    /// The launch rectangle, bounds included.
    pub x_min: i64,
    pub x_max: i64,
    pub z_min: i64,
    pub z_max: i64,
    pub drop_height: i64,
    /// Height at which a falling sample is classified.
    pub plane: i64,
    /// Samples that fall below this height are removed.
    pub floor: i64,
    /// Lifetime of a new sample in milliseconds; `None` never expires.
    pub lifetime: Option<u64>,
    /// Milliseconds a classified sample stays before removal; `0` removes it
    /// at once.
    pub grace: u64,
    /// Samples launched per step.
    pub batch: usize,
    /// Speed gained per second, in thousandths of a unit per second.
    pub gravity: u64,
    /// Speed that a falling sample never exceeds.
    pub terminal_speed: u64,
}

pub open spec fn min_int(a: int, b: int) -> int {
    if a <= b { a } else { b }
}

pub open spec fn state_of(h: Region) -> SampleState {
    match h {
        Region::Circle => SampleState::ClassifiedCircle,
        Region::Square => SampleState::ClassifiedSquare,
    }
}

impl Config {
    pub open spec fn wf(&self) -> bool {
        &&& self.regions.wf()
        &&& in_limit(self.x_min as int) && in_limit(self.x_max as int)
        &&& in_limit(self.z_min as int) && in_limit(self.z_max as int)
        &&& self.x_min <= self.x_max && self.z_min <= self.z_max
        &&& in_limit(self.drop_height as int) && in_limit(self.plane as int)
        &&& in_limit(self.floor as int)
        &&& self.gravity <= LIMIT && self.terminal_speed <= LIMIT
    }

    /// A sample as it is launched from `(x, z)`.
    pub open spec fn launch_spec(&self, x: i64, z: i64) -> Sample {
        Sample {
            x,
            y: self.drop_height,
            z,
            speed: 0,
            remaining: self.lifetime,
            state: SampleState::Falling,
        }
    }

    /// `s` is a fresh sample launched from inside the launch rectangle.
    pub open spec fn launched(&self, s: Sample) -> bool {
        &&& self.x_min <= s.x <= self.x_max
        &&& self.z_min <= s.z <= self.z_max
        &&& s == self.launch_spec(s.x, s.z)
    }

    /// Speed after `dt` milliseconds of gravity, capped at the terminal speed.
    pub open spec fn speed_after(&self, s: Sample, dt: int) -> int {
        min_int(s.speed + self.gravity * dt / 1000, self.terminal_speed as int)
    }

    /// The sample after falling for `dt` milliseconds.
    pub open spec fn fallen(&self, s: Sample, dt: int) -> Sample {
        let v = self.speed_after(s, dt);
        Sample { y: (s.y - v * dt / 1000) as i64, speed: v as u64, ..s }
    }

    /// A falling sample passed the detection plane while moving from `s` to `m`.
    pub open spec fn crosses(&self, s: Sample, m: Sample) -> bool {
        s.state is Falling && s.y >= self.plane && m.y <= self.plane
    }

    /// The sample after `dt` milliseconds of ageing, or `None` once it is
    /// below the floor or its remaining lifetime is used up.
    pub open spec fn aged(&self, m: Sample, dt: int) -> Option<Sample> {
        if m.y < self.floor {
            None
        } else {
            match m.remaining {
                None => Some(m),
                Some(r) => if r <= dt {
                    None
                } else {
                    Some(Sample { remaining: Some((r - dt) as u64), ..m })
                },
            }
        }
    }

    /// One step of one sample: what is left of it and the hit it scored.
    pub open spec fn advance_spec(&self, s: Sample, dt: int) -> Result<(Option<Sample>, Option<Region>), SimError> {
        let m = self.fallen(s, dt);
        if self.crosses(s, m) {
            match self.regions.classify_spec(s.x as int, s.z as int) {
                Err(e) => Err(e),
                Ok(Some(h)) => Ok((
                    self.aged(Sample { remaining: Some(self.grace), state: state_of(h), ..m }, 0),
                    Some(h),
                )),
                Ok(None) => Ok((self.aged(m, dt), None)),
            }
        } else {
            Ok((self.aged(m, dt), None))
        }
    }

    /// Launches a sample from `(x, z)`.
    pub fn launch(&self, x: i64, z: i64) -> (r: Sample)
        ensures
            r == self.launch_spec(x, z),
    {
        Sample {
            x,
            y: self.drop_height,
            z,
            speed: 0,
            remaining: self.lifetime,
            state: SampleState::Falling,
        }
    }

    fn age(&self, m: Sample, dt: u64) -> (r: Option<Sample>)
        ensures
            r == self.aged(m, dt as int),
    {
        if m.y < self.floor {
            None
        } else {
            match m.remaining {
                None => Some(m),
                Some(rem) => if rem <= dt {
                    None
                } else {
                    Some(Sample { remaining: Some(rem - dt), ..m })
                },
            }
        }
    }

    /// Advances one sample by `dt` milliseconds: it falls, is classified if
    /// it passed the detection plane, and ages; `None` in the result means
    /// the sample is to be removed.
    pub fn advance(&self, s: &Sample, dt: u64) -> (r: Result<(Option<Sample>, Option<Region>), SimError>)
        requires
            self.wf(),
            s.wf(),
            dt <= MAX_DT,
        ensures
            r == self.advance_spec(*s, dt as int),
            r matches Ok((Some(n), _)) ==> n.wf(),
    {
        assert(self.gravity * dt <= 1_000_000_000_000_000) by (nonlinear_arith)
            requires
                self.gravity <= 1_000_000_000,
                dt <= 1_000_000,
        ;
        let gain = self.gravity * dt / 1000;
        let sum = s.speed + gain;
        let v = if sum <= self.terminal_speed { sum } else { self.terminal_speed };
        assert(v * dt <= 1_000_000_000_000_000) by (nonlinear_arith)
            requires
                v <= 1_000_000_000,
                dt <= 1_000_000,
        ;
        assert(0 <= v * dt) by (nonlinear_arith);
        let drop = v * dt / 1000;
        let m = Sample { y: s.y - drop as i64, speed: v, ..*s };
        assert(m == self.fallen(*s, dt as int));
        let crossed = match s.state {
            SampleState::Falling => s.y >= self.plane && m.y <= self.plane,
            _ => false,
        };
        if crossed {
            match self.regions.classify(s.x, s.z) {
                Err(e) => Err(e),
                Ok(Some(h)) => {
                    let state = match h {
                        Region::Circle => SampleState::ClassifiedCircle,
                        Region::Square => SampleState::ClassifiedSquare,
                    };
                    Ok((self.age(Sample { remaining: Some(self.grace), state, ..m }, 0), Some(h)))
                },
                Ok(None) => Ok((self.age(m, dt), None)),
            }
        } else {
            Ok((self.age(m, dt), None))
        }
    }
}

} // verus!
