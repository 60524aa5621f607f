use monte_pi::region::{Disk, Region, Regions, SimError, SquareArea};
use monte_pi::sample::{Config, SampleState};
use monte_pi::sim::Simulation;
use monte_pi::stats::Statistics;

fn layout() -> Config {
    Config {
        regions: Regions {
            circle: Disk { cx: -3500, cz: 0, radius: 3000 },
            square: SquareArea { cx: 3500, cz: 0, half: 1500 },
        },
        x_min: -7500,
        x_max: 7500,
        z_min: -5000,
        z_max: 5000,
        drop_height: 15000,
        plane: 1000,
        floor: -1000,
        lifetime: Some(20000),
        grace: 0,
        batch: 5,
        gravity: 9810,
        terminal_speed: 100000,
    }
}

fn at_plane() -> Config {
    Config { drop_height: 1000, ..layout() }
}

#[test]
fn classify_circle_square_and_none() {
    let r = layout().regions;
    assert_eq!(r.classify(-3500, 0), Ok(Some(Region::Circle)));
    assert_eq!(r.classify(-3500, 3000), Ok(Some(Region::Circle)));
    assert_eq!(r.classify(-3500, 3001), Ok(None));
    assert_eq!(r.classify(3500, 0), Ok(Some(Region::Square)));
    assert_eq!(r.classify(5000, -1500), Ok(Some(Region::Square)));
    assert_eq!(r.classify(5001, 0), Ok(None));
    assert_eq!(r.classify(0, 0), Ok(None));
}

#[test]
fn classify_overlap_is_ambiguous() {
    let r = Regions {
        circle: Disk { cx: 0, cz: 0, radius: 2000 },
        square: SquareArea { cx: 1000, cz: 0, half: 1500 },
    };
    assert_eq!(r.classify(500, 0), Err(SimError::RegionMembershipAmbiguous));
    assert_eq!(r.classify(-1500, 0), Ok(Some(Region::Circle)));
    assert_eq!(r.classify(2400, 0), Ok(Some(Region::Square)));
}

#[test]
fn ambiguous_step_changes_nothing() {
    let mut cfg = at_plane();
    cfg.regions.square = SquareArea { cx: -3500, cz: 0, half: 1500 };
    let mut sim = Simulation::new(cfg);
    sim.add_sample(cfg.launch(-3500, 0));
    assert_eq!(sim.step(16), Err(SimError::RegionMembershipAmbiguous));
    assert_eq!(sim.samples.len(), 1);
    assert_eq!(sim.samples[0].y, 1000);
    assert_eq!(sim.stats.circle_hits, 0);
    assert_eq!(sim.stats.square_hits, 0);
}

#[test]
fn sample_at_circle_center_is_counted_once() {
    let cfg = at_plane();
    let mut sim = Simulation::new(cfg);
    sim.add_sample(cfg.launch(-3500, 0));
    assert_eq!(sim.step(16), Ok(()));
    assert_eq!(sim.stats.circle_hits, 1);
    assert_eq!(sim.stats.square_hits, 0);
    assert!(sim.samples.is_empty());
}

#[test]
fn sample_at_square_center_is_counted() {
    let cfg = at_plane();
    let mut sim = Simulation::new(cfg);
    sim.add_sample(cfg.launch(3500, 0));
    assert_eq!(sim.step(16), Ok(()));
    assert_eq!(sim.stats.circle_hits, 0);
    assert_eq!(sim.stats.square_hits, 1);
    assert!(sim.samples.is_empty());
}

#[test]
fn classified_sample_with_grace_is_not_counted_again() {
    let cfg = Config { grace: 3000, ..at_plane() };
    let mut sim = Simulation::new(cfg);
    sim.add_sample(cfg.launch(-3500, 0));
    assert_eq!(sim.step(16), Ok(()));
    assert_eq!(sim.samples.len(), 1);
    assert_eq!(sim.samples[0].state, SampleState::ClassifiedCircle);
    assert_eq!(sim.samples[0].remaining, Some(3000));
    for _ in 0..10 {
        assert_eq!(sim.step(16), Ok(()));
    }
    assert_eq!(sim.stats.circle_hits, 1);
    assert_eq!(sim.stats.square_hits, 0);
    assert_eq!(sim.samples[0].remaining, Some(3000 - 160));
}

#[test]
fn expired_sample_is_removed_uncounted() {
    let cfg = Config { lifetime: Some(100), ..layout() };
    let mut sim = Simulation::new(cfg);
    sim.add_sample(cfg.launch(-3500, 0));
    assert_eq!(sim.step(60), Ok(()));
    assert_eq!(sim.samples.len(), 1);
    assert_eq!(sim.samples[0].remaining, Some(40));
    assert_eq!(sim.step(40), Ok(()));
    assert!(sim.samples.is_empty());
    assert_eq!(sim.stats.circle_hits, 0);
    assert_eq!(sim.stats.square_hits, 0);
}

#[test]
fn sample_below_floor_is_removed_uncounted() {
    let cfg = Config { lifetime: None, ..layout() };
    let mut sim = Simulation::new(cfg);
    // Outside both regions, so crossing the plane counts nothing.
    sim.add_sample(cfg.launch(0, 4000));
    let mut steps = 0;
    while !sim.samples.is_empty() {
        assert_eq!(sim.step(16), Ok(()));
        steps += 1;
        assert!(steps < 10000);
    }
    assert_eq!(sim.stats.circle_hits, 0);
    assert_eq!(sim.stats.square_hits, 0);
}

#[test]
fn fall_follows_gravity_up_to_terminal_speed() {
    let cfg = layout();
    let s = cfg.launch(0, 0);
    let (next, hit) = cfg.advance(&s, 1000).unwrap();
    let n = next.unwrap();
    assert_eq!(hit, None);
    assert_eq!(n.speed, 9810);
    assert_eq!(n.y, 15000 - 9810);
    assert_eq!(n.remaining, Some(19000));
    let fast = Config { terminal_speed: 5000, ..cfg };
    let (next, _) = fast.advance(&s, 1000).unwrap();
    assert_eq!(next.unwrap().speed, 5000);
    assert_eq!(next.unwrap().y, 10000);
}

#[test]
fn generated_samples_lie_in_launch_rectangle() {
    let cfg = layout();
    let mut sim = Simulation::new(cfg);
    sim.generate(1000);
    assert_eq!(sim.samples.len(), 1000);
    for s in sim.samples.iter() {
        assert!(-7500 <= s.x && s.x <= 7500);
        assert!(-5000 <= s.z && s.z <= 5000);
        assert_eq!(s.y, 15000);
        assert_eq!(s.state, SampleState::Falling);
        assert_eq!(s.remaining, Some(20000));
    }
    assert!(sim.samples.iter().any(|s| s.x != -7500));
    assert!(sim.samples.iter().any(|s| s.z != -5000));
    assert!(sim.samples.iter().any(|s| s.x > 0) && sim.samples.iter().any(|s| s.x < 0));
}

#[test]
fn run_step_launches_a_batch() {
    let cfg = layout();
    let mut sim = Simulation::new(cfg);
    assert_eq!(sim.run_step(16), Ok(()));
    assert_eq!(sim.samples.len(), 5);
    assert_eq!(sim.run_step(16), Ok(()));
    assert_eq!(sim.samples.len(), 10);
}

#[test]
fn counts_never_decrease_over_a_run() {
    let cfg = layout();
    let mut sim = Simulation::new(cfg);
    let mut last = (0, 0);
    for _ in 0..600 {
        assert_eq!(sim.run_step(16), Ok(()));
        assert!(sim.stats.circle_hits >= last.0);
        assert!(sim.stats.square_hits >= last.1);
        last = (sim.stats.circle_hits, sim.stats.square_hits);
    }
    assert!(sim.stats.circle_hits > 0);
}

#[test]
fn thousand_samples_estimate_pi() {
    let cfg = layout();
    let mut sim = Simulation::new(cfg);
    sim.generate(1000);
    let mut steps = 0;
    while !sim.samples.is_empty() {
        assert_eq!(sim.step(16), Ok(()));
        steps += 1;
        assert!(steps < 10000);
    }
    assert!(sim.stats.circle_hits + sim.stats.square_hits <= 1000);
    let (c, s) = sim.stats.current_estimate().unwrap();
    let estimate = c as f64 / s as f64;
    assert!((estimate - std::f64::consts::PI).abs() < 2.0, "estimate {}", estimate);
}

#[test]
fn estimate_is_ratio_of_counts() {
    let mut st = Statistics::new();
    assert_eq!(st.current_estimate(), None);
    assert_eq!(st.estimate_scaled(10000), None);
    for _ in 0..22 {
        st.record_hit(Region::Circle);
    }
    for _ in 0..7 {
        st.record_hit(Region::Square);
    }
    assert_eq!(st.circle_hits, 22);
    assert_eq!(st.square_hits, 7);
    assert_eq!(st.current_estimate(), Some((22, 7)));
    assert_eq!(st.estimate_scaled(10000), Some(31428));
    let (c, s) = st.current_estimate().unwrap();
    assert_eq!(c as f64 / s as f64, 22.0 / 7.0);
}

#[test]
fn estimate_is_stable_between_hits() {
    let mut st = Statistics::new();
    st.record_hit(Region::Circle);
    st.record_hit(Region::Square);
    st.record_hit(Region::Square);
    let a = st.current_estimate();
    let b = st.current_estimate();
    assert_eq!(a, b);
    assert_eq!(st.estimate_scaled(10000), st.estimate_scaled(10000));
    assert_eq!(a, Some((1, 2)));
}

#[test]
fn estimate_with_zero_circle_hits() {
    let st = Statistics { circle_hits: 0, square_hits: 4 };
    assert_eq!(st.current_estimate(), Some((0, 4)));
    assert_eq!(st.estimate_scaled(10000), Some(0));
}
