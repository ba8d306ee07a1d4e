use bion::fixed::SCALE;
use bion::integrator::{Integrator, Sample};
use bion::model::{Bioreactor, Initial, Powers};

fn fxp(v: f64) -> i64 {
    (v * 1e12).round() as i64
}

fn flp(v: i64) -> f64 {
    v as f64 / 1e12
}

/// The parameter set the simulator front loads by default: the model
/// defaults with the specific oxygen uptake rate at its working
/// magnitude.
fn sane_params() -> Bioreactor {
    Bioreactor::new(
        1_000_000_000,
        1_000_000_000,
        700_000_000_000,
        50_000_000_000,
        100_000_000,
        12 * SCALE,
        1_000_000_000,
        50_000_000_000,
        100_000_000,
        7 * SCALE,
        2 * SCALE,
        937_500_000,
        13 * SCALE,
        500_000_000_000,
        25 * SCALE,
        SCALE,
        1_606_600_000,
        15 * SCALE,
        15 * SCALE,
        1_944_400_000_000,
        Initial::default(),
    )
}

fn powers_for(p: &Bioreactor, y: &bion::model::State) -> Powers {
    let vcd = flp(y.vcd).max(0.0);
    let n = flp(p.n_vcd);
    let pzv = flp(p.pzv);
    let total = (flp(p.air_flow) + flp(y.O2_flow)).max(0.0);
    Powers {
        vcd_pow: fxp(vcd.powf(n)),
        pzv_pow: fxp(pzv.powf(1.1)),
        flow_pow: fxp(total.powf(0.9)),
    }
}

fn run(sys: Bioreactor, step: i64, n: usize) -> Result<Vec<Sample>, ()> {
    let mut it = Integrator::new(sys, step, n).ok_or(())?;
    loop {
        if it.has_failed() {
            return Err(());
        }
        if it.finished() {
            return Ok(it.trajectory().clone());
        }
        let pw = match it.eval_point() {
            Some((_t, y)) => powers_for(&it.sys, &y),
            None => Powers { vcd_pow: 0, pzv_pow: 0, flow_pow: 0 },
        };
        it.advance(pw);
    }
}

#[test]
fn trajectory_length_and_time_grid() {
    // one simulated day at two-minute steps
    let n = 720;
    let step = 2 * SCALE;
    let traj = run(sane_params(), step, n).unwrap();
    assert_eq!(traj.len(), n + 1);
    for (i, s) in traj.iter().enumerate() {
        assert_eq!(s.t, i as i64 * step);
    }
    for w in traj.windows(2) {
        assert_eq!(w[1].t - w[0].t, step);
    }
}

#[test]
fn volume_constant_before_feed_exact_steps_after() {
    let n = 2000;
    let step = 2 * SCALE;
    let feed_start = 2 * 1440 * SCALE;
    let traj = run(sane_params(), step, n).unwrap();
    // one two-minute step of feed: 2 * 9.375e-4 litres
    let per_step = 1_875_000_000i64;
    for w in traj.windows(2) {
        if w[1].t < feed_start {
            assert_eq!(w[1].y.volume, w[0].y.volume);
        }
        if w[0].t >= feed_start {
            assert_eq!(w[1].y.volume, w[0].y.volume + per_step);
        }
        assert!(w[1].y.volume >= w[0].y.volume);
    }
    for s in &traj {
        if s.t < feed_start {
            assert_eq!(s.y.volume, 45 * SCALE);
        }
    }
}

#[test]
fn oxygen_flow_channel_clamped_every_sample() {
    let traj = run(sane_params(), 2 * SCALE, 1000).unwrap();
    for s in &traj {
        assert!(s.y.O2_flow >= 0);
        assert!(s.y.O2_flow <= 15 * SCALE);
    }
}

#[test]
fn default_scenario_full_horizon() {
    // 14 days at two-minute steps
    let n = 10_080;
    let step = 2 * SCALE;
    let feed_start = 2 * 1440 * SCALE;
    let traj = run(sane_params(), step, n).unwrap();
    assert_eq!(traj.len(), n + 1);
    // the culture grows for the whole run: substrates never deplete
    for w in traj.windows(2) {
        assert!(w[1].y.vcd >= w[0].y.vcd);
    }
    // substrates only fall while the reactor is unfed
    for w in traj.windows(2) {
        if w[1].t < feed_start {
            assert!(w[1].y.gluc <= w[0].y.gluc);
            assert!(w[1].y.glut <= w[0].y.glut);
        }
    }
    // growth actually happened
    let first = traj.first().unwrap();
    let last = traj.last().unwrap();
    assert!(last.y.vcd > 2 * first.y.vcd);
    assert!(last.y.product > 0);
    assert!(last.y.gluc < first.y.gluc);
    // final volume: 45 L plus 8640 two-minute steps of feed at
    // 9.375e-4 L/min, plus one sixth of a step from the stage that
    // straddles the feed start
    assert_eq!(last.y.volume, 45 * SCALE + 8640 * per_step_feed() + per_step_feed() / 6);
    assert_eq!(last.y.volume, 61_200_312_500_000);
}

fn per_step_feed() -> i64 {
    1_875_000_000
}

#[test]
fn integration_is_deterministic() {
    let a = run(sane_params(), 2 * SCALE, 500).unwrap();
    let b = run(sane_params(), 2 * SCALE, 500).unwrap();
    assert_eq!(a, b);
}

#[test]
fn unrepresentable_arithmetic_fails_the_run() {
    // the bare default parameter set keeps the specific uptake rate at
    // its raw magnitude; oxygen crashes and the controller's percentage
    // overflows, which must surface as an explicit failure
    let res = run(Bioreactor::default(), 2 * SCALE, 100);
    assert!(res.is_err());
}

#[test]
fn failed_run_freezes_the_trajectory() {
    let mut it = Integrator::new(Bioreactor::default(), 2 * SCALE, 100).unwrap();
    let mut guard = 0;
    while !it.has_failed() && !it.finished() && guard < 10_000 {
        let pw = match it.eval_point() {
            Some((_t, y)) => powers_for(&it.sys, &y),
            None => Powers { vcd_pow: 0, pzv_pow: 0, flow_pow: 0 },
        };
        it.advance(pw);
        guard += 1;
    }
    assert!(it.has_failed());
    let len = it.trajectory().len();
    it.advance(Powers { vcd_pow: 1, pzv_pow: 1, flow_pow: 1 });
    assert_eq!(it.trajectory().len(), len);
}
