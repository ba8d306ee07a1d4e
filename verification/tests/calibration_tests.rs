use bion::fixed::SCALE;
use bion::integrator::{Integrator, Sample};
use bion::model::{Bioreactor, Initial, Powers};
use bion::regressor::{
    translate, CandidateOutcome, Group, Mode, Param, Regressor, RegressorNode, Target, PENALTY_COST,
};
use bion::session::{CalibrationState, History, Session};
use bion::tree::{default_store, ParentNode, Tree};

fn fxp(v: f64) -> i64 {
    (v * 1e12).round() as i64
}

fn flp(v: i64) -> f64 {
    v as f64 / 1e12
}

fn sane_params() -> Bioreactor {
    Bioreactor::new(
        1_000_000_000,
        1_000_000_000,
        700_000_000_000,
        50_000_000_000,
        100_000_000,
        12 * SCALE,
        1_000_000_000,
        50_000_000_000,
        100_000_000,
        7 * SCALE,
        2 * SCALE,
        937_500_000,
        13 * SCALE,
        500_000_000_000,
        25 * SCALE,
        SCALE,
        1_606_600_000,
        15 * SCALE,
        15 * SCALE,
        1_944_400_000_000,
        Initial::default(),
    )
}

fn powers_for(p: &Bioreactor, y: &bion::model::State) -> Powers {
    let vcd = flp(y.vcd).max(0.0);
    let total = (flp(p.air_flow) + flp(y.O2_flow)).max(0.0);
    Powers {
        vcd_pow: fxp(vcd.powf(flp(p.n_vcd))),
        pzv_pow: fxp(flp(p.pzv).powf(1.1)),
        flow_pow: fxp(total.powf(0.9)),
    }
}

fn run(sys: Bioreactor, step: i64, n: usize) -> Result<Vec<Sample>, ()> {
    let mut it = Integrator::new(sys, step, n).ok_or(())?;
    loop {
        if it.has_failed() {
            return Err(());
        }
        if it.finished() {
            return Ok(it.trajectory().clone());
        }
        let pw = match it.eval_point() {
            Some((_t, y)) => powers_for(&it.sys, &y),
            None => Powers { vcd_pow: 0, pzv_pow: 0, flow_pow: 0 },
        };
        it.advance(pw);
    }
}

#[test]
fn regressor_default_is_empty_over_default_parameters() {
    let r = Regressor::default();
    assert!(r.nodes.is_empty());
    assert_eq!(r.simulation, Bioreactor::default());
    assert_eq!(r.param, Param::default());
    // the default matching tolerance is a thousandth of a minute
    assert_eq!(r.epsilon, 1_000_000_000);
}

#[test]
fn negative_candidate_pays_penalty_without_integrating() {
    let r = Regressor {
        nodes: Vec::new(),
        simulation: sane_params(),
        param: Param { target: Target::MuMax, mode: Mode::Mixed },
        epsilon: 100_000_000_000,
    };
    // the outcome carries the fixed penalty and no parameter set to
    // simulate, so no integrator can ever be built for this candidate
    let out = r.evaluate_candidate(-1);
    assert_eq!(out, CandidateOutcome::Penalty(PENALTY_COST));
    assert_eq!(PENALTY_COST, 100_000 * SCALE);
    let out2 = r.evaluate_candidate(-5 * SCALE);
    assert!(matches!(out2, CandidateOutcome::Penalty(_)));
}

#[test]
fn nonnegative_candidate_updates_exactly_the_target() {
    let base = sane_params();
    let r = Regressor {
        nodes: Vec::new(),
        simulation: base,
        param: Param { target: Target::Glucose, mode: Mode::Mixed },
        epsilon: 100_000_000_000,
    };
    match r.evaluate_candidate(777) {
        CandidateOutcome::Simulate(p) => {
            assert_eq!(p.k_gluc, 777);
            let mut back = p;
            back.k_gluc = base.k_gluc;
            assert_eq!(back, base);
        },
        CandidateOutcome::Penalty(_) => panic!("candidate in range was rejected"),
    }
}

#[test]
fn cost_is_zero_on_noiseless_observations() {
    let base = sane_params();
    let traj = run(base, 2 * SCALE, 200).unwrap();
    // observations sampled exactly from the trajectory
    let mut nodes = Vec::new();
    for &i in &[10usize, 50, 120, 199] {
        let s = &traj[i];
        nodes.push(RegressorNode { group: Group::VCD, x: s.t, y: s.y.vcd });
        nodes.push(RegressorNode { group: Group::Glucose, x: s.t, y: s.y.gluc });
        nodes.push(RegressorNode { group: Group::Glutamin, x: s.t, y: s.y.glut });
    }
    let r = Regressor {
        nodes,
        simulation: base,
        param: Param { target: Target::MuMax, mode: Mode::Mixed },
        epsilon: 100_000_000_000,
    };
    assert_eq!(r.score(&traj), Some(0));
}

#[test]
fn cost_is_positive_on_perturbed_observations() {
    let base = sane_params();
    let traj = run(base, 2 * SCALE, 100).unwrap();
    let s = &traj[40];
    let nodes = vec![RegressorNode { group: Group::VCD, x: s.t, y: s.y.vcd + SCALE }];
    let r = Regressor {
        nodes,
        simulation: base,
        param: Param { target: Target::MuMax, mode: Mode::Mixed },
        epsilon: 100_000_000_000,
    };
    let cost = r.score(&traj).unwrap();
    assert!(cost > 0);
}

#[test]
fn single_mode_scores_only_its_group() {
    let base = sane_params();
    let traj = run(base, 2 * SCALE, 100).unwrap();
    let s = &traj[40];
    // a glucose point that disagrees wildly, scored in VCD-only mode
    let nodes = vec![RegressorNode { group: Group::Glucose, x: s.t, y: s.y.gluc + 100 * SCALE }];
    let r = Regressor {
        nodes,
        simulation: base,
        param: Param { target: Target::MuMax, mode: Mode::Single(Group::VCD) },
        epsilon: 100_000_000_000,
    };
    assert_eq!(r.score(&traj), Some(0));
}

#[test]
fn unmatched_observations_score_zero() {
    let base = sane_params();
    let traj = run(base, 2 * SCALE, 50).unwrap();
    // a point far outside the trajectory's time range
    let nodes = vec![RegressorNode { group: Group::VCD, x: 9_000_000_000_000_000_000, y: SCALE }];
    let r = Regressor {
        nodes,
        simulation: base,
        param: Param { target: Target::MuMax, mode: Mode::Mixed },
        epsilon: 100_000_000_000,
    };
    assert_eq!(r.score(&traj), Some(0));
}

#[test]
fn unrepresentable_square_fails_the_score() {
    let base = sane_params();
    let traj = vec![Sample {
        t: 0,
        y: bion::model::State {
            volume: 0,
            vcd: 0,
            gluc: 0,
            glut: 0,
            c_O2: 0,
            O2_flow: 0,
            product: 0,
        },
    }];
    // the square of this measured value does not fit
    let nodes = vec![RegressorNode { group: Group::VCD, x: 0, y: 4_000_000_000_000_000_000 }];
    let r = Regressor {
        nodes,
        simulation: base,
        param: Param { target: Target::MuMax, mode: Mode::Mixed },
        epsilon: 100_000_000_000,
    };
    assert_eq!(r.score(&traj), None);
}

#[test]
fn translate_sorts_descending_and_keeps_points() {
    let mut tree = default_store();
    tree.add(Group::VCD.label(), SCALE, 2 * SCALE);
    tree.add(Group::VCD.label(), 5 * SCALE, 6 * SCALE);
    tree.add(Group::VCD.label(), 3 * SCALE, 4 * SCALE);
    tree.add(Group::Glucose.label(), 2 * SCALE, 9 * SCALE);
    let out = translate(tree);
    assert_eq!(out.len(), 4);
    let xs: Vec<i64> = out.iter().map(|n| n.x).collect();
    assert_eq!(xs, vec![5 * SCALE, 3 * SCALE, 2 * SCALE, SCALE]);
    assert_eq!(out[0], RegressorNode { group: Group::VCD, x: 5 * SCALE, y: 6 * SCALE });
    assert_eq!(out[1], RegressorNode { group: Group::VCD, x: 3 * SCALE, y: 4 * SCALE });
    assert_eq!(out[2], RegressorNode { group: Group::Glucose, x: 2 * SCALE, y: 9 * SCALE });
    assert_eq!(out[3], RegressorNode { group: Group::VCD, x: SCALE, y: 2 * SCALE });
}

#[test]
fn translate_ignores_unknown_groups() {
    let mut tree = Tree { nodes: vec![ParentNode::new("Temperature".to_string())] };
    tree.add("Temperature".to_string(), SCALE, SCALE);
    let out = translate(tree);
    assert_eq!(out.len(), 0);
}

#[test]
fn group_labels() {
    assert_eq!(Group::VCD.label(), "VCD");
    assert_eq!(Group::Glucose.label(), "Glucose");
    assert_eq!(Group::Glutamin.label(), "Glutamin");
    assert_eq!(Group::DO.label(), "DO");
    assert_eq!(Group::Product.label(), "Product");
}

#[test]
fn history_replace_retains_one_undo() {
    let a = sane_params();
    let mut b = a;
    b.mu = 123;
    let mut h = History::new(a);
    assert_eq!(h.previous, None);
    h.replace(b);
    assert_eq!(h.current, b);
    assert_eq!(h.previous, Some(a));
    assert!(h.undo());
    assert_eq!(h.current, a);
    // the retained set stays available
    assert_eq!(h.previous, Some(a));
}

#[test]
fn history_undo_without_previous_is_a_no_op() {
    let a = sane_params();
    let mut h = History::new(a);
    assert!(!h.undo());
    assert_eq!(h.current, a);
}

#[test]
fn failed_snapshot_load_leaves_state_untouched() {
    let a = sane_params();
    let mut h = History::new(a);
    assert!(!h.load(None));
    assert_eq!(h.current, a);
    assert_eq!(h.previous, None);
    let mut b = a;
    b.henry = 99;
    assert!(h.load(Some(b)));
    assert_eq!(h.current, b);
    assert_eq!(h.previous, Some(a));
}

#[test]
fn calibration_session_runs_and_installs_result() {
    let base = sane_params();
    let mut session = Session::new(base);
    assert_eq!(session.state, CalibrationState::Idle);
    let param = Param { target: Target::MuMax, mode: Mode::Mixed };
    let cost = session.start(param, Vec::new(), 100_000_000_000);
    assert_eq!(session.state, CalibrationState::Running);
    assert_eq!(cost.simulation, base);
    session.finish(&param, Some(555));
    assert_eq!(session.state, CalibrationState::Idle);
    assert_eq!(session.params.current.mu, 555);
    assert_eq!(session.params.previous, Some(base));
}

#[test]
fn calibration_session_failure_keeps_parameters() {
    let base = sane_params();
    let mut session = Session::new(base);
    let param = Param { target: Target::NVcd, mode: Mode::Mixed };
    let _ = session.start(param, Vec::new(), 100_000_000_000);
    session.finish(&param, None);
    assert_eq!(session.state, CalibrationState::Idle);
    assert_eq!(session.params.current, base);
    assert_eq!(session.params.previous, None);
}
