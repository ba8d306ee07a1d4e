use bion::fixed::SCALE;
use bion::integrator::{Integrator, Sample};
use bion::model::{Bioreactor, Initial, Powers};
use bion::regressor::Group;
use bion::tabular::{export_rows, import_record, import_rows, record_of_row, Record};
use bion::tree::{default_store, Node, ParentNode, Tree};

fn fxp(v: f64) -> i64 {
    (v * 1e12).round() as i64
}

fn flp(v: i64) -> f64 {
    v as f64 / 1e12
}

fn sane_params() -> Bioreactor {
    Bioreactor::new(
        1_000_000_000,
        1_000_000_000,
        700_000_000_000,
        50_000_000_000,
        100_000_000,
        12 * SCALE,
        1_000_000_000,
        50_000_000_000,
        100_000_000,
        7 * SCALE,
        2 * SCALE,
        937_500_000,
        13 * SCALE,
        500_000_000_000,
        25 * SCALE,
        SCALE,
        1_606_600_000,
        15 * SCALE,
        15 * SCALE,
        1_944_400_000_000,
        Initial::default(),
    )
}

fn powers_for(p: &Bioreactor, y: &bion::model::State) -> Powers {
    let vcd = flp(y.vcd).max(0.0);
    let total = (flp(p.air_flow) + flp(y.O2_flow)).max(0.0);
    Powers {
        vcd_pow: fxp(vcd.powf(flp(p.n_vcd))),
        pzv_pow: fxp(flp(p.pzv).powf(1.1)),
        flow_pow: fxp(total.powf(0.9)),
    }
}

fn run(sys: Bioreactor, step: i64, n: usize) -> Result<Vec<Sample>, ()> {
    let mut it = Integrator::new(sys, step, n).ok_or(())?;
    loop {
        if it.has_failed() {
            return Err(());
        }
        if it.finished() {
            return Ok(it.trajectory().clone());
        }
        let pw = match it.eval_point() {
            Some((_t, y)) => powers_for(&it.sys, &y),
            None => Powers { vcd_pow: 0, pzv_pow: 0, flow_pow: 0 },
        };
        it.advance(pw);
    }
}

fn empty_store() -> Tree {
    default_store()
}

#[test]
fn node_constructors_and_point() {
    assert_eq!(Node::default(), Node { x: 0, y: 0 });
    let n = Node::new(3, 4);
    assert_eq!(n, Node { x: 3, y: 4 });
    assert_eq!(n.point(), (3, 4));
    let pn = ParentNode::new(Group::VCD.label());
    assert_eq!(pn.name, "VCD");
    assert!(pn.children.is_empty());
}

#[test]
fn index_of_finds_first_matching_group() {
    let tree = empty_store();
    assert_eq!(tree.index_of(Group::VCD.label()), Some(0));
    assert_eq!(tree.index_of(Group::DO.label()), Some(4));
    assert_eq!(tree.index_of("Temperature".to_string()), None);
}

#[test]
fn add_appends_to_the_named_group_only() {
    let mut tree = empty_store();
    tree.add(Group::Glucose.label(), 3 * SCALE, 9 * SCALE);
    tree.add("NoSuchGroup".to_string(), SCALE, SCALE);
    assert_eq!(tree.nodes[1].children, vec![Node { x: 3 * SCALE, y: 9 * SCALE }]);
    for i in [0usize, 2, 3, 4] {
        assert!(tree.nodes[i].children.is_empty());
    }
}

#[test]
fn remove_deletes_the_nearest_point_within_threshold() {
    let mut tree = empty_store();
    // two candidates in range: squared distances 0.25 and 0.01; the
    // nearest goes even though the farther one comes first
    tree.add(Group::VCD.label(), 0, 0);
    tree.add(Group::VCD.label(), 400_000_000_000, 0);
    tree.add(Group::VCD.label(), 10 * SCALE, 0);
    tree.remove(Group::VCD.label(), 500_000_000_000, 0);
    assert_eq!(
        tree.nodes[0].children,
        vec![Node { x: 0, y: 0 }, Node { x: 10 * SCALE, y: 0 }],
    );
    // now only the origin point is in range
    tree.remove(Group::VCD.label(), 500_000_000_000, 0);
    assert_eq!(tree.nodes[0].children, vec![Node { x: 10 * SCALE, y: 0 }]);
    // nothing is close to this point any more
    tree.remove(Group::VCD.label(), 500_000_000_000, 0);
    assert_eq!(tree.nodes[0].children.len(), 1);
}

#[test]
fn remove_threshold_is_exclusive_at_point_eight() {
    let mut tree = empty_store();
    tree.add(Group::VCD.label(), 0, 0);
    // squared distance 0.81: stays
    tree.remove(Group::VCD.label(), 900_000_000_000, 0);
    assert_eq!(tree.nodes[0].children.len(), 1);
    // squared distance 0.7921: removed
    tree.remove(Group::VCD.label(), 890_000_000_000, 0);
    assert_eq!(tree.nodes[0].children.len(), 0);
}

#[test]
fn remove_resolves_ties_by_position() {
    let mut tree = empty_store();
    // both points sit at squared distance 0.09; the earlier one goes
    tree.add(Group::VCD.label(), 200_000_000_000, 0);
    tree.add(Group::VCD.label(), 800_000_000_000, 0);
    tree.remove(Group::VCD.label(), 500_000_000_000, 0);
    assert_eq!(tree.nodes[0].children, vec![Node { x: 800_000_000_000, y: 0 }]);
}

#[test]
fn get_returns_points_or_none() {
    let mut tree = empty_store();
    assert_eq!(tree.get(Group::VCD.label()), None);
    tree.add(Group::VCD.label(), 7, 8);
    assert_eq!(tree.get(Group::VCD.label()), Some(vec![(7, 8)]));
    assert_eq!(tree.get("Temperature".to_string()), None);
}

#[test]
fn plot_points_lists_every_group_in_order() {
    let mut tree = empty_store();
    tree.add(Group::Product.label(), 1, 2);
    tree.add(Group::Product.label(), 3, 4);
    let series = tree.plot_points();
    assert_eq!(series.len(), 5);
    assert_eq!(series[3], vec![(1, 2), (3, 4)]);
    assert!(series[0].is_empty());
}

#[test]
fn rows_without_time_are_skipped() {
    let mut tree = empty_store();
    let rec = Record {
        minutes: None,
        vcd: Some(SCALE),
        gln: Some(SCALE),
        gluc: Some(SCALE),
        do_50: Some(SCALE),
        product: Some(SCALE),
    };
    import_record(&mut tree, &rec);
    for pn in &tree.nodes {
        assert!(pn.children.is_empty());
    }
}

#[test]
fn partial_rows_fill_only_present_fields() {
    let mut tree = empty_store();
    let rec = Record {
        minutes: Some(60 * SCALE),
        vcd: Some(2 * SCALE),
        gln: None,
        gluc: Some(11 * SCALE),
        do_50: None,
        product: None,
    };
    import_record(&mut tree, &rec);
    assert_eq!(tree.get(Group::VCD.label()), Some(vec![(60 * SCALE, 2 * SCALE)]));
    assert_eq!(tree.get(Group::Glucose.label()), Some(vec![(60 * SCALE, 11 * SCALE)]));
    assert_eq!(tree.get(Group::Glutamin.label()), None);
    assert_eq!(tree.get(Group::DO.label()), None);
    assert_eq!(tree.get(Group::Product.label()), None);
}

#[test]
fn export_fails_only_without_a_saturation() {
    let traj = run(sane_params(), 2 * SCALE, 10).unwrap();
    assert!(export_rows(&traj, sane_params().c_O2_SAT).is_some());
    assert!(export_rows(&traj, 0).is_none());
}

#[test]
fn export_rows_carry_every_channel() {
    let p = sane_params();
    let traj = run(p, 2 * SCALE, 10).unwrap();
    let rows = export_rows(&traj, p.c_O2_SAT).unwrap();
    assert_eq!(rows.len(), traj.len());
    for (row, s) in rows.iter().zip(traj.iter()) {
        assert_eq!(row.minutes, s.t);
        assert_eq!(row.volume, s.y.volume);
        assert_eq!(row.vcd, s.y.vcd);
        assert_eq!(row.glutamin, s.y.glut);
        assert_eq!(row.glucose, s.y.gluc);
        assert_eq!(row.c_O2, s.y.c_O2);
        assert_eq!(row.oxygen, s.y.O2_flow);
        assert_eq!(row.product, s.y.product);
    }
    // the seed sits at exactly 80 % dissolved oxygen
    assert_eq!(rows[0].DO, 80_000_000_000_000);
}

#[test]
fn export_then_import_reproduces_every_value() {
    let p = sane_params();
    let traj = run(p, 2 * SCALE, 50).unwrap();
    let rows = export_rows(&traj, p.c_O2_SAT).unwrap();
    let mut tree = empty_store();
    let records: Vec<Record> = rows.iter().map(record_of_row).collect();
    import_rows(&mut tree, &records);
    let vcd = tree.get(Group::VCD.label()).unwrap();
    let gluc = tree.get(Group::Glucose.label()).unwrap();
    let glut = tree.get(Group::Glutamin.label()).unwrap();
    let prod = tree.get(Group::Product.label()).unwrap();
    let oxy = tree.get(Group::DO.label()).unwrap();
    assert_eq!(vcd.len(), traj.len());
    for (i, s) in traj.iter().enumerate() {
        assert_eq!(vcd[i], (s.t, s.y.vcd));
        assert_eq!(gluc[i], (s.t, s.y.gluc));
        assert_eq!(glut[i], (s.t, s.y.glut));
        assert_eq!(prod[i], (s.t, s.y.product));
        assert_eq!(oxy[i], (s.t, rows[i].DO));
    }
}
