use bion::fixed::SCALE;
use bion::model::{Bioreactor, Initial, Powers, State};
use bion::regressor::{Mode, Param, Target};

fn default_state() -> State {
    State {
        volume: 45 * SCALE,
        vcd: 500_000_000_000,
        gluc: 12 * SCALE,
        glut: 7 * SCALE,
        c_O2: 269_908_800,
        O2_flow: 0,
        product: 0,
    }
}

#[test]
fn default_parameter_values() {
    let p = Bioreactor::default();
    assert_eq!(p.k_product, 1_000_000_000);
    assert_eq!(p.mu, 1_000_000_000);
    assert_eq!(p.n_vcd, 700_000_000_000);
    assert_eq!(p.ks_gluc, 50_000_000_000);
    assert_eq!(p.k_gluc, 100_000_000);
    assert_eq!(p.gluc_feed, 12 * SCALE);
    assert_eq!(p.ks_glut, 50_000_000_000);
    assert_eq!(p.k_glut, 100_000_000);
    assert_eq!(p.glut_feed, 7 * SCALE);
    assert_eq!(p.feed_min, 2 * SCALE);
    assert_eq!(p.fi_v, 937_500_000);
    assert_eq!(p.henry, 1_606_600_000);
    assert_eq!(p.c_O2_SAT, 337_386_000);
    assert_eq!(p.O2_flow_max, 15 * SCALE);
    assert_eq!(p.O2_feed_rate, 1_944_400_000_000);
    assert_eq!(p.initial.volume, 45 * SCALE);
    assert_eq!(p.initial.vcd, 500_000_000_000);
    assert_eq!(p.initial.glucose, 12 * SCALE);
    assert_eq!(p.initial.glutamin, 7 * SCALE);
    assert_eq!(p.initial.oxigen_part, 80 * SCALE);
}

#[test]
fn new_derives_saturation_and_uptake() {
    let p = Bioreactor::new(
        1_000_000_000,
        1_000_000_000,
        700_000_000_000,
        50_000_000_000,
        100_000_000,
        12 * SCALE,
        1_000_000_000,
        50_000_000_000,
        100_000_000,
        7 * SCALE,
        2 * SCALE,
        937_500_000,
        13 * SCALE,
        500_000_000_000,
        25 * SCALE,
        SCALE,
        1_606_600_000,
        15 * SCALE,
        15 * SCALE,
        1_944_400_000_000,
        Initial::default(),
    );
    // saturation = Henry's constant times the oxygen fraction of air
    assert_eq!(p.c_O2_SAT, 337_386_000);
    // the specific uptake rate is stored ten orders below its input
    assert_eq!(p.O2_feed_rate, 194);
    assert_eq!(p.k_c_O2, 1_000_000_000);
}

#[test]
fn fit_overrides_the_five_kinetic_constants() {
    let p = Bioreactor::fit(7, 8, 9, 10, 11);
    assert_eq!(p.mu, 7);
    assert_eq!(p.ks_gluc, 8);
    assert_eq!(p.k_gluc, 9);
    assert_eq!(p.ks_glut, 10);
    assert_eq!(p.k_glut, 11);
    assert_eq!(p.k_product, 1_000_000_000);
    assert_eq!(p.feed_min, 2 * SCALE);
}

#[test]
fn initial_state_converts_oxygen_percent() {
    let p = Bioreactor::default();
    let s = p.initial_state().unwrap();
    assert_eq!(s.volume, 45 * SCALE);
    assert_eq!(s.vcd, 500_000_000_000);
    assert_eq!(s.gluc, 12 * SCALE);
    assert_eq!(s.glut, 7 * SCALE);
    // 80 % of the saturation concentration 3.37386e-4
    assert_eq!(s.c_O2, 269_908_800);
    assert_eq!(s.O2_flow, 0);
    assert_eq!(s.product, 0);
}

#[test]
fn oxygen_flow_is_zero_above_the_setpoint() {
    let p = Bioreactor::default();
    assert_eq!(p.oxygen_flow(269_908_800), Some(0));
}

#[test]
fn oxygen_flow_is_clamped_at_the_maximum() {
    let p = Bioreactor::default();
    // zero dissolved oxygen: full proportional drive, clamped to max
    assert_eq!(p.oxygen_flow(0), Some(15 * SCALE));
}

#[test]
fn system_exact_before_feed_start() {
    let p = Bioreactor::default();
    let y = default_state();
    let pw = Powers {
        vcd_pow: 600_000_000_000,
        pzv_pow: 16_000_000_000_000,
        flow_pow: 500_000_000_000,
    };
    let d = p.system(0, &y, &pw).unwrap();
    assert_eq!(d.volume, 0);
    assert_eq!(d.vcd, 126_095_295);
    assert_eq!(d.gluc, -49_792_531);
    assert_eq!(d.glut, -49_645_390);
    assert_eq!(d.c_O2, -58_331_999_988_304);
    assert_eq!(d.O2_flow, 0);
    assert_eq!(d.product, 500_000_000);
}

#[test]
fn system_exact_after_feed_start() {
    let p = Bioreactor::default();
    let y = default_state();
    let pw = Powers {
        vcd_pow: 600_000_000_000,
        pzv_pow: 16_000_000_000_000,
        flow_pow: 500_000_000_000,
    };
    // 3000 minutes is past the feed start of 2 days = 2880 minutes
    let d = p.system(3_000_000_000_000_000, &y, &pw).unwrap();
    assert_eq!(d.volume, 937_500_000);
    assert_eq!(d.vcd, 115_678_629);
    // substrates sit exactly at their feed concentrations: no dilution
    assert_eq!(d.gluc, -49_792_531);
    assert_eq!(d.glut, -49_645_390);
    assert_eq!(d.product, 500_000_000);
}

#[test]
fn growth_stops_without_glucose() {
    let mut p = Bioreactor::default();
    // an enormous maximum growth rate must not matter
    p.mu = 100 * SCALE;
    let mut y = default_state();
    y.gluc = 0;
    let d = p.system(0, &y, &Powers {
        vcd_pow: 600_000_000_000,
        pzv_pow: 16_000_000_000_000,
        flow_pow: 500_000_000_000,
    })
    .unwrap();
    assert_eq!(d.vcd, 0);
}

#[test]
fn growth_stops_without_glutamine() {
    let mut p = Bioreactor::default();
    p.mu = 100 * SCALE;
    let mut y = default_state();
    y.glut = 0;
    let d = p.system(0, &y, &Powers {
        vcd_pow: 600_000_000_000,
        pzv_pow: 16_000_000_000_000,
        flow_pow: 500_000_000_000,
    })
    .unwrap();
    assert_eq!(d.vcd, 0);
}

#[test]
fn update_maps_each_target_to_exactly_one_field() {
    let base = Bioreactor::default();
    let cases = [
        Target::MuMax,
        Target::NVcd,
        Target::FeedRate,
        Target::Glucose,
        Target::Glutamin,
        Target::Product,
    ];
    for target in cases {
        let mut p = base;
        let param = Param { target, mode: Mode::Mixed };
        p.update(&param, 424_242);
        let expected = match target {
            Target::MuMax => p.mu,
            Target::NVcd => p.n_vcd,
            Target::FeedRate => p.fi_v,
            Target::Glucose => p.k_gluc,
            Target::Glutamin => p.k_glut,
            Target::Product => p.k_product,
        };
        assert_eq!(expected, 424_242);
        // every other field is untouched
        let mut q = p;
        q.update(&param, match target {
            Target::MuMax => base.mu,
            Target::NVcd => base.n_vcd,
            Target::FeedRate => base.fi_v,
            Target::Glucose => base.k_gluc,
            Target::Glutamin => base.k_glut,
            Target::Product => base.k_product,
        });
        assert_eq!(q, base);
    }
}

#[test]
fn param_default_targets_growth_rate_mixed() {
    let p = Param::default();
    assert_eq!(p.target, Target::MuMax);
    assert_eq!(p.mode, Mode::Mixed);
}
