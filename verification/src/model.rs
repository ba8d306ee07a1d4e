//! Process model: parameters, state channels, and the mass-balance
//! derivative with its embedded oxygen controller.
//!
//! All quantities are fixed-point numbers (see [`crate::fixed`]).  Times
//! are minutes, volumes litres, concentrations grams or moles per litre,
//! matching the units the measured data arrives in.

use vstd::prelude::*;
use crate::fixed::{SCALE, fits, tdiv, mul_val, div_val, fx_add, fx_sub, fx_mul, fx_div, fx_scale_div};

verus! {

/// Feed volumetric rate as a fraction of reactor volume per day.
pub const FEED_RATE: i64 = 30_000_000_000;

/// Reference reactor volume in litres.
pub const VOLUME: i64 = 45_000_000_000_000;

/// Mole fraction of oxygen in air.
pub const O2_FRACTION: i64 = 210_000_000_000;

/// One hundred, in fixed-point units; dissolved oxygen is reported as a
/// percentage of saturation.
pub const HUNDRED: i64 = 100_000_000_000_000;

/// The factor that converts the stored specific oxygen uptake rate into
/// its working magnitude (ten orders below one).
pub const UPTAKE_UNIT: i64 = 100;

/// Minutes per day.
pub const MINUTES_PER_DAY: i64 = 1440;

/// Initial conditions: the caller-visible seed of a simulation.  The
/// dissolved-oxygen entry is a percentage of saturation and is converted
/// to a concentration when the starting state is built; gas flow and
/// product always start at zero.
#[derive(Clone, Copy, PartialEq, Eq, Structural, Debug)]
pub struct Initial {
    pub volume: i64,
    pub vcd: i64,
    pub glucose: i64,
    pub glutamin: i64,
    pub oxigen_part: i64,
}

impl Initial {
    /// The default seed: 45 L, 0.5 VCD, 12 glucose, 7 glutamine, 80 % DO.
    pub fn default() -> (r: Initial)
        ensures
            r == spec_initial_default(),
    {
        Initial {
            volume: VOLUME,
            vcd: 500_000_000_000,
            glucose: 12_000_000_000_000,
            glutamin: 7_000_000_000_000,
            oxigen_part: 80_000_000_000_000,
        }
    }
}

/// The default initial conditions as a value.
pub open spec fn spec_initial_default() -> Initial {
    Initial {
        volume: VOLUME,
        vcd: 500_000_000_000,
        glucose: 12_000_000_000_000,
        glutamin: 7_000_000_000_000,
        oxigen_part: 80_000_000_000_000,
    }
}

/// One sample of the process state: the seven ordered channels.
#[derive(Clone, Copy, PartialEq, Eq, Structural, Debug)]
pub struct State {
    pub volume: i64,
    pub vcd: i64,
    pub gluc: i64,
    pub glut: i64,
    pub c_O2: i64,
    pub O2_flow: i64,
    pub product: i64,
}

/// The derivative of every state channel at one evaluation point.
#[derive(Clone, Copy, PartialEq, Eq, Structural, Debug)]
pub struct Derivs {
    pub volume: i64,
    pub vcd: i64,
    pub gluc: i64,
    pub glut: i64,
    pub c_O2: i64,
    pub O2_flow: i64,
    pub product: i64,
}

/// Process parameters.  Immutable during one integration; calibration
/// derives a fresh set instead of mutating one in place.
#[derive(Clone, Copy, PartialEq, Eq, Structural, Debug)]
pub struct Bioreactor {
    pub k_product: i64,
    pub mu: i64,
    pub n_vcd: i64,
    pub ks_gluc: i64,
    pub k_gluc: i64,
    pub gluc_feed: i64,
    pub ks_glut: i64,
    pub k_glut: i64,
    pub glut_feed: i64,
    pub feed_min: i64,
    pub fi_v: i64,
    pub k_c_O2: i64,
    pub pzv: i64,
    pub air_flow: i64,
    pub O2_min: i64,
    pub k_O2: i64,
    pub henry: i64,
    pub c_O2_SAT: i64,
    pub fi_O2_max: i64,
    pub O2_flow_max: i64,
    pub O2_feed_rate: i64,
    pub initial: Initial,
}

/// The default parameter set.
pub open spec fn spec_default() -> Bioreactor {
    Bioreactor {
        k_product: 1_000_000_000,
        mu: 1_000_000_000,
        n_vcd: 700_000_000_000,
        ks_gluc: 50_000_000_000,
        k_gluc: 100_000_000,
        gluc_feed: 12_000_000_000_000,
        ks_glut: 50_000_000_000,
        k_glut: 100_000_000,
        glut_feed: 7_000_000_000_000,
        feed_min: 2_000_000_000_000,
        fi_v: 937_500_000,
        k_c_O2: 1_000_000_000,
        pzv: 13_000_000_000_000,
        air_flow: 500_000_000_000,
        O2_min: 25_000_000_000_000,
        k_O2: SCALE,
        henry: 1_606_600_000,
        c_O2_SAT: 337_386_000,
        fi_O2_max: 15_000_000_000_000,
        O2_flow_max: 15_000_000_000_000,
        O2_feed_rate: 1_944_400_000_000,
        initial: spec_initial_default(),
    }
}

impl Bioreactor {
    /// Build a parameter set from every constant.  The oxygen saturation
    /// concentration is derived from Henry's constant and the oxygen
    /// fraction of air; the specific uptake rate is rescaled to its
    /// working magnitude.
    #[verifier::rlimit(20)]
    pub fn new(
        k_product: i64,
        mu: i64,
        n_vcd: i64,
        ks_gluc: i64,
        k_gluc: i64,
        gluc_feed: i64,
        k_do: i64,
        ks_glut: i64,
        k_glut: i64,
        glut_feed: i64,
        feed_min: i64,
        fi_v: i64,
        pzv: i64,
        air_flow: i64,
        O2_min: i64,
        k_O2: i64,
        henry: i64,
        fi_O2_max: i64,
        O2_flow_max: i64,
        O2_feed_rate: i64,
        initial: Initial,
    ) -> (r: Bioreactor)
        ensures
            r == (Bioreactor {
                k_product,
                mu,
                n_vcd,
                ks_gluc,
                k_gluc,
                gluc_feed,
                ks_glut,
                k_glut,
                glut_feed,
                feed_min,
                fi_v,
                k_c_O2: k_do,
                pzv,
                air_flow,
                O2_min,
                k_O2,
                henry,
                c_O2_SAT: mul_val(henry as int, O2_FRACTION as int) as i64,
                fi_O2_max,
                O2_flow_max,
                O2_feed_rate: mul_val(O2_feed_rate as int, UPTAKE_UNIT as int) as i64,
                initial,
            }),
    {
        proof {
            crate::fixed::lemma_mul_val_shrinks(henry as int, O2_FRACTION as int);
            crate::fixed::lemma_mul_val_shrinks(O2_feed_rate as int, UPTAKE_UNIT as int);
        }
        let sat = match fx_mul(henry, O2_FRACTION) {
            Some(v) => v,
            None => 0,
        };
        let uptake = match fx_mul(O2_feed_rate, UPTAKE_UNIT) {
            Some(v) => v,
            None => 0,
        };
        Bioreactor {
            k_product,
            mu,
            n_vcd,
            ks_gluc,
            k_gluc,
            gluc_feed,
            ks_glut,
            k_glut,
            glut_feed,
            feed_min,
            fi_v,
            k_c_O2: k_do,
            pzv,
            air_flow,
            O2_min,
            k_O2,
            henry,
            c_O2_SAT: sat,
            fi_O2_max,
            O2_flow_max,
            O2_feed_rate: uptake,
            initial,
        }
    }

    /// The default parameter set.
    pub fn default() -> (r: Bioreactor)
        ensures
            r == spec_default(),
    {
        Bioreactor {
            k_product: 1_000_000_000,
            mu: 1_000_000_000,
            n_vcd: 700_000_000_000,
            ks_gluc: 50_000_000_000,
            k_gluc: 100_000_000,
            gluc_feed: 12_000_000_000_000,
            ks_glut: 50_000_000_000,
            k_glut: 100_000_000,
            glut_feed: 7_000_000_000_000,
            feed_min: 2_000_000_000_000,
            fi_v: 937_500_000,
            k_c_O2: 1_000_000_000,
            pzv: 13_000_000_000_000,
            air_flow: 500_000_000_000,
            O2_min: 25_000_000_000_000,
            k_O2: SCALE,
            henry: 1_606_600_000,
            c_O2_SAT: 337_386_000,
            fi_O2_max: 15_000_000_000_000,
            O2_flow_max: 15_000_000_000_000,
            O2_feed_rate: 1_944_400_000_000,
            initial: Initial::default(),
        }
    }

    /// The default set with the five fitted kinetic constants replaced.
    pub fn fit(mu: i64, ks_gluc: i64, k_gluc: i64, ks_glut: i64, k_glut: i64) -> (r: Bioreactor)
        ensures
            r == (Bioreactor { mu, ks_gluc, k_gluc, ks_glut, k_glut, ..spec_default() }),
    {
        let mut def = Bioreactor::default();
        def.mu = mu;
        def.ks_gluc = ks_gluc;
        def.k_gluc = k_gluc;
        def.ks_glut = ks_glut;
        def.k_glut = k_glut;
        def
    }

    /// The dissolved-oxygen concentration at saturation.
    pub fn oxigen_saturation(&self) -> (r: i64)
        ensures
            r == self.c_O2_SAT,
    {
        self.c_O2_SAT
    }

    /// The starting state: initial conditions with the dissolved-oxygen
    /// percentage converted to a concentration, gas flow and product at
    /// zero.  `None` when the conversion overflows.
    pub fn initial_state(&self) -> (r: Option<State>)
        ensures
            match r {
                Some(s) => {
                    &&& fits(mul_val(self.initial.oxigen_part as int, self.c_O2_SAT as int))
                    &&& s == spec_seed(*self)
                },
                None => !fits(mul_val(self.initial.oxigen_part as int, self.c_O2_SAT as int)),
            },
    {
        let scaled = match fx_mul(self.initial.oxigen_part, self.c_O2_SAT) {
            Some(v) => v,
            None => {
                return None;
            },
        };
        let c = match scaled.checked_div(100) {
            Some(v) => v,
            None => 0,
        };
        Some(State {
            volume: self.initial.volume,
            vcd: self.initial.vcd,
            gluc: self.initial.glucose,
            glut: self.initial.glutamin,
            c_O2: c,
            O2_flow: 0,
            product: 0,
        })
    }
}

/// The seeded dissolved-oxygen concentration: the configured percentage
/// of the saturation concentration.
pub open spec fn spec_initial_c_O2(p: Bioreactor) -> int {
    crate::fixed::tdiv(mul_val(p.initial.oxigen_part as int, p.c_O2_SAT as int), 100)
}

/// The state an integration starts from: the initial conditions, with
/// the dissolved-oxygen percentage converted to a concentration and the
/// gas-flow and product channels at zero.
pub open spec fn spec_seed(p: Bioreactor) -> State {
    State {
        volume: p.initial.volume,
        vcd: p.initial.vcd,
        gluc: p.initial.glucose,
        glut: p.initial.glutamin,
        c_O2: spec_initial_c_O2(p) as i64,
        O2_flow: 0,
        product: 0,
    }
}

/// Empirical factor of the oxygen mass-transfer correlation.
pub const KLA_FACTOR: i64 = 1_300_000_000;

/// The fractional powers one derivative evaluation needs.  They cannot be
/// computed in fixed point, so the caller evaluates them for the state the
/// derivative is asked at and passes them in:
/// `vcd_pow` stands for the viable cell density raised to `n_vcd`,
/// `pzv_pow` for the power-per-volume raised to 1.1, and `flow_pow` for
/// the total gas flow (air plus controlled oxygen) raised to 0.9.
#[derive(Clone, Copy, PartialEq, Eq, Structural, Debug)]
pub struct Powers {
    pub vcd_pow: i64,
    pub pzv_pow: i64,
    pub flow_pow: i64,
}

/// The saturating Monod factor `c / (ks + c)`.
pub open spec fn spec_monod(c: int, ks: int) -> int {
    div_val(c, ks + c)
}

/// Dissolved oxygen as a percentage of saturation.
pub open spec fn spec_do_pct(p: Bioreactor, c_O2: int) -> int {
    mul_val(div_val(c_O2, p.c_O2_SAT as int), HUNDRED as int)
}

/// Controller error: setpoint minus measured percentage.
pub open spec fn spec_do_err(p: Bioreactor, c_O2: int) -> int {
    p.O2_min - spec_do_pct(p, c_O2)
}

/// The controlled oxygen flow before clamping.
pub open spec fn spec_flow_raw(p: Bioreactor, c_O2: int) -> int {
    10 * mul_val(mul_val(p.k_O2 as int, spec_do_err(p, c_O2)), p.fi_O2_max as int)
}

/// The oxygen-control law: zero when the measured percentage sits at or
/// above the setpoint, otherwise proportional drive clamped at the
/// maximum flow.
pub open spec fn spec_flow_val(p: Bioreactor, c_O2: int) -> int {
    if spec_do_err(p, c_O2) > 0 {
        if spec_flow_raw(p, c_O2) > p.O2_flow_max {
            p.O2_flow_max as int
        } else {
            spec_flow_raw(p, c_O2)
        }
    } else {
        0
    }
}

/// When every intermediate of the control law is representable.
pub open spec fn spec_flow_defined(p: Bioreactor, c_O2: int) -> bool {
    &&& p.c_O2_SAT != 0
    &&& fits(div_val(c_O2, p.c_O2_SAT as int))
    &&& fits(spec_do_pct(p, c_O2))
    &&& fits(spec_do_err(p, c_O2))
    &&& (spec_do_err(p, c_O2) > 0 ==> {
        &&& fits(mul_val(p.k_O2 as int, spec_do_err(p, c_O2)))
        &&& fits(mul_val(mul_val(p.k_O2 as int, spec_do_err(p, c_O2)), p.fi_O2_max as int))
        &&& fits(spec_flow_raw(p, c_O2))
    })
}

impl Bioreactor {
    /// The oxygen controller, evaluated quasi-statically from the current
    /// dissolved-oxygen concentration.  `None` when an intermediate
    /// overflows or the saturation concentration is zero.
    pub fn oxygen_flow(&self, c_O2: i64) -> (r: Option<i64>)
        ensures
            r == (if spec_flow_defined(*self, c_O2 as int) {
                Some(spec_flow_val(*self, c_O2 as int) as i64)
            } else {
                None::<i64>
            }),
    {
        let frac = match fx_div(c_O2, self.c_O2_SAT) {
            Some(v) => v,
            None => {
                return None;
            },
        };
        let do_pct = match fx_mul(frac, HUNDRED) {
            Some(v) => v,
            None => {
                return None;
            },
        };
        let err = match fx_sub(self.O2_min, do_pct) {
            Some(v) => v,
            None => {
                return None;
            },
        };
        if err > 0 {
            let mv = match fx_mul(self.k_O2, err) {
                Some(v) => v,
                None => {
                    return None;
                },
            };
            let f1 = match fx_mul(mv, self.fi_O2_max) {
                Some(v) => v,
                None => {
                    return None;
                },
            };
            let f2 = match f1.checked_mul(10) {
                Some(v) => v,
                None => {
                    return None;
                },
            };
            if f2 > self.O2_flow_max {
                Some(self.O2_flow_max)
            } else {
                Some(f2)
            }
        } else {
            Some(0)
        }
    }
}

/// The oxygen flow a valid controller produces always lies between zero
/// and the configured maximum flow.
pub proof fn lemma_flow_clamped(p: Bioreactor, c_O2: int)
    requires
        p.k_O2 >= 0,
        p.fi_O2_max >= 0,
        p.O2_flow_max >= 0,
        spec_flow_defined(p, c_O2),
    ensures
        0 <= spec_flow_val(p, c_O2) <= p.O2_flow_max,
{
    let err = spec_do_err(p, c_O2);
    if err > 0 {
        crate::fixed::lemma_mul_val_nonneg(p.k_O2 as int, err);
        let mv = mul_val(p.k_O2 as int, err);
        crate::fixed::lemma_mul_val_nonneg(mv, p.fi_O2_max as int);
    }
}

/// Minutes at which continuous feeding starts.
pub open spec fn spec_feed_start(p: Bioreactor) -> int {
    MINUTES_PER_DAY * p.feed_min
}

/// The rate at which feed dilutes the broth: feed flow over volume.
pub open spec fn spec_dilution(p: Bioreactor, y: State) -> int {
    div_val(p.fi_v as int, y.volume as int)
}

/// The specific growth modifier: maximum rate limited by three Monod
/// factors, for glucose, glutamine, and dissolved oxygen.
pub open spec fn spec_c_mu(p: Bioreactor, y: State) -> int {
    mul_val(
        mul_val(
            mul_val(p.mu as int, spec_monod(y.gluc as int, p.ks_gluc as int)),
            spec_monod(y.glut as int, p.ks_glut as int),
        ),
        spec_monod(y.c_O2 as int, p.k_c_O2 as int),
    )
}

/// Biomass growth before dilution: the growth modifier times the supplied
/// power of the viable cell density.
pub open spec fn spec_growth(p: Bioreactor, y: State, pw: Powers) -> int {
    mul_val(spec_c_mu(p, y), pw.vcd_pow as int)
}

/// Substrate consumption before dilution (a nonpositive quantity for
/// nonnegative inputs): `-k * vcd * monod`.
pub open spec fn spec_consumption(k: int, vcd: int, m: int) -> int {
    0 - mul_val(mul_val(k, vcd), m)
}

/// The volumetric mass-transfer coefficient `kLa`, per minute.
pub open spec fn spec_kla(p: Bioreactor, pw: Powers) -> int {
    tdiv(mul_val(mul_val(KLA_FACTOR as int, pw.pzv_pow as int), pw.flow_pow as int), 60)
}

/// Oxygen content of the combined gas feed: the oxygen part of air plus
/// the pure-oxygen flow.
pub open spec fn spec_fiv_O2(p: Bioreactor, flow: int) -> int {
    mul_val(p.air_flow as int, O2_FRACTION as int) + flow
}

/// Equilibrium dissolved-oxygen concentration for the current gas mix.
pub open spec fn spec_c_O2_star(p: Bioreactor, flow: int) -> int {
    mul_val(p.henry as int, div_val(spec_fiv_O2(p, flow), p.air_flow as int + flow))
}

/// Oxygen uptake by the cells, per minute.
pub open spec fn spec_uptake(p: Bioreactor, y: State) -> int {
    60 * mul_val(y.vcd as int, p.O2_feed_rate as int)
}

/// Oxygen transfer from gas to broth, per minute.
pub open spec fn spec_otr(p: Bioreactor, y: State, pw: Powers, flow: int) -> int {
    mul_val(spec_kla(p, pw), spec_c_O2_star(p, flow) - y.c_O2)
}

/// When every intermediate of one derivative evaluation is representable
/// and every denominator nonzero.
pub open spec fn spec_system_defined(p: Bioreactor, x: i64, y: State, pw: Powers) -> bool {
    let m_gluc = spec_monod(y.gluc as int, p.ks_gluc as int);
    let m_glut = spec_monod(y.glut as int, p.ks_glut as int);
    let m_O2 = spec_monod(y.c_O2 as int, p.k_c_O2 as int);
    let flow = spec_flow_val(p, y.c_O2 as int);
    let cons_gluc = mul_val(mul_val(p.k_gluc as int, y.vcd as int), m_gluc);
    let cons_glut = mul_val(mul_val(p.k_glut as int, y.vcd as int), m_glut);
    &&& fits(p.ks_gluc + y.gluc) && p.ks_gluc + y.gluc != 0 && fits(m_gluc)
    &&& fits(p.ks_glut + y.glut) && p.ks_glut + y.glut != 0 && fits(m_glut)
    &&& fits(p.k_c_O2 + y.c_O2) && p.k_c_O2 + y.c_O2 != 0 && fits(m_O2)
    &&& fits(mul_val(p.mu as int, m_gluc))
    &&& fits(mul_val(mul_val(p.mu as int, m_gluc), m_glut))
    &&& fits(spec_c_mu(p, y))
    &&& fits(spec_growth(p, y, pw))
    &&& fits(mul_val(p.k_gluc as int, y.vcd as int)) && fits(cons_gluc) && fits(0 - cons_gluc)
    &&& fits(mul_val(p.k_glut as int, y.vcd as int)) && fits(cons_glut) && fits(0 - cons_glut)
    &&& fits(mul_val(p.k_product as int, y.vcd as int))
    &&& spec_flow_defined(p, y.c_O2 as int)
    &&& fits(p.air_flow + flow) && p.air_flow + flow != 0
    &&& fits(mul_val(KLA_FACTOR as int, pw.pzv_pow as int))
    &&& fits(mul_val(mul_val(KLA_FACTOR as int, pw.pzv_pow as int), pw.flow_pow as int))
    &&& fits(mul_val(p.air_flow as int, O2_FRACTION as int))
    &&& fits(spec_fiv_O2(p, flow))
    &&& fits(div_val(spec_fiv_O2(p, flow), p.air_flow as int + flow))
    &&& fits(spec_c_O2_star(p, flow))
    &&& fits(mul_val(y.vcd as int, p.O2_feed_rate as int)) && fits(spec_uptake(p, y))
    &&& fits(spec_c_O2_star(p, flow) - y.c_O2)
    &&& fits(spec_otr(p, y, pw, flow))
    &&& (y.c_O2 > 0 ==> fits(spec_otr(p, y, pw, flow) - spec_uptake(p, y)))
    &&& fits(spec_feed_start(p))
    &&& (x >= spec_feed_start(p) ==> {
        &&& y.volume != 0 && fits(spec_dilution(p, y))
        &&& fits(mul_val(y.vcd as int, spec_dilution(p, y)))
        &&& fits(spec_growth(p, y, pw) - mul_val(y.vcd as int, spec_dilution(p, y)))
        &&& fits(p.gluc_feed - y.gluc)
        &&& fits(mul_val(p.gluc_feed - y.gluc, spec_dilution(p, y)))
        &&& fits((0 - cons_gluc) + mul_val(p.gluc_feed - y.gluc, spec_dilution(p, y)))
        &&& fits(p.glut_feed - y.glut)
        &&& fits(mul_val(p.glut_feed - y.glut, spec_dilution(p, y)))
        &&& fits((0 - cons_glut) + mul_val(p.glut_feed - y.glut, spec_dilution(p, y)))
    })
}

/// The derivative of every channel at time `x` and state `y`, with the
/// supplied fractional powers.  Meaningful when
/// [`spec_system_defined`] holds.
pub open spec fn spec_system_value(p: Bioreactor, x: i64, y: State, pw: Powers) -> Derivs {
    let m_gluc = spec_monod(y.gluc as int, p.ks_gluc as int);
    let m_glut = spec_monod(y.glut as int, p.ks_glut as int);
    let flow = spec_flow_val(p, y.c_O2 as int);
    let d_vcd0 = spec_growth(p, y, pw);
    let d_gluc0 = 0 - mul_val(mul_val(p.k_gluc as int, y.vcd as int), m_gluc);
    let d_glut0 = 0 - mul_val(mul_val(p.k_glut as int, y.vcd as int), m_glut);
    let d_cO2 = if y.c_O2 > 0 {
        spec_otr(p, y, pw, flow) - spec_uptake(p, y)
    } else {
        spec_otr(p, y, pw, flow)
    };
    let dil = spec_dilution(p, y);
    if x < spec_feed_start(p) {
        Derivs {
            volume: 0,
            vcd: d_vcd0 as i64,
            gluc: d_gluc0 as i64,
            glut: d_glut0 as i64,
            c_O2: d_cO2 as i64,
            O2_flow: 0,
            product: mul_val(p.k_product as int, y.vcd as int) as i64,
        }
    } else {
        Derivs {
            volume: p.fi_v,
            vcd: (d_vcd0 - mul_val(y.vcd as int, dil)) as i64,
            gluc: (d_gluc0 + mul_val(p.gluc_feed - y.gluc, dil)) as i64,
            glut: (d_glut0 + mul_val(p.glut_feed - y.glut, dil)) as i64,
            c_O2: d_cO2 as i64,
            O2_flow: 0,
            product: mul_val(p.k_product as int, y.vcd as int) as i64,
        }
    }
}

impl Bioreactor {
    /// One derivative evaluation of the process model: triple-Monod
    /// growth, independent substrate consumption, growth-proportional
    /// product formation, controller-driven oxygen transfer against
    /// cellular uptake, and feed gating with dilution from the feed-start
    /// time on.  `None` when an intermediate is unrepresentable, the
    /// analogue of a non-finite value.
    pub fn system(&self, x: i64, y: &State, pw: &Powers) -> (r: Option<Derivs>)
        ensures
            r == (if spec_system_defined(*self, x, *y, *pw) {
                Some(spec_system_value(*self, x, *y, *pw))
            } else {
                None::<Derivs>
            }),
    {
        let den_gluc = match fx_add(self.ks_gluc, y.gluc) {
            Some(v) => v,
            None => {
                return None;
            },
        };
        let m_gluc = match fx_div(y.gluc, den_gluc) {
            Some(v) => v,
            None => {
                return None;
            },
        };
        let den_glut = match fx_add(self.ks_glut, y.glut) {
            Some(v) => v,
            None => {
                return None;
            },
        };
        let m_glut = match fx_div(y.glut, den_glut) {
            Some(v) => v,
            None => {
                return None;
            },
        };
        let den_O2 = match fx_add(self.k_c_O2, y.c_O2) {
            Some(v) => v,
            None => {
                return None;
            },
        };
        let m_O2 = match fx_div(y.c_O2, den_O2) {
            Some(v) => v,
            None => {
                return None;
            },
        };
        let t1 = match fx_mul(self.mu, m_gluc) {
            Some(v) => v,
            None => {
                return None;
            },
        };
        let t2 = match fx_mul(t1, m_glut) {
            Some(v) => v,
            None => {
                return None;
            },
        };
        let c_mu = match fx_mul(t2, m_O2) {
            Some(v) => v,
            None => {
                return None;
            },
        };
        let d_vcd0 = match fx_mul(c_mu, pw.vcd_pow) {
            Some(v) => v,
            None => {
                return None;
            },
        };
        let g1 = match fx_mul(self.k_gluc, y.vcd) {
            Some(v) => v,
            None => {
                return None;
            },
        };
        let g2 = match fx_mul(g1, m_gluc) {
            Some(v) => v,
            None => {
                return None;
            },
        };
        let d_gluc0 = match fx_sub(0, g2) {
            Some(v) => v,
            None => {
                return None;
            },
        };
        let l1 = match fx_mul(self.k_glut, y.vcd) {
            Some(v) => v,
            None => {
                return None;
            },
        };
        let l2 = match fx_mul(l1, m_glut) {
            Some(v) => v,
            None => {
                return None;
            },
        };
        let d_glut0 = match fx_sub(0, l2) {
            Some(v) => v,
            None => {
                return None;
            },
        };
        let d_prod = match fx_mul(self.k_product, y.vcd) {
            Some(v) => v,
            None => {
                return None;
            },
        };
        let flow = match self.oxygen_flow(y.c_O2) {
            Some(v) => v,
            None => {
                return None;
            },
        };
        let flow_total = match fx_add(self.air_flow, flow) {
            Some(v) => v,
            None => {
                return None;
            },
        };
        let ka = match fx_mul(KLA_FACTOR, pw.pzv_pow) {
            Some(v) => v,
            None => {
                return None;
            },
        };
        let kb = match fx_mul(ka, pw.flow_pow) {
            Some(v) => v,
            None => {
                return None;
            },
        };
        let kla = fx_scale_div(kb, 60);
        let air_O2 = match fx_mul(self.air_flow, O2_FRACTION) {
            Some(v) => v,
            None => {
                return None;
            },
        };
        let fiv_O2_c = match fx_add(air_O2, flow) {
            Some(v) => v,
            None => {
                return None;
            },
        };
        let x_O2 = match fx_div(fiv_O2_c, flow_total) {
            Some(v) => v,
            None => {
                return None;
            },
        };
        let c_O2_s = match fx_mul(self.henry, x_O2) {
            Some(v) => v,
            None => {
                return None;
            },
        };
        let o1 = match fx_mul(y.vcd, self.O2_feed_rate) {
            Some(v) => v,
            None => {
                return None;
            },
        };
        let out = match o1.checked_mul(60) {
            Some(v) => v,
            None => {
                return None;
            },
        };
        let diff = match fx_sub(c_O2_s, y.c_O2) {
            Some(v) => v,
            None => {
                return None;
            },
        };
        let otr = match fx_mul(kla, diff) {
            Some(v) => v,
            None => {
                return None;
            },
        };
        let d_cO2 = if y.c_O2 > 0 {
            match fx_sub(otr, out) {
                Some(v) => v,
                None => {
                    return None;
                },
            }
        } else {
            otr
        };
        let fm = match self.feed_min.checked_mul(MINUTES_PER_DAY) {
            Some(v) => v,
            None => {
                return None;
            },
        };
        if x < fm {
            Some(Derivs {
                volume: 0,
                vcd: d_vcd0,
                gluc: d_gluc0,
                glut: d_glut0,
                c_O2: d_cO2,
                O2_flow: 0,
                product: d_prod,
            })
        } else {
            let dil = match fx_div(self.fi_v, y.volume) {
                Some(v) => v,
                None => {
                    return None;
                },
            };
            let dv = match fx_mul(y.vcd, dil) {
                Some(v) => v,
                None => {
                    return None;
                },
            };
            let d_vcd = match fx_sub(d_vcd0, dv) {
                Some(v) => v,
                None => {
                    return None;
                },
            };
            let fg = match fx_sub(self.gluc_feed, y.gluc) {
                Some(v) => v,
                None => {
                    return None;
                },
            };
            let dg = match fx_mul(fg, dil) {
                Some(v) => v,
                None => {
                    return None;
                },
            };
            let d_gluc = match fx_add(d_gluc0, dg) {
                Some(v) => v,
                None => {
                    return None;
                },
            };
            let fl = match fx_sub(self.glut_feed, y.glut) {
                Some(v) => v,
                None => {
                    return None;
                },
            };
            let dl = match fx_mul(fl, dil) {
                Some(v) => v,
                None => {
                    return None;
                },
            };
            let d_glut = match fx_add(d_glut0, dl) {
                Some(v) => v,
                None => {
                    return None;
                },
            };
            Some(Derivs {
                volume: self.fi_v,
                vcd: d_vcd,
                gluc: d_gluc,
                glut: d_glut,
                c_O2: d_cO2,
                O2_flow: 0,
                product: d_prod,
            })
        }
    }
}

/// When either substrate is exhausted its Monod factor vanishes, so the
/// growth contribution to the viable-cell-density derivative is exactly
/// zero no matter how large the maximum growth rate is; before feeding
/// starts the whole derivative of that channel vanishes with it.
pub proof fn lemma_growth_stops_without_substrate(p: Bioreactor, x: i64, y: State, pw: Powers)
    requires
        y.gluc == 0 || y.glut == 0,
    ensures
        spec_growth(p, y, pw) == 0,
        x < spec_feed_start(p) ==> spec_system_value(p, x, y, pw).vcd == 0,
{
    if y.gluc == 0 {
        assert(spec_monod(0, p.ks_gluc as int) == 0);
    } else {
        assert(spec_monod(0, p.ks_glut as int) == 0);
    }
}

} // verus!
