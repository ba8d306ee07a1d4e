//! Fixed-step fourth-order Runge-Kutta integration.
//!
//! The integrator advances the process state over a fixed number of
//! equal steps and records one sample per step, in ascending time order.
//! A derivative evaluation needs fractional powers that fixed-point
//! arithmetic cannot produce, so each step is taken in four stages: the
//! integrator exposes the state a stage must be evaluated at, the caller
//! supplies the matching [`Powers`], and [`Integrator::advance`] consumes
//! them.  Arithmetic that leaves the representable range marks the run
//! failed, the analogue of a non-finite trajectory.

use vstd::prelude::*;
use crate::fixed::{SCALE, fits, tdiv, mul_val};
use crate::model::{
    Bioreactor, State, Derivs, Powers, spec_flow_defined, spec_flow_val, spec_feed_start,
    spec_system_defined, spec_system_value, spec_seed, spec_initial_c_O2,
};

verus! {

/// Largest accepted step size (a thousand minutes), so that step-scaled
/// products stay representable in intermediate arithmetic.
pub const MAX_STEP: i64 = 1_000_000_000_000_000;

/// One recorded trajectory point.
#[derive(Clone, Copy, PartialEq, Eq, Structural, Debug)]
pub struct Sample {
    pub t: i64,
    pub y: State,
}

/// The volume derivative the feed gate yields at time `t`.
pub open spec fn spec_gate(p: Bioreactor, t: int) -> int {
    if t < spec_feed_start(p) {
        0
    } else {
        p.fi_v as int
    }
}

/// One channel of a stage state: `y + (h k) / den` in fixed point.
pub open spec fn axpy_val(y: int, k: int, h: int, den: int) -> int {
    y + tdiv(h * k, den * (SCALE as int))
}

/// Whether every channel of the stage state is representable.
pub open spec fn spec_axpy_defined(y: State, k: Derivs, h: int, den: int) -> bool {
    &&& fits(axpy_val(y.volume as int, k.volume as int, h, den))
    &&& fits(axpy_val(y.vcd as int, k.vcd as int, h, den))
    &&& fits(axpy_val(y.gluc as int, k.gluc as int, h, den))
    &&& fits(axpy_val(y.glut as int, k.glut as int, h, den))
    &&& fits(axpy_val(y.c_O2 as int, k.c_O2 as int, h, den))
    &&& fits(axpy_val(y.O2_flow as int, k.O2_flow as int, h, den))
    &&& fits(axpy_val(y.product as int, k.product as int, h, den))
}

/// The stage state itself.
pub open spec fn spec_axpy(y: State, k: Derivs, h: int, den: int) -> State {
    State {
        volume: axpy_val(y.volume as int, k.volume as int, h, den) as i64,
        vcd: axpy_val(y.vcd as int, k.vcd as int, h, den) as i64,
        gluc: axpy_val(y.gluc as int, k.gluc as int, h, den) as i64,
        glut: axpy_val(y.glut as int, k.glut as int, h, den) as i64,
        c_O2: axpy_val(y.c_O2 as int, k.c_O2 as int, h, den) as i64,
        O2_flow: axpy_val(y.O2_flow as int, k.O2_flow as int, h, den) as i64,
        product: axpy_val(y.product as int, k.product as int, h, den) as i64,
    }
}

/// One channel of the Runge-Kutta combination:
/// `y + h (k1 + 2 k2 + 2 k3 + k4) / 6` in fixed point.
pub open spec fn combine_val(y: int, k1: int, k2: int, k3: int, k4: int, h: int) -> int {
    y + tdiv(h * (k1 + 2 * k2 + 2 * k3 + k4), 6 * (SCALE as int))
}

/// Whether every channel of the combined state is representable.
pub open spec fn spec_combine_defined(y: State, k1: Derivs, k2: Derivs, k3: Derivs, k4: Derivs, h: int) -> bool {
    &&& fits(combine_val(y.volume as int, k1.volume as int, k2.volume as int, k3.volume as int, k4.volume as int, h))
    &&& fits(combine_val(y.vcd as int, k1.vcd as int, k2.vcd as int, k3.vcd as int, k4.vcd as int, h))
    &&& fits(combine_val(y.gluc as int, k1.gluc as int, k2.gluc as int, k3.gluc as int, k4.gluc as int, h))
    &&& fits(combine_val(y.glut as int, k1.glut as int, k2.glut as int, k3.glut as int, k4.glut as int, h))
    &&& fits(combine_val(y.c_O2 as int, k1.c_O2 as int, k2.c_O2 as int, k3.c_O2 as int, k4.c_O2 as int, h))
    &&& fits(combine_val(y.O2_flow as int, k1.O2_flow as int, k2.O2_flow as int, k3.O2_flow as int, k4.O2_flow as int, h))
    &&& fits(combine_val(y.product as int, k1.product as int, k2.product as int, k3.product as int, k4.product as int, h))
}

/// The combined state itself.
pub open spec fn spec_combine(y: State, k1: Derivs, k2: Derivs, k3: Derivs, k4: Derivs, h: int) -> State {
    State {
        volume: combine_val(y.volume as int, k1.volume as int, k2.volume as int, k3.volume as int, k4.volume as int, h) as i64,
        vcd: combine_val(y.vcd as int, k1.vcd as int, k2.vcd as int, k3.vcd as int, k4.vcd as int, h) as i64,
        gluc: combine_val(y.gluc as int, k1.gluc as int, k2.gluc as int, k3.gluc as int, k4.gluc as int, h) as i64,
        glut: combine_val(y.glut as int, k1.glut as int, k2.glut as int, k3.glut as int, k4.glut as int, h) as i64,
        c_O2: combine_val(y.c_O2 as int, k1.c_O2 as int, k2.c_O2 as int, k3.c_O2 as int, k4.c_O2 as int, h) as i64,
        O2_flow: combine_val(y.O2_flow as int, k1.O2_flow as int, k2.O2_flow as int, k3.O2_flow as int, k4.O2_flow as int, h) as i64,
        product: combine_val(y.product as int, k1.product as int, k2.product as int, k3.product as int, k4.product as int, h) as i64,
    }
}

/// The magnitude of a step-scaled derivative stays far inside `i128`.
proof fn lemma_scaled_product_bounds(h: int, s: int, bound: int)
    requires
        0 < h <= MAX_STEP,
        0 <= bound,
        -bound <= s <= bound,
    ensures
        -((MAX_STEP as int) * bound) <= h * s <= (MAX_STEP as int) * bound,
{
    assert(-((MAX_STEP as int) * bound) <= h * s <= (MAX_STEP as int) * bound) by (nonlinear_arith)
        requires
            0 < h <= MAX_STEP,
            0 <= bound,
            -bound <= s <= bound,
    ;
}

/// One channel of a stage state.
fn axpy_channel(y: i64, k: i64, h: i64, den: i64) -> (r: Option<i64>)
    requires
        0 < h <= MAX_STEP,
        den == 1 || den == 2,
    ensures
        r == (if fits(axpy_val(y as int, k as int, h as int, den as int)) {
            Some(axpy_val(y as int, k as int, h as int, den as int) as i64)
        } else {
            None::<i64>
        }),
{
    proof {
        lemma_scaled_product_bounds(h as int, k as int, i64::MAX as int + 1);
    }
    let n: i128 = (h as i128) * (k as i128);
    let d: i128 = if den == 1 {
        SCALE as i128
    } else {
        2 * (SCALE as i128)
    };
    proof {
        crate::fixed::lemma_tdiv_magnitude(n as int, d as int);
    }
    let q: i128 = match n.checked_div(d) {
        Some(v) => v,
        None => 0,
    };
    let s: i128 = (y as i128) + q;
    if s > i64::MAX as i128 || s < i64::MIN as i128 {
        None
    } else {
        Some(s as i64)
    }
}

/// One channel of the Runge-Kutta combination.
fn combine_channel(y: i64, k1: i64, k2: i64, k3: i64, k4: i64, h: i64) -> (r: Option<i64>)
    requires
        0 < h <= MAX_STEP,
    ensures
        r == (if fits(combine_val(y as int, k1 as int, k2 as int, k3 as int, k4 as int, h as int)) {
            Some(combine_val(y as int, k1 as int, k2 as int, k3 as int, k4 as int, h as int) as i64)
        } else {
            None::<i64>
        }),
{
    let s: i128 = (k1 as i128) + 2 * (k2 as i128) + 2 * (k3 as i128) + (k4 as i128);
    proof {
        lemma_scaled_product_bounds(h as int, s as int, 6 * (i64::MAX as int + 1));
    }
    let n: i128 = (h as i128) * s;
    let d: i128 = 6 * (SCALE as i128);
    proof {
        crate::fixed::lemma_tdiv_magnitude(n as int, d as int);
    }
    let q: i128 = match n.checked_div(d) {
        Some(v) => v,
        None => 0,
    };
    let t: i128 = (y as i128) + q;
    if t > i64::MAX as i128 || t < i64::MIN as i128 {
        None
    } else {
        Some(t as i64)
    }
}

/// A stage state over every channel, `None` when any channel overflows.
fn axpy_state(y: &State, k: &Derivs, h: i64, den: i64) -> (r: Option<State>)
    requires
        0 < h <= MAX_STEP,
        den == 1 || den == 2,
    ensures
        r == (if spec_axpy_defined(*y, *k, h as int, den as int) {
            Some(spec_axpy(*y, *k, h as int, den as int))
        } else {
            None::<State>
        }),
{
    let volume = match axpy_channel(y.volume, k.volume, h, den) {
        Some(v) => v,
        None => {
            return None;
        },
    };
    let vcd = match axpy_channel(y.vcd, k.vcd, h, den) {
        Some(v) => v,
        None => {
            return None;
        },
    };
    let gluc = match axpy_channel(y.gluc, k.gluc, h, den) {
        Some(v) => v,
        None => {
            return None;
        },
    };
    let glut = match axpy_channel(y.glut, k.glut, h, den) {
        Some(v) => v,
        None => {
            return None;
        },
    };
    let c_O2 = match axpy_channel(y.c_O2, k.c_O2, h, den) {
        Some(v) => v,
        None => {
            return None;
        },
    };
    let O2_flow = match axpy_channel(y.O2_flow, k.O2_flow, h, den) {
        Some(v) => v,
        None => {
            return None;
        },
    };
    let product = match axpy_channel(y.product, k.product, h, den) {
        Some(v) => v,
        None => {
            return None;
        },
    };
    Some(State { volume, vcd, gluc, glut, c_O2, O2_flow, product })
}

/// The Runge-Kutta combination over every channel.
fn combine_state(y: &State, k1: &Derivs, k2: &Derivs, k3: &Derivs, k4: &Derivs, h: i64) -> (r: Option<State>)
    requires
        0 < h <= MAX_STEP,
    ensures
        r == (if spec_combine_defined(*y, *k1, *k2, *k3, *k4, h as int) {
            Some(spec_combine(*y, *k1, *k2, *k3, *k4, h as int))
        } else {
            None::<State>
        }),
{
    let volume = match combine_channel(y.volume, k1.volume, k2.volume, k3.volume, k4.volume, h) {
        Some(v) => v,
        None => {
            return None;
        },
    };
    let vcd = match combine_channel(y.vcd, k1.vcd, k2.vcd, k3.vcd, k4.vcd, h) {
        Some(v) => v,
        None => {
            return None;
        },
    };
    let gluc = match combine_channel(y.gluc, k1.gluc, k2.gluc, k3.gluc, k4.gluc, h) {
        Some(v) => v,
        None => {
            return None;
        },
    };
    let glut = match combine_channel(y.glut, k1.glut, k2.glut, k3.glut, k4.glut, h) {
        Some(v) => v,
        None => {
            return None;
        },
    };
    let c_O2 = match combine_channel(y.c_O2, k1.c_O2, k2.c_O2, k3.c_O2, k4.c_O2, h) {
        Some(v) => v,
        None => {
            return None;
        },
    };
    let O2_flow = match combine_channel(y.O2_flow, k1.O2_flow, k2.O2_flow, k3.O2_flow, k4.O2_flow, h) {
        Some(v) => v,
        None => {
            return None;
        },
    };
    let product = match combine_channel(y.product, k1.product, k2.product, k3.product, k4.product, h) {
        Some(v) => v,
        None => {
            return None;
        },
    };
    Some(State { volume, vcd, gluc, glut, c_O2, O2_flow, product })
}

/// The Runge-Kutta driver.  `samples` always holds one entry per
/// completed step plus the seed; `stage` counts the derivative
/// evaluations already taken for the step in progress, with their
/// results in `k1..k3` and the next evaluation's base state in `base`.
pub struct Integrator {
    pub sys: Bioreactor,
    pub step: i64,
    pub n_steps: usize,
    pub samples: Vec<Sample>,
    pub stage: u8,
    pub k1: Derivs,
    pub k2: Derivs,
    pub k3: Derivs,
    pub base: State,
    pub failed: bool,
}

impl Integrator {
    /// The most recent recorded sample's state.
    pub open spec fn last_y(self) -> State {
        self.samples@.last().y
    }

    /// The most recent recorded sample's time.
    pub open spec fn last_t(self) -> int {
        self.samples@.last().t as int
    }

    /// The time the pending derivative evaluation is taken at.
    pub open spec fn stage_time(self) -> int {
        if self.stage == 0 {
            self.last_t()
        } else if self.stage <= 2 {
            self.last_t() + tdiv(self.step as int, 2)
        } else {
            self.last_t() + self.step
        }
    }

    /// Every step has been taken.
    pub open spec fn done(self) -> bool {
        self.samples@.len() == self.n_steps + 1
    }

    /// Structural soundness: the time grid, the seeded first sample, the
    /// controller-written gas-flow channel, the volume profile of the
    /// feed gate, and the bookkeeping of the step in progress.
    pub open spec fn wf(self) -> bool {
        &&& 0 < self.step <= MAX_STEP
        &&& (self.n_steps as int) * (self.step as int) <= i64::MAX
        &&& 1 <= self.samples@.len() <= self.n_steps + 1
        &&& forall|i: int| 0 <= i < self.samples@.len() ==> (#[trigger] self.samples@[i]).t == i * self.step
        &&& self.samples@[0].y == spec_seed(self.sys)
        &&& forall|i: int| 1 <= i < self.samples@.len() ==> {
            &&& spec_flow_defined(self.sys, (#[trigger] self.samples@[i]).y.c_O2 as int)
            &&& self.samples@[i].y.O2_flow == spec_flow_val(self.sys, self.samples@[i].y.c_O2 as int)
        }
        &&& forall|i: int| 0 <= i < self.samples@.len() - 1 ==> {
            (#[trigger] self.samples@[i + 1]).t < spec_feed_start(self.sys)
                ==> self.samples@[i + 1].y.volume == self.samples@[i].y.volume
        }
        &&& forall|i: int| 0 <= i < self.samples@.len() - 1 ==> {
            (#[trigger] self.samples@[i]).t >= spec_feed_start(self.sys)
                ==> self.samples@[i + 1].y.volume as int
                    == self.samples@[i].y.volume + mul_val(self.step as int, self.sys.fi_v as int)
        }
        &&& (self.sys.fi_v >= 0 ==> forall|i: int| 0 <= i < self.samples@.len() - 1 ==> {
            (#[trigger] self.samples@[i + 1]).y.volume >= self.samples@[i].y.volume
        })
        &&& self.stage <= 3
        &&& (self.done() ==> self.stage == 0)
        &&& (!self.failed && !self.done() ==> {
            &&& (self.stage == 0 ==> self.base == self.last_y())
            &&& (self.stage >= 1 ==> self.k1.volume == spec_gate(self.sys, self.last_t()))
            &&& (self.stage >= 2 ==> self.k2.volume == spec_gate(
                self.sys,
                self.last_t() + tdiv(self.step as int, 2),
            ))
            &&& (self.stage == 3 ==> self.k3.volume == spec_gate(
                self.sys,
                self.last_t() + tdiv(self.step as int, 2),
            ))
        })
    }

    /// Whether the pending evaluation's controller value exists.
    pub open spec fn eval_ok(self) -> bool {
        spec_flow_defined(self.sys, self.base.c_O2 as int)
    }

    /// The pending evaluation's state: the base with the controller's
    /// flow written into the gas-flow channel.
    pub open spec fn eval_state(self) -> State {
        State { O2_flow: spec_flow_val(self.sys, self.base.c_O2 as int) as i64, ..self.base }
    }

    /// Start an integration: record the seed sample at time zero.
    /// `None` when the seed's oxygen conversion overflows.
    pub fn new(sys: Bioreactor, step: i64, n_steps: usize) -> (r: Option<Integrator>)
        requires
            0 < step <= MAX_STEP,
            (n_steps as int) * (step as int) <= i64::MAX,
        ensures
            match r {
                Some(it) => {
                    &&& it.wf()
                    &&& it.sys == sys
                    &&& it.step == step
                    &&& it.n_steps == n_steps
                    &&& !it.failed
                    &&& it.stage == 0
                    &&& it.samples@ =~= seq![Sample { t: 0, y: spec_seed(sys) }]
                },
                None => !fits(mul_val(sys.initial.oxigen_part as int, sys.c_O2_SAT as int)),
            },
    {
        let y0 = match sys.initial_state() {
            Some(v) => v,
            None => {
                return None;
            },
        };
        let zero = Derivs { volume: 0, vcd: 0, gluc: 0, glut: 0, c_O2: 0, O2_flow: 0, product: 0 };
        let mut samples: Vec<Sample> = Vec::new();
        samples.push(Sample { t: 0, y: y0 });
        let it = Integrator {
            sys,
            step,
            n_steps,
            samples,
            stage: 0,
            k1: zero,
            k2: zero,
            k3: zero,
            base: y0,
            failed: false,
        };
        proof {
            assert(it.samples@.len() == 1);
            assert(it.samples@[0].t == 0);
            assert(0 * (step as int) == 0) by (nonlinear_arith);
        }
        Some(it)
    }

    /// Every step taken and none failed.
    pub fn finished(&self) -> (r: bool)
        requires
            self.wf(),
        ensures
            r == self.done(),
    {
        self.samples.len() > self.n_steps
    }

    /// Whether the run has failed on unrepresentable arithmetic.
    pub fn has_failed(&self) -> (r: bool)
        ensures
            r == self.failed,
    {
        self.failed
    }

    /// The recorded trajectory so far.
    pub fn trajectory(&self) -> (r: &Vec<Sample>)
        ensures
            r == &self.samples,
    {
        &self.samples
    }

    /// The time and state the pending derivative evaluation is taken at,
    /// with the controller's flow already written into the gas-flow
    /// channel; the caller reads this state to compute the matching
    /// [`Powers`].  `None` when the controller value overflows, in which
    /// case the next [`Integrator::advance`] fails the run.
    pub fn eval_point(&self) -> (r: Option<(i64, State)>)
        requires
            self.wf(),
            !self.failed,
            !self.done(),
        ensures
            r == (if self.eval_ok() {
                Some((self.stage_time() as i64, self.eval_state()))
            } else {
                None::<(i64, State)>
            }),
            self.eval_ok() ==> self.stage_time() == self.stage_time() as i64,
    {
        proof {
            self.lemma_stage_time_fits();
        }
        let last = self.samples.len() - 1;
        let t0 = self.samples[last].t;
        let te = if self.stage == 0 {
            t0
        } else if self.stage <= 2 {
            t0 + crate::fixed::fx_scale_div(self.step, 2)
        } else {
            t0 + self.step
        };
        let flow = match self.sys.oxygen_flow(self.base.c_O2) {
            Some(v) => v,
            None => {
                return None;
            },
        };
        let mut ye = self.base;
        ye.O2_flow = flow;
        Some((te, ye))
    }

    /// The pending stage time lies on or inside the step after the last
    /// sample, so it stays representable.
    proof fn lemma_stage_time_fits(self)
        requires
            self.wf(),
            !self.done(),
        ensures
            0 <= self.last_t(),
            self.last_t() + self.step <= i64::MAX,
            0 <= self.stage_time() <= self.last_t() + self.step,
    {
        let len = self.samples@.len() as int;
        let h = self.step as int;
        assert(self.samples@[len - 1].t == (len - 1) * h);
        assert(0 <= (len - 1) * h) by (nonlinear_arith)
            requires
                len >= 1,
                h > 0,
        ;
        assert((len - 1) * h + h == len * h) by (nonlinear_arith);
        assert(len * h <= (self.n_steps as int) * h) by (nonlinear_arith)
            requires
                len <= self.n_steps as int,
                h > 0,
        ;
        crate::fixed::lemma_tdiv_bounds(h, 2);
    }

    /// Take one derivative evaluation, and on the fourth complete the
    /// step: combine the four derivatives, write the controller's flow
    /// into the new state's gas-flow channel, and record the sample one
    /// step later.  Any unrepresentable intermediate marks the run
    /// failed and freezes the trajectory.
    pub fn advance(&mut self, pw: Powers)
        requires
            old(self).wf(),
        ensures
            final(self).wf(),
            old(self).failed || old(self).done() ==> *final(self) == *old(self),
            !old(self).failed && !old(self).done() ==> {
                if !old(self).eval_ok() {
                    *final(self) == (Integrator { failed: true, ..*old(self) })
                } else if !spec_system_defined(
                    old(self).sys,
                    old(self).stage_time() as i64,
                    old(self).eval_state(),
                    pw,
                ) {
                    *final(self) == (Integrator { failed: true, ..*old(self) })
                } else {
                    let k = spec_system_value(
                        old(self).sys,
                        old(self).stage_time() as i64,
                        old(self).eval_state(),
                        pw,
                    );
                    if old(self).stage == 0 {
                        if spec_axpy_defined(old(self).last_y(), k, old(self).step as int, 2) {
                            *final(self) == (Integrator {
                                stage: 1,
                                k1: k,
                                base: spec_axpy(old(self).last_y(), k, old(self).step as int, 2),
                                ..*old(self)
                            })
                        } else {
                            *final(self) == (Integrator { failed: true, ..*old(self) })
                        }
                    } else if old(self).stage == 1 {
                        if spec_axpy_defined(old(self).last_y(), k, old(self).step as int, 2) {
                            *final(self) == (Integrator {
                                stage: 2,
                                k2: k,
                                base: spec_axpy(old(self).last_y(), k, old(self).step as int, 2),
                                ..*old(self)
                            })
                        } else {
                            *final(self) == (Integrator { failed: true, ..*old(self) })
                        }
                    } else if old(self).stage == 2 {
                        if spec_axpy_defined(old(self).last_y(), k, old(self).step as int, 1) {
                            *final(self) == (Integrator {
                                stage: 3,
                                k3: k,
                                base: spec_axpy(old(self).last_y(), k, old(self).step as int, 1),
                                ..*old(self)
                            })
                        } else {
                            *final(self) == (Integrator { failed: true, ..*old(self) })
                        }
                    } else {
                        if spec_combine_defined(
                            old(self).last_y(),
                            old(self).k1,
                            old(self).k2,
                            old(self).k3,
                            k,
                            old(self).step as int,
                        ) {
                            let yn = spec_combine(
                                old(self).last_y(),
                                old(self).k1,
                                old(self).k2,
                                old(self).k3,
                                k,
                                old(self).step as int,
                            );
                            if spec_flow_defined(old(self).sys, yn.c_O2 as int) {
                                let yr = (State {
                                    O2_flow: spec_flow_val(old(self).sys, yn.c_O2 as int) as i64,
                                    ..yn
                                });
                                &&& final(self).samples@ == old(self).samples@.push(
                                    Sample { t: (old(self).last_t() + old(self).step) as i64, y: yr },
                                )
                                &&& final(self).stage == 0
                                &&& final(self).base == yr
                                &&& final(self).failed == false
                                &&& final(self).sys == old(self).sys
                                &&& final(self).step == old(self).step
                                &&& final(self).n_steps == old(self).n_steps
                            } else {
                                *final(self) == (Integrator { failed: true, ..*old(self) })
                            }
                        } else {
                            *final(self) == (Integrator { failed: true, ..*old(self) })
                        }
                    }
                }
            },
    {
        if self.failed || self.samples.len() > self.n_steps {
            return;
        }
        proof {
            self.lemma_stage_time_fits();
        }
        let last = self.samples.len() - 1;
        let t0 = self.samples[last].t;
        let te = if self.stage == 0 {
            t0
        } else if self.stage <= 2 {
            t0 + crate::fixed::fx_scale_div(self.step, 2)
        } else {
            t0 + self.step
        };
        let flow = match self.sys.oxygen_flow(self.base.c_O2) {
            Some(v) => v,
            None => {
                self.failed = true;
                return;
            },
        };
        let mut ye = self.base;
        ye.O2_flow = flow;
        let k = match self.sys.system(te, &ye, &pw) {
            Some(v) => v,
            None => {
                self.failed = true;
                return;
            },
        };
        let y0 = self.samples[last].y;
        if self.stage == 0 {
            let nb = match axpy_state(&y0, &k, self.step, 2) {
                Some(v) => v,
                None => {
                    self.failed = true;
                    return;
                },
            };
            self.k1 = k;
            self.base = nb;
            self.stage = 1;
        } else if self.stage == 1 {
            let nb = match axpy_state(&y0, &k, self.step, 2) {
                Some(v) => v,
                None => {
                    self.failed = true;
                    return;
                },
            };
            self.k2 = k;
            self.base = nb;
            self.stage = 2;
        } else if self.stage == 2 {
            let nb = match axpy_state(&y0, &k, self.step, 1) {
                Some(v) => v,
                None => {
                    self.failed = true;
                    return;
                },
            };
            self.k3 = k;
            self.base = nb;
            self.stage = 3;
        } else {
            let yn = match combine_state(&y0, &self.k1, &self.k2, &self.k3, &k, self.step) {
                Some(v) => v,
                None => {
                    self.failed = true;
                    return;
                },
            };
            let fl = match self.sys.oxygen_flow(yn.c_O2) {
                Some(v) => v,
                None => {
                    self.failed = true;
                    return;
                },
            };
            let mut yr = yn;
            yr.O2_flow = fl;
            let tn = t0 + self.step;
            self.samples.push(Sample { t: tn, y: yr });
            self.stage = 0;
            self.base = yr;
            proof {
                self.lemma_push_preserves_wf(*old(self), k);
            }
        }
    }

    /// Completing a step preserves well-formedness: the new sample sits
    /// one step later on the grid, its gas-flow channel is the
    /// controller's, and its volume obeys the feed gate.
    proof fn lemma_push_preserves_wf(self, prev: Integrator, k4: Derivs)
        requires
            prev.wf(),
            !prev.failed,
            !prev.done(),
            prev.stage == 3,
            spec_combine_defined(prev.last_y(), prev.k1, prev.k2, prev.k3, k4, prev.step as int),
            k4.volume == spec_gate(prev.sys, prev.last_t() + prev.step),
            spec_flow_defined(
                prev.sys,
                spec_combine(prev.last_y(), prev.k1, prev.k2, prev.k3, k4, prev.step as int).c_O2 as int,
            ),
            self.sys == prev.sys,
            self.step == prev.step,
            self.n_steps == prev.n_steps,
            self.stage == 0,
            self.failed == false,
            self.samples@ == prev.samples@.push(Sample {
                t: (prev.last_t() + prev.step) as i64,
                y: (State {
                    O2_flow: spec_flow_val(
                        prev.sys,
                        spec_combine(prev.last_y(), prev.k1, prev.k2, prev.k3, k4, prev.step as int).c_O2 as int,
                    ) as i64,
                    ..spec_combine(prev.last_y(), prev.k1, prev.k2, prev.k3, k4, prev.step as int)
                }),
            }),
            self.base == self.samples@.last().y,
        ensures
            self.wf(),
    {
        let h = prev.step as int;
        let len = prev.samples@.len() as int;
        let fm = spec_feed_start(prev.sys);
        let y0 = prev.last_y();
        let yn = spec_combine(y0, prev.k1, prev.k2, prev.k3, k4, h);
        let tn = prev.last_t() + h;
        let half = tdiv(h, 2);
        crate::fixed::lemma_tdiv_bounds(h, 2);
        assert(prev.samples@[len - 1].t == (len - 1) * h);
        assert((len - 1) * h + h == len * h) by (nonlinear_arith);
        assert(0 <= (len - 1) * h) by (nonlinear_arith)
            requires
                len >= 1,
                h > 0,
        ;
        assert(len * h <= (prev.n_steps as int) * h) by (nonlinear_arith)
            requires
                len <= prev.n_steps as int,
                h > 0,
        ;
        assert(self.samples@[len].t == tn);
        assert(tn == len * h);
        assert forall|i: int| 0 <= i < self.samples@.len() implies (#[trigger] self.samples@[i]).t
            == i * self.step by {
            if i < len {
                assert(self.samples@[i] == prev.samples@[i]);
            }
        }
        let g1 = prev.k1.volume as int;
        let g2 = prev.k2.volume as int;
        let g3 = prev.k3.volume as int;
        let g4 = k4.volume as int;
        let sum = g1 + 2 * g2 + 2 * g3 + g4;
        let inc = tdiv(h * sum, 6 * (SCALE as int));
        assert(yn.volume as int == y0.volume + inc);
        if tn < fm {
            assert(prev.last_t() < fm);
            assert(prev.last_t() + half < fm);
            assert(sum == 0);
            assert(h * 0 == 0) by (nonlinear_arith);
            assert(inc == 0);
        }
        if prev.last_t() >= fm {
            assert(g1 == prev.sys.fi_v && g2 == prev.sys.fi_v && g3 == prev.sys.fi_v && g4
                == prev.sys.fi_v);
            assert(sum == 6 * (prev.sys.fi_v as int));
            assert(h * (6 * (prev.sys.fi_v as int)) == 6 * (h * (prev.sys.fi_v as int)))
                by (nonlinear_arith);
            crate::fixed::lemma_tdiv_mul_cancel(h * (prev.sys.fi_v as int), 6, SCALE as int);
            assert(inc == mul_val(h, prev.sys.fi_v as int));
        }
        if prev.sys.fi_v >= 0 {
            assert(0 <= g1 && 0 <= g2 && 0 <= g3 && 0 <= g4);
            assert(h * sum >= 0) by (nonlinear_arith)
                requires
                    h > 0,
                    sum >= 0,
            ;
            crate::fixed::lemma_tdiv_bounds(h * sum, 6 * (SCALE as int));
            assert(inc >= 0);
        }
        assert forall|i: int| 0 <= i < self.samples@.len() - 1 implies {
            (#[trigger] self.samples@[i + 1]).t < spec_feed_start(self.sys)
                ==> self.samples@[i + 1].y.volume == self.samples@[i].y.volume
        } by {
            if i < len - 1 {
                assert(self.samples@[i] == prev.samples@[i]);
                assert(self.samples@[i + 1] == prev.samples@[i + 1]);
            } else {
                assert(self.samples@[i] == prev.samples@[i]);
            }
        }
        assert forall|i: int| 0 <= i < self.samples@.len() - 1 implies {
            (#[trigger] self.samples@[i]).t >= spec_feed_start(self.sys)
                ==> self.samples@[i + 1].y.volume as int
                    == self.samples@[i].y.volume + mul_val(self.step as int, self.sys.fi_v as int)
        } by {
            if i < len - 1 {
                assert(self.samples@[i] == prev.samples@[i]);
                assert(self.samples@[i + 1] == prev.samples@[i + 1]);
            } else {
                assert(self.samples@[i] == prev.samples@[i]);
            }
        }
        if self.sys.fi_v >= 0 {
            assert forall|i: int| 0 <= i < self.samples@.len() - 1 implies {
                (#[trigger] self.samples@[i + 1]).y.volume >= self.samples@[i].y.volume
            } by {
                if i < len - 1 {
                    assert(self.samples@[i] == prev.samples@[i]);
                    assert(self.samples@[i + 1] == prev.samples@[i + 1]);
                } else {
                    assert(self.samples@[i] == prev.samples@[i]);
                }
            }
        }
        assert forall|i: int| 1 <= i < self.samples@.len() implies {
            &&& spec_flow_defined(self.sys, (#[trigger] self.samples@[i]).y.c_O2 as int)
            &&& self.samples@[i].y.O2_flow == spec_flow_val(self.sys, self.samples@[i].y.c_O2 as int)
        } by {
            if i < len {
                assert(self.samples@[i] == prev.samples@[i]);
            }
        }
        assert(self.samples@[0] == prev.samples@[0]);
    }
}

/// A trajectory is one sample per completed step plus the seed, its times
/// spaced exactly one step apart in ascending order; a finished run holds
/// exactly the step count plus one samples.
pub proof fn lemma_trajectory_grid(it: Integrator)
    requires
        it.wf(),
    ensures
        it.samples@.len() >= 1,
        it.done() ==> it.samples@.len() == it.n_steps + 1,
        forall|i: int| 0 <= i < it.samples@.len() ==> (#[trigger] it.samples@[i]).t == i * it.step,
        forall|i: int| 0 <= i < it.samples@.len() - 1 ==> (#[trigger] it.samples@[i + 1]).t
            == it.samples@[i].t + it.step,
{
    assert forall|i: int| 0 <= i < it.samples@.len() - 1 implies (#[trigger] it.samples@[i + 1]).t
        == it.samples@[i].t + it.step by {
        assert((i + 1) * (it.step as int) == i * it.step + it.step) by (nonlinear_arith);
    }
}

/// Two distinct samples of a trajectory lie farther apart in time than
/// any matching tolerance below the step size, so a measured point taken
/// at one sample's time matches no other sample.
pub proof fn lemma_grid_times_separated(it: Integrator, eps: int)
    requires
        it.wf(),
        0 <= eps < it.step,
    ensures
        forall|a: int, b: int| #![trigger it.samples@[a], it.samples@[b]]
            0 <= a < it.samples@.len() && 0 <= b < it.samples@.len() && a != b
                ==> crate::fixed::abs_val(it.samples@[a].t - it.samples@[b].t) > eps,
{
    assert forall|a: int, b: int| #![trigger it.samples@[a], it.samples@[b]]
        0 <= a < it.samples@.len() && 0 <= b < it.samples@.len() && a != b implies crate::fixed::abs_val(
        it.samples@[a].t - it.samples@[b].t,
    ) > eps by {
        assert(it.samples@[a].t == a * it.step);
        assert(it.samples@[b].t == b * it.step);
        assert(a * (it.step as int) - b * (it.step as int) >= it.step
            || b * (it.step as int) - a * (it.step as int) >= it.step) by (nonlinear_arith)
            requires
                a != b,
                it.step > 0,
        ;
    }
}

/// Before the feed-start time the volume of every sample equals the
/// configured initial volume.
proof fn lemma_volume_constant_prefix(it: Integrator, j: int)
    requires
        it.wf(),
        0 <= j < it.samples@.len(),
        it.samples@[j].t < spec_feed_start(it.sys),
    ensures
        it.samples@[j].y.volume == it.sys.initial.volume,
    decreases j,
{
    if j == 0 {
        assert(it.samples@[0].y == spec_seed(it.sys));
    } else {
        assert(it.samples@[j - 1].t == (j - 1) * it.step);
        assert(it.samples@[j].t == j * it.step);
        assert((j - 1) * (it.step as int) < j * (it.step as int)) by (nonlinear_arith)
            requires
                it.step > 0,
        ;
        assert(it.samples@[(j - 1) + 1].y.volume == it.samples@[j - 1].y.volume);
        lemma_volume_constant_prefix(it, j - 1);
    }
}

/// The feed gate's effect on volume: every sample taken before the
/// feed-start time still holds the initial volume; each step that starts
/// at or after feed-start raises the volume by exactly one step's worth
/// of feed; and with a nonnegative feed rate the volume never decreases.
pub proof fn lemma_volume_profile(it: Integrator)
    requires
        it.wf(),
    ensures
        forall|i: int| 0 <= i < it.samples@.len() ==> ((#[trigger] it.samples@[i]).t
            < spec_feed_start(it.sys) ==> it.samples@[i].y.volume == it.sys.initial.volume),
        forall|i: int| 0 <= i < it.samples@.len() - 1 ==> ((#[trigger] it.samples@[i]).t
            >= spec_feed_start(it.sys) ==> it.samples@[i + 1].y.volume as int == it.samples@[i].y.volume
            + mul_val(it.step as int, it.sys.fi_v as int)),
        it.sys.fi_v >= 0 ==> forall|i: int| 0 <= i < it.samples@.len() - 1
            ==> (#[trigger] it.samples@[i + 1]).y.volume >= it.samples@[i].y.volume,
{
    assert forall|i: int| 0 <= i < it.samples@.len() implies ((#[trigger] it.samples@[i]).t
        < spec_feed_start(it.sys) ==> it.samples@[i].y.volume == it.sys.initial.volume) by {
        if it.samples@[i].t < spec_feed_start(it.sys) {
            lemma_volume_constant_prefix(it, i);
        }
    }
}

/// The oxygen-flow channel of every recorded sample is clamped into
/// `[0, O2_flow_max]` whenever the controller constants are nonnegative.
pub proof fn lemma_flow_clamped_trajectory(it: Integrator)
    requires
        it.wf(),
        it.sys.k_O2 >= 0,
        it.sys.fi_O2_max >= 0,
        it.sys.O2_flow_max >= 0,
    ensures
        forall|i: int| 0 <= i < it.samples@.len() ==> 0 <= (#[trigger] it.samples@[i]).y.O2_flow
            <= it.sys.O2_flow_max,
{
    assert forall|i: int| 0 <= i < it.samples@.len() implies 0 <= (#[trigger] it.samples@[i]).y.O2_flow
        <= it.sys.O2_flow_max by {
        if i == 0 {
            assert(it.samples@[0].y == spec_seed(it.sys));
        } else {
            crate::model::lemma_flow_clamped(it.sys, it.samples@[i].y.c_O2 as int);
        }
    }
}

} // verus!
