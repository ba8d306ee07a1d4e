//! Parameter lifecycle: the one-level undo history and the calibration
//! session's two states.
//!
//! A parameter set is replaced wholesale — by a snapshot load or by a
//! calibration result — and the set it displaces is retained so one step
//! can be undone.  Calibration is `Running` from request to completion
//! and `Idle` otherwise; completion installs the fitted set through the
//! same history.

use vstd::prelude::*;
use crate::model::Bioreactor;
use crate::regressor::{Param, Regressor, RegressorNode, spec_update};

verus! {

/// Two-slot parameter history: the working set and the one it displaced.
#[derive(Clone, Copy, PartialEq, Eq, Structural, Debug)]
pub struct History {
    pub current: Bioreactor,
    pub previous: Option<Bioreactor>,
}

impl History {
    /// A fresh history with nothing to undo.
    pub fn new(p: Bioreactor) -> (r: History)
        ensures
            r == (History { current: p, previous: None::<Bioreactor> }),
    {
        History { current: p, previous: None }
    }

    /// Install a new working set, retaining the displaced one.
    pub fn replace(&mut self, p: Bioreactor)
        ensures
            *final(self) == (History { current: p, previous: Some(old(self).current) }),
    {
        self.previous = Some(self.current);
        self.current = p;
    }

    /// Install a loaded snapshot; a failed load (`None`) leaves the
    /// current set untouched.  Returns whether anything was installed.
    pub fn load(&mut self, snapshot: Option<Bioreactor>) -> (ok: bool)
        ensures
            match snapshot {
                Some(p) => ok && *final(self) == (History {
                    current: p,
                    previous: Some(old(self).current),
                }),
                None => !ok && *final(self) == *old(self),
            },
    {
        match snapshot {
            Some(p) => {
                self.replace(p);
                true
            },
            None => false,
        }
    }

    /// Return to the displaced set, if one is retained; the retained set
    /// stays available.  Returns whether anything changed.
    pub fn undo(&mut self) -> (ok: bool)
        ensures
            match old(self).previous {
                Some(p) => ok && *final(self) == (History {
                    current: p,
                    previous: old(self).previous,
                }),
                None => !ok && *final(self) == *old(self),
            },
    {
        match self.previous {
            Some(p) => {
                self.current = p;
                true
            },
            None => false,
        }
    }
}

/// The calibration session's states.
#[derive(Clone, Copy, PartialEq, Eq, Structural, Debug)]
pub enum CalibrationState {
    Idle,
    Running,
}

/// A calibration session over a parameter history.
#[derive(Clone, Copy, PartialEq, Eq, Structural, Debug)]
pub struct Session {
    pub params: History,
    pub state: CalibrationState,
}

impl Session {
    /// An idle session over a fresh history.
    pub fn new(p: Bioreactor) -> (r: Session)
        ensures
            r == (Session { params: History { current: p, previous: None::<Bioreactor> }, state: CalibrationState::Idle }),
    {
        Session { params: History::new(p), state: CalibrationState::Idle }
    }

    /// Enter `Running` and hand back the cost function's data for the
    /// request: the current parameters, the request, the measured points,
    /// and the matching tolerance.
    pub fn start(&mut self, param: Param, nodes: Vec<RegressorNode>, epsilon: i64) -> (r: Regressor)
        requires
            old(self).state == CalibrationState::Idle,
        ensures
            final(self).state == CalibrationState::Running,
            final(self).params == old(self).params,
            r.simulation == old(self).params.current,
            r.param == param,
            r.nodes@ == nodes@,
            r.epsilon == epsilon,
    {
        self.state = CalibrationState::Running;
        Regressor { nodes, simulation: self.params.current, param, epsilon }
    }

    /// Leave `Running`.  A successful search installs the fitted set —
    /// the current parameters with the request's target replaced by the
    /// best candidate — and retains the displaced set for undo; a failed
    /// search leaves the parameters untouched.
    pub fn finish(&mut self, param: &Param, best: Option<i64>)
        requires
            old(self).state == CalibrationState::Running,
        ensures
            final(self).state == CalibrationState::Idle,
            match best {
                Some(v) => final(self).params == (History {
                    current: spec_update(old(self).params.current, *param, v),
                    previous: Some(old(self).params.current),
                }),
                None => final(self).params == old(self).params,
            },
    {
        match best {
            Some(v) => {
                let mut fitted = self.params.current;
                fitted.update(param, v);
                self.params.replace(fitted);
            },
            None => {},
        }
        self.state = CalibrationState::Idle;
    }
}

} // verus!
