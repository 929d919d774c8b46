//! The schedule of the finite-time Lyapunov exponent estimate.
//!
//! Two trajectories, a reference and a perturbed one, are advanced in step.
//! After every step whose index is a positive multiple of the renormalisation
//! interval, their separation is measured, its logarithmic growth is added
//! to a running sum, and the perturbed trajectory is pulled back to the
//! initial separation. The estimate is the sum over the time that has passed.
//!
//! The arithmetic on the trajectories belongs to the caller. This module
//! decides what happens next: whether to integrate or to measure, whether a
//! measurement counts, and when and why the evaluation ends. The caller
//! reports what it has done and reads the phase to learn what to do.
use vstd::prelude::*;
use crate::binary64::{units, Binary64};
use crate::params::{ConfigError, DoublePendulum};
use crate::phase::PhaseState;

verus! {

/// What the evaluation of a pixel is doing.
#[derive(Clone, Copy, Debug, PartialEq, Eq, Structural)]
pub enum Phase {
    /// Both trajectories are to be advanced by one step.
    Integrating,
    /// The separation of the trajectories is to be measured.
    Renormalizing,
    /// The evaluation has ended.
    Done,
}

/// Why an evaluation ended.
#[derive(Clone, Copy, Debug, PartialEq, Eq, Structural)]
pub enum Ending {
    /// All the steps allowed were taken.
    Exhausted,
    /// A separation above one hundred was measured: the trajectories fly
    /// apart so fast that the estimate is taken from the time passed so far.
    Escaped,
    /// A trajectory or a measured separation left the finite numbers: the
    /// pendulum ran into a singularity of its equations of motion, and the
    /// pixel gets the top of the colour gradient.
    Singular,
}

/// What a measured separation means for the estimate.
#[derive(Clone, Copy, Debug, PartialEq, Eq, Structural)]
pub enum Separation {
    /// The trajectories coincide. The measurement is passed over: nothing is
    /// added to the sum and the perturbed trajectory stays where it is.
    Degenerate,
    /// The growth is added to the sum and the separation is restored.
    Regular,
    /// As `Regular`, and the evaluation ends: the separation is above one
    /// hundred.
    Divergent,
    /// The separation is an infinity or a NaN. Nothing is added to the sum
    /// and the evaluation ends.
    Undefined,
}

impl Separation {
    /// The class of the separation `d`.
    pub open spec fn of(d: Binary64) -> Separation {
        if !d.finite() {
            Separation::Undefined
        } else if d.value() == 0 {
            Separation::Degenerate
        } else if d.value() > units(100) {
            Separation::Divergent
        } else {
            Separation::Regular
        }
    }

    /// The measurement adds to the sum of logarithms and the perturbed
    /// trajectory is rescaled.
    pub open spec fn counts(self) -> bool {
        self == Separation::Regular || self == Separation::Divergent
    }

    /// The evaluation ends with this measurement.
    pub open spec fn ends(self) -> bool {
        self == Separation::Divergent || self == Separation::Undefined
    }

    /// Classifies the separation `d` of the two trajectories.
    pub fn classify(d: Binary64) -> (s: Separation)
        ensures
            s == Separation::of(d),
    {
        if !d.is_finite() {
            Separation::Undefined
        } else if d.is_zero() {
            Separation::Degenerate
        } else if d.gt(Binary64::hundred()) {
            Separation::Divergent
        } else {
            Separation::Regular
        }
    }

    /// Whether the caller is to add the logarithm of the separation over the
    /// initial separation to its sum, and to rescale the perturbed
    /// trajectory to the initial separation.
    pub fn contributes(&self) -> (r: bool)
        ensures
            r == self.counts(),
    {
        match self {
            Separation::Regular => true,
            Separation::Divergent => true,
            Separation::Degenerate => false,
            Separation::Undefined => false,
        }
    }
}

/// The progress of one pixel's evaluation.
#[derive(Clone, Copy, Debug, PartialEq, Eq, Structural)]
pub struct LyapunovEstimator {
    /// The parameters of the render.
    pub params: DoublePendulum,
    /// The number of integration steps taken so far.
    pub steps: usize,
    /// What is to be done next.
    pub phase: Phase,
    /// Why the evaluation ended, once it has.
    pub ending: Option<Ending>,
}

impl LyapunovEstimator {
    /// The estimator is in a state that a run from valid parameters reaches.
    ///
    /// No more steps are taken than the parameters allow. A measurement is
    /// due only after a step whose index is a positive multiple of the
    /// interval. An evaluation that ended as exhausted has taken every step,
    /// and one that ended as escaped has ended on a measurement.
    pub open spec fn wf(self) -> bool {
        &&& self.params.valid()
        &&& self.steps <= self.params.max_steps
        &&& match self.phase {
            Phase::Integrating => self.steps < self.params.max_steps && self.ending.is_none(),
            Phase::Renormalizing => {
                &&& self.steps >= 1
                &&& self.params.measured_after((self.steps - 1) as nat)
                &&& self.ending.is_none()
            },
            Phase::Done => {
                &&& self.ending.is_some()
                &&& self.ending == Some(Ending::Exhausted) ==> self.steps == self.params.max_steps
                &&& self.ending == Some(Ending::Escaped) ==> self.steps >= 1
                    && self.params.measured_after((self.steps - 1) as nat)
                &&& self.ending == Some(Ending::Singular) ==> self.steps >= 1
            },
        }
    }

    /// The state before the first step.
    pub open spec fn initial(params: DoublePendulum) -> LyapunovEstimator {
        LyapunovEstimator { params, steps: 0, phase: Phase::Integrating, ending: None }
    }

    /// The state in which the evaluation has ended for the given reason.
    pub open spec fn ended(self, steps: usize, why: Ending) -> LyapunovEstimator {
        LyapunovEstimator { params: self.params, steps, phase: Phase::Done, ending: Some(why) }
    }

    /// The state that follows when the trajectories need no measurement:
    /// another step, or the end once all steps are taken.
    pub open spec fn resumed(self, steps: usize) -> LyapunovEstimator {
        if steps >= self.params.max_steps {
            self.ended(steps, Ending::Exhausted)
        } else {
            LyapunovEstimator {
                params: self.params,
                steps,
                phase: Phase::Integrating,
                ending: None,
            }
        }
    }

    /// The state after one more step of both trajectories, where `finite`
    /// says whether both have stayed within the finite numbers. The step
    /// just taken has the index `self.steps`.
    pub open spec fn after_step(self, finite: bool) -> LyapunovEstimator {
        let taken = (self.steps + 1) as usize;
        if !finite {
            self.ended(taken, Ending::Singular)
        } else if self.params.measured_after(self.steps as nat) {
            LyapunovEstimator {
                params: self.params,
                steps: taken,
                phase: Phase::Renormalizing,
                ending: None,
            }
        } else {
            self.resumed(taken)
        }
    }

    /// The state after the separation `d` was measured.
    pub open spec fn after_measurement(self, d: Binary64) -> LyapunovEstimator {
        match Separation::of(d) {
            Separation::Undefined => self.ended(self.steps, Ending::Singular),
            Separation::Divergent => self.ended(self.steps, Ending::Escaped),
            _ => self.resumed(self.steps),
        }
    }

    /// An upper bound on the number of reports that the estimator can still
    /// take: two for each step not yet taken, one more while a measurement
    /// is due, none once the evaluation has ended.
    pub open spec fn budget(self) -> nat {
        match self.phase {
            Phase::Integrating => (2 * (self.params.max_steps - self.steps)) as nat,
            Phase::Renormalizing => (2 * (self.params.max_steps - self.steps) + 1) as nat,
            Phase::Done => 0,
        }
    }

    /// Starts the evaluation of a pixel, or turns the parameters down. No
    /// estimator exists for parameters that are not valid, so no separation
    /// is ever divided by a zero perturbation and no step index is ever
    /// reduced modulo zero.
    pub fn new(params: DoublePendulum) -> (r: Result<LyapunovEstimator, ConfigError>)
        ensures
            match params.verdict() {
                Ok(_) => r == Ok::<LyapunovEstimator, ConfigError>(
                    LyapunovEstimator::initial(params),
                ),
                Err(e) => r == Err::<LyapunovEstimator, ConfigError>(e),
            },
            r.is_ok() == params.valid(),
            r.is_ok() ==> r.unwrap().wf(),
    {
        match params.validate() {
            Ok(()) => Ok(
                LyapunovEstimator { params, steps: 0, phase: Phase::Integrating, ending: None },
            ),
            Err(e) => Err(e),
        }
    }

    /// What is to be done next.
    pub fn phase(&self) -> (p: Phase)
        ensures
            p == self.phase,
    {
        self.phase
    }

    /// The number of integration steps taken so far.
    pub fn steps(&self) -> (n: usize)
        ensures
            n == self.steps,
    {
        self.steps
    }

    /// Why the evaluation ended, or `None` while it goes on.
    pub fn ending(&self) -> (e: Option<Ending>)
        ensures
            e == self.ending,
    {
        self.ending
    }

    /// Reports that both trajectories were advanced by one step, to the
    /// states `reference` and `perturbed`.
    ///
    /// The evaluation ends as singular if either state has left the finite
    /// numbers. Otherwise a measurement is due if the index of the step is a
    /// positive multiple of the renormalisation interval; if not, the next
    /// step is due, or the evaluation ends because all steps are taken.
    pub fn advance(&mut self, reference: &PhaseState, perturbed: &PhaseState)
        requires
            old(self).wf(),
            old(self).phase == Phase::Integrating,
        ensures
            *final(self) == old(self).after_step(reference.finite() && perturbed.finite()),
            final(self).wf(),
            final(self).budget() < old(self).budget(),
    {
        let index: usize = self.steps;
        self.steps = index + 1;
        if !(reference.is_finite() && perturbed.is_finite()) {
            self.phase = Phase::Done;
            self.ending = Some(Ending::Singular);
        } else if index > 0 && index % self.params.renorm_every == 0 {
            self.phase = Phase::Renormalizing;
        } else if self.steps >= self.params.max_steps {
            self.phase = Phase::Done;
            self.ending = Some(Ending::Exhausted);
        }
    }

    /// Reports the separation `d` that was measured between the two
    /// trajectories, and returns what it means for the caller's sum.
    ///
    /// A separation that is not finite ends the evaluation as singular, one
    /// above one hundred ends it as escaped. After any other the next step
    /// is due, or the evaluation ends because all steps are taken.
    pub fn measure(&mut self, d: Binary64) -> (s: Separation)
        requires
            old(self).wf(),
            old(self).phase == Phase::Renormalizing,
        ensures
            s == Separation::of(d),
            *final(self) == old(self).after_measurement(d),
            final(self).wf(),
            final(self).budget() < old(self).budget(),
    {
        let s = Separation::classify(d);
        match s {
            Separation::Undefined => {
                self.phase = Phase::Done;
                self.ending = Some(Ending::Singular);
            },
            Separation::Divergent => {
                self.phase = Phase::Done;
                self.ending = Some(Ending::Escaped);
            },
            _ => {
                if self.steps >= self.params.max_steps {
                    self.phase = Phase::Done;
                    self.ending = Some(Ending::Exhausted);
                } else {
                    self.phase = Phase::Integrating;
                }
            },
        }
        s
    }

    /// Whether the estimate is the sum of logarithms over the time passed,
    /// which it is when that time is above zero; otherwise the estimate is
    /// zero.
    pub fn exponent_defined(elapsed: Binary64) -> (r: bool)
        ensures
            r == (!elapsed.nan() && elapsed.value() > 0),
    {
        elapsed.gt(Binary64::zero())
    }
}

} // verus!
