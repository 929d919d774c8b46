//! Whole evaluations: what holds of every sequence of reports that an
//! estimator can take.
//!
//! A caller reports alternately steps and measurements, each in the phase
//! that asks for it. The laws of this module speak of any such sequence,
//! whatever the trajectories did: the evaluation is over after at most two
//! reports for each step allowed, and the measurements taken are exactly
//! those that the renormalisation interval calls for.
use vstd::prelude::*;
use vstd::arithmetic::div_mod::{lemma_fundamental_div_mod, lemma_fundamental_div_mod_converse};
use crate::binary64::Binary64;
use crate::estimator::{Ending, LyapunovEstimator, Phase};
use crate::params::DoublePendulum;

verus! {

/// One report of the caller to the estimator.
pub enum Report {
    /// Both trajectories were advanced by one step. The flag says whether
    /// both states are finite.
    Stepped(bool),
    /// The separation of the trajectories was measured.
    Measured(Binary64),
}

/// The estimator `e` is in the phase that asks for the report `r`.
pub open spec fn accepts(e: LyapunovEstimator, r: Report) -> bool {
    match r {
        Report::Stepped(_) => e.phase == Phase::Integrating,
        Report::Measured(_) => e.phase == Phase::Renormalizing,
    }
}

/// The estimator after the report `r`.
pub open spec fn after(e: LyapunovEstimator, r: Report) -> LyapunovEstimator {
    match r {
        Report::Stepped(finite) => e.after_step(finite),
        Report::Measured(d) => e.after_measurement(d),
    }
}

/// The estimator after the reports `rs`, in their order.
pub open spec fn after_all(e: LyapunovEstimator, rs: Seq<Report>) -> LyapunovEstimator
    decreases rs.len(),
{
    if rs.len() == 0 {
        e
    } else {
        after(after_all(e, rs.drop_last()), rs.last())
    }
}

/// Each of the reports `rs` reaches the estimator in the phase that asks
/// for it.
pub open spec fn follows(e: LyapunovEstimator, rs: Seq<Report>) -> bool
    decreases rs.len(),
{
    rs.len() == 0 || (follows(e, rs.drop_last()) && accepts(
        after_all(e, rs.drop_last()),
        rs.last(),
    ))
}

/// The number of measurements among the reports `rs`.
pub open spec fn measurements(rs: Seq<Report>) -> nat
    decreases rs.len(),
{
    if rs.len() == 0 {
        0
    } else {
        measurements(rs.drop_last()) + (match rs.last() {
            Report::Measured(_) => 1nat,
            Report::Stepped(_) => 0nat,
        })
    }
}

/// The number of measurements that `steps` steps call for: one for each
/// step but the first whose index is a multiple of the interval.
pub open spec fn due(params: DoublePendulum, steps: nat) -> nat
    recommends
        params.renorm_every > 0,
{
    if steps == 0 {
        0
    } else {
        ((steps - 1) / (params.renorm_every as int)) as nat
    }
}

/// A report, taken in its phase, keeps the estimator well-formed and uses
/// up some of its budget.
pub proof fn lemma_report_uses_budget(e: LyapunovEstimator, r: Report)
    requires
        e.wf(),
        accepts(e, r),
    ensures
        after(e, r).wf(),
        after(e, r).params == e.params,
        after(e, r).budget() < e.budget(),
{
}

/// Bounded cost: the reports of an evaluation and the budget left after
/// them never exceed the budget that the evaluation began with.
pub proof fn lemma_run_within_budget(e: LyapunovEstimator, rs: Seq<Report>)
    requires
        e.wf(),
        follows(e, rs),
    ensures
        after_all(e, rs).wf(),
        after_all(e, rs).params == e.params,
        after_all(e, rs).budget() + rs.len() <= e.budget(),
    decreases rs.len(),
{
    if rs.len() > 0 {
        lemma_run_within_budget(e, rs.drop_last());
        lemma_report_uses_budget(after_all(e, rs.drop_last()), rs.last());
    }
}

/// Bounded cost of a pixel: an evaluation from valid parameters takes at
/// most two reports for each step that the parameters allow, and never
/// takes more steps than they allow.
pub proof fn lemma_evaluation_is_bounded(params: DoublePendulum, rs: Seq<Report>)
    requires
        params.valid(),
        follows(LyapunovEstimator::initial(params), rs),
    ensures
        rs.len() <= 2 * params.max_steps,
        after_all(LyapunovEstimator::initial(params), rs).steps <= params.max_steps,
{
    lemma_run_within_budget(LyapunovEstimator::initial(params), rs);
}

/// An evaluation depends on its parameters and on its own reports alone:
/// two evaluations with the same parameters that are told the same things
/// are in the same state after them. Nothing is shared between
/// evaluations, so they may run in any order and side by side.
pub proof fn lemma_evaluation_repeats(
    params: DoublePendulum,
    rs: Seq<Report>,
    again: DoublePendulum,
    qs: Seq<Report>,
)
    requires
        params == again,
        rs == qs,
    ensures
        after_all(LyapunovEstimator::initial(params), rs) == after_all(
            LyapunovEstimator::initial(again),
            qs,
        ),
        follows(LyapunovEstimator::initial(params), rs) == follows(
            LyapunovEstimator::initial(again),
            qs,
        ),
{
}

/// After a step that calls for no measurement as many measurements are due
/// as before it; after one that does, one more.
pub proof fn lemma_due_next(params: DoublePendulum, steps: nat)
    requires
        params.renorm_every > 0,
    ensures
        due(params, steps) <= due(params, steps + 1),
        params.measured_after(steps) ==> due(params, steps + 1) == due(params, steps) + 1,
        !params.measured_after(steps) ==> due(params, steps + 1) == due(params, steps),
{
    let r = params.renorm_every as int;
    let n = steps as int;
    if n > 0 {
        lemma_fundamental_div_mod(n, r);
        let q = n / r;
        if n % r == 0 {
            assert(n - 1 == (q - 1) * r + (r - 1)) by (nonlinear_arith)
                requires
                    n == r * q,
            ;
            lemma_fundamental_div_mod_converse(n - 1, r, q - 1, r - 1);
        } else {
            assert(n - 1 == q * r + (n % r - 1)) by (nonlinear_arith)
                requires
                    n == r * q + n % r,
            ;
            lemma_fundamental_div_mod_converse(n - 1, r, q, n % r - 1);
        }
    } else {
        lemma_fundamental_div_mod_converse(0, r, 0, 0);
    }
}

/// The measurements taken so far against those that are due for the steps
/// taken so far: all of them, less the one that the estimator is waiting
/// for; and at most that many once a singularity has ended the evaluation.
pub open spec fn accounted(e: LyapunovEstimator, taken: nat) -> bool {
    match e.phase {
        Phase::Integrating => taken == due(e.params, e.steps as nat),
        Phase::Renormalizing => taken + 1 == due(e.params, e.steps as nat),
        Phase::Done => if e.ending == Some(Ending::Singular) {
            taken <= due(e.params, e.steps as nat)
        } else {
            taken == due(e.params, e.steps as nat)
        },
    }
}

/// The schedule of measurements: throughout an evaluation from valid
/// parameters, the measurements taken are those that are due for the steps
/// taken.
pub proof fn lemma_measurements_accounted(params: DoublePendulum, rs: Seq<Report>)
    requires
        params.valid(),
        follows(LyapunovEstimator::initial(params), rs),
    ensures
        accounted(after_all(LyapunovEstimator::initial(params), rs), measurements(rs)),
    decreases rs.len(),
{
    let start = LyapunovEstimator::initial(params);
    if rs.len() > 0 {
        let before = after_all(start, rs.drop_last());
        lemma_measurements_accounted(params, rs.drop_last());
        lemma_run_within_budget(start, rs.drop_last());
        lemma_due_next(params, before.steps as nat);
        if before.steps >= 1 {
            lemma_due_next(params, (before.steps - 1) as nat);
        }
    }
}

/// An evaluation that took every step measured the separation once for
/// each step but the first whose index is a multiple of the interval; an
/// evaluation that escaped did so on the last measurement due.
pub proof fn lemma_measurements_of_finished_run(params: DoublePendulum, rs: Seq<Report>)
    requires
        params.valid(),
        follows(LyapunovEstimator::initial(params), rs),
        after_all(LyapunovEstimator::initial(params), rs).ending == Some(Ending::Exhausted)
            || after_all(LyapunovEstimator::initial(params), rs).ending == Some(Ending::Escaped),
    ensures
        measurements(rs) == due(
            params,
            after_all(LyapunovEstimator::initial(params), rs).steps as nat,
        ),
        after_all(LyapunovEstimator::initial(params), rs).ending == Some(Ending::Exhausted)
            ==> measurements(rs) == (params.max_steps - 1) / (params.renorm_every as int),
{
    lemma_measurements_accounted(params, rs);
    lemma_run_within_budget(LyapunovEstimator::initial(params), rs);
}

} // verus!
