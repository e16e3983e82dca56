//! The course of an operation of the core service: validate the request, load the principal
//! and the resource, ask the authorization engine, execute, and then commit the transaction,
//! or roll it back where a step after the validation failed.
//!
//! The steps themselves talk to the database and the engine; the decisions between them are
//! here, as a machine from the current step and the outcome of its work to the next step.
use vstd::prelude::*;

verus! {

/// The step an operation is at; each names the work to do next.
#[derive(Debug, Clone, Copy, PartialEq, Eq, Structural)]
pub enum OperationStep {
    /// Validate the request, before any transaction exists.
    Validate,
    /// Load the principal.
    LoadPrincipal,
    /// Load the resource.
    LoadResource,
    /// Ask the authorization engine whether the principal may perform the action on the resource.
    Authorize,
    /// Perform the operation.
    Execute,
    /// Commit the transaction.
    Commit,
    /// Roll back the transaction, because the step `cause` failed.
    Abort(Failure),
    /// The operation is over, with its answer.
    Done(Answer),
}

/// What an operation answers.
#[derive(Debug, Clone, Copy, PartialEq, Eq, Structural)]
pub enum Answer {
    Succeeded,
    Failed(Failure),
}

/// The step whose failure an operation reports.
#[derive(Debug, Clone, Copy, PartialEq, Eq, Structural)]
pub enum Failure {
    Validation,
    LoadPrincipal,
    LoadResource,
    /// The engine denied the request, or could not decide.
    Authorization,
    Execution,
    Commit,
    /// The roll-back itself failed.
    Abort,
}

/// Whether the work of a step succeeded; for `Authorize`, whether the engine allowed the request.
#[derive(Debug, Clone, Copy, PartialEq, Eq, Structural)]
pub enum StepOutcome {
    Succeeded,
    Failed,
}

/// The step after `step`, given the outcome of its work.
pub open spec fn next_step_spec(step: OperationStep, outcome: StepOutcome) -> OperationStep {
    let ok = outcome == StepOutcome::Succeeded;
    match step {
        OperationStep::Validate => if ok {
            OperationStep::LoadPrincipal
        } else {
            OperationStep::Done(Answer::Failed(Failure::Validation))
        },
        OperationStep::LoadPrincipal => if ok {
            OperationStep::LoadResource
        } else {
            OperationStep::Abort(Failure::LoadPrincipal)
        },
        OperationStep::LoadResource => if ok {
            OperationStep::Authorize
        } else {
            OperationStep::Abort(Failure::LoadResource)
        },
        OperationStep::Authorize => if ok {
            OperationStep::Execute
        } else {
            OperationStep::Abort(Failure::Authorization)
        },
        OperationStep::Execute => if ok {
            OperationStep::Commit
        } else {
            OperationStep::Abort(Failure::Execution)
        },
        OperationStep::Commit => if ok {
            OperationStep::Done(Answer::Succeeded)
        } else {
            OperationStep::Done(Answer::Failed(Failure::Commit))
        },
        OperationStep::Abort(cause) => if ok {
            OperationStep::Done(Answer::Failed(cause))
        } else {
            OperationStep::Done(Answer::Failed(Failure::Abort))
        },
        OperationStep::Done(r) => OperationStep::Done(r),
    }
}

/// The step after `step`, given the outcome of its work. A request that fails validation is
/// answered at once; a failure after it rolls the transaction back and is reported, unless the
/// roll-back fails too; an operation is performed only once the engine allowed it, and
/// committed only once it was performed.
pub fn next_step(step: OperationStep, outcome: StepOutcome) -> (res: OperationStep)
    ensures
        res == next_step_spec(step, outcome),
        res == OperationStep::Execute ==> step == OperationStep::Authorize && outcome
            == StepOutcome::Succeeded,
        res == OperationStep::Commit ==> step == OperationStep::Execute && outcome
            == StepOutcome::Succeeded,
        res is Abort ==> outcome == StepOutcome::Failed,
        outcome == StepOutcome::Failed ==> (step == OperationStep::LoadPrincipal ==> res
            == OperationStep::Abort(Failure::LoadPrincipal)),
        outcome == StepOutcome::Failed ==> (step == OperationStep::LoadResource ==> res
            == OperationStep::Abort(Failure::LoadResource)),
        outcome == StepOutcome::Failed ==> (step == OperationStep::Authorize ==> res
            == OperationStep::Abort(Failure::Authorization)),
        outcome == StepOutcome::Failed ==> (step == OperationStep::Execute ==> res
            == OperationStep::Abort(Failure::Execution)),
        outcome == StepOutcome::Failed ==> (step == OperationStep::Validate ==> res
            == OperationStep::Done(Answer::Failed(Failure::Validation))),
{
    let ok = match outcome {
        StepOutcome::Succeeded => true,
        StepOutcome::Failed => false,
    };
    match step {
        OperationStep::Validate => if ok {
            OperationStep::LoadPrincipal
        } else {
            OperationStep::Done(Answer::Failed(Failure::Validation))
        },
        OperationStep::LoadPrincipal => if ok {
            OperationStep::LoadResource
        } else {
            OperationStep::Abort(Failure::LoadPrincipal)
        },
        OperationStep::LoadResource => if ok {
            OperationStep::Authorize
        } else {
            OperationStep::Abort(Failure::LoadResource)
        },
        OperationStep::Authorize => if ok {
            OperationStep::Execute
        } else {
            OperationStep::Abort(Failure::Authorization)
        },
        OperationStep::Execute => if ok {
            OperationStep::Commit
        } else {
            OperationStep::Abort(Failure::Execution)
        },
        OperationStep::Commit => if ok {
            OperationStep::Done(Answer::Succeeded)
        } else {
            OperationStep::Done(Answer::Failed(Failure::Commit))
        },
        OperationStep::Abort(cause) => if ok {
            OperationStep::Done(Answer::Failed(cause))
        } else {
            OperationStep::Done(Answer::Failed(Failure::Abort))
        },
        OperationStep::Done(r) => OperationStep::Done(r),
    }
}

/// The step an operation reaches from `step` through the outcomes `outcomes`, in order.
pub open spec fn run_from(step: OperationStep, outcomes: Seq<StepOutcome>) -> OperationStep
    decreases outcomes.len(),
{
    if outcomes.len() == 0 {
        step
    } else {
        run_from(next_step_spec(step, outcomes[0]), outcomes.drop_first())
    }
}

/// The step an operation reaches through the outcomes `outcomes` of its steps.
pub open spec fn run(outcomes: Seq<StepOutcome>) -> OperationStep {
    run_from(OperationStep::Validate, outcomes)
}

/// All of the first `n` outcomes are successes.
pub open spec fn all_succeeded(outcomes: Seq<StepOutcome>, n: int) -> bool {
    n <= outcomes.len() && forall|k: int| 0 <= k < n ==> outcomes[k] == StepOutcome::Succeeded
}

/// The cause that a failure at step `k` of the successful path reports: the validation, the
/// two loads, the authorization, the execution and the commit, in this order.
pub open spec fn failure_at(k: int) -> Failure {
    if k == 0 {
        Failure::Validation
    } else if k == 1 {
        Failure::LoadPrincipal
    } else if k == 2 {
        Failure::LoadResource
    } else if k == 3 {
        Failure::Authorization
    } else if k == 4 {
        Failure::Execution
    } else {
        Failure::Commit
    }
}

/// Every failure after the validation and before the commit rolls the transaction back: where
/// the first `k` steps succeeded (for `k` from one to four) and step `k` fails, the operation's
/// next step is the roll-back, caused by that step; the roll-back then answers that failure,
/// or the roll-back's own failure. A failed validation is answered at once, and a failed
/// commit too.
pub proof fn lemma_failure_past_validation_rolls_back(outcomes: Seq<StepOutcome>, k: int)
    requires
        0 <= k <= 5,
        k < outcomes.len(),
        all_succeeded(outcomes, k),
        outcomes[k] == StepOutcome::Failed,
    ensures
        1 <= k <= 4 ==> run(outcomes.take(k + 1)) == OperationStep::Abort(failure_at(k)),
        1 <= k <= 4 && k + 1 < outcomes.len() ==> run(outcomes.take(k + 2)) == OperationStep::Done(
            Answer::Failed(
                if outcomes[k + 1] == StepOutcome::Succeeded {
                    failure_at(k)
                } else {
                    Failure::Abort
                },
            ),
        ),
        k == 0 ==> run(outcomes.take(1)) == OperationStep::Done(Answer::Failed(Failure::Validation)),
        k == 5 ==> run(outcomes.take(6)) == OperationStep::Done(Answer::Failed(Failure::Commit)),
{
    let t1 = outcomes.take(k + 1);
    reveal_with_fuel(run_from, 8);
    if k + 1 < outcomes.len() {
        let t2 = outcomes.take(k + 2);
        assert(t2.drop_first() =~= outcomes.take(k + 2).skip(1));
        if k == 1 {
            assert(t2 =~= seq![outcomes[0], outcomes[1], outcomes[2]]);
        } else if k == 2 {
            assert(t2 =~= seq![outcomes[0], outcomes[1], outcomes[2], outcomes[3]]);
        } else if k == 3 {
            assert(t2 =~= seq![outcomes[0], outcomes[1], outcomes[2], outcomes[3], outcomes[4]]);
        } else if k == 4 {
            assert(t2 =~= seq![outcomes[0], outcomes[1], outcomes[2], outcomes[3], outcomes[4], outcomes[5]]);
        }
    }
    if k == 0 {
        assert(t1 =~= seq![outcomes[0]]);
    } else if k == 1 {
        assert(t1 =~= seq![outcomes[0], outcomes[1]]);
    } else if k == 2 {
        assert(t1 =~= seq![outcomes[0], outcomes[1], outcomes[2]]);
    } else if k == 3 {
        assert(t1 =~= seq![outcomes[0], outcomes[1], outcomes[2], outcomes[3]]);
    } else if k == 4 {
        assert(t1 =~= seq![outcomes[0], outcomes[1], outcomes[2], outcomes[3], outcomes[4]]);
    } else {
        assert(t1 =~= seq![outcomes[0], outcomes[1], outcomes[2], outcomes[3], outcomes[4], outcomes[5]]);
    }
}

/// A finished operation stays finished, whatever further outcomes come.
pub proof fn lemma_done_stays(r: Answer, outcomes: Seq<StepOutcome>)
    ensures
        run_from(OperationStep::Done(r), outcomes) == OperationStep::Done(r),
    decreases outcomes.len(),
{
    if outcomes.len() > 0 {
        lemma_done_stays(r, outcomes.drop_first());
    }
}

/// An operation succeeds exactly when its validation, both loads, the authorization, the
/// execution and the commit all succeed, in this order.
pub proof fn lemma_success_iff_all_steps_succeed(outcomes: Seq<StepOutcome>)
    ensures
        run(outcomes) == OperationStep::Done(Answer::Succeeded) <==> all_succeeded(outcomes, 6),
{
    let s = outcomes;
    if all_succeeded(s, 6) {
        reveal_with_fuel(run_from, 7);
        lemma_done_stays(Answer::Succeeded, s.skip(6));
        assert(s.drop_first().drop_first().drop_first().drop_first().drop_first().drop_first()
            =~= s.skip(6));
    } else {
        lemma_failure_answered(s);
    }
}

/// An operation with a failed step among its first six is not answered with success.
proof fn lemma_failure_answered(s: Seq<StepOutcome>)
    requires
        !all_succeeded(s, 6),
    ensures
        run(s) != OperationStep::Done(Answer::Succeeded),
{
    assert(s.skip(0) =~= s);
    lemma_prefix_walk(s, 0);
}

/// Walking the successful path: after `k` successes the operation is at the `k`-th step of
/// the path, and the first failure there leads to an answer that is no success.
proof fn lemma_prefix_walk(s: Seq<StepOutcome>, k: int)
    requires
        0 <= k <= 6,
        !all_succeeded(s, 6),
        forall|j: int| 0 <= j < k && j < s.len() ==> s[j] == StepOutcome::Succeeded,
        k <= s.len(),
        run(s) == run_from(path_step(k), s.skip(k)),
    ensures
        run(s) != OperationStep::Done(Answer::Succeeded),
    decreases 6 - k,
{
    if k == s.len() {
        assert(s.skip(k) =~= Seq::<StepOutcome>::empty());
        assert(k < 6);
    } else if s[k] == StepOutcome::Failed {
        let after = next_step_spec(path_step(k), s[k]);
        assert(s.skip(k).drop_first() =~= s.skip(k + 1));
        lemma_failure_ends_in_error(after, s.skip(k + 1));
    } else {
        assert(k < 6);
        assert(s.skip(k).drop_first() =~= s.skip(k + 1));
        lemma_prefix_walk(s, k + 1);
    }
}

/// The `k`-th step of the path on which every step succeeds.
pub open spec fn path_step(k: int) -> OperationStep {
    if k == 0 {
        OperationStep::Validate
    } else if k == 1 {
        OperationStep::LoadPrincipal
    } else if k == 2 {
        OperationStep::LoadResource
    } else if k == 3 {
        OperationStep::Authorize
    } else if k == 4 {
        OperationStep::Execute
    } else if k == 5 {
        OperationStep::Commit
    } else {
        OperationStep::Done(Answer::Succeeded)
    }
}

/// From a roll-back or a failed answer, an operation can only end with a failure.
proof fn lemma_failure_ends_in_error(step: OperationStep, outcomes: Seq<StepOutcome>)
    requires
        step is Abort || step matches OperationStep::Done(Answer::Failed(_)),
    ensures
        run_from(step, outcomes) != OperationStep::Done(Answer::Succeeded),
    decreases outcomes.len(),
{
    if outcomes.len() > 0 {
        lemma_failure_ends_in_error(next_step_spec(step, outcomes[0]), outcomes.drop_first());
    }
}

} // verus!
