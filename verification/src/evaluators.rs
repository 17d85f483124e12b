//! Evaluators: pluggable producers of label suggestions.
//!
//! Given a processed span, an evaluator proposes a set of label values by
//! whatever means it likes — the scoring itself is the implementor's
//! business, not the pipeline's. What the pipeline does owe is isolation:
//! one evaluator failing must not block the others, so a dispatch run
//! records each evaluator's own outcome and a failure is reported beside
//! the successes, never thrown across them.

use vstd::prelude::*;

use crate::ids::{ClassId, LabelValue};
use crate::spans::Span;

verus! {

/// One label value proposed by an evaluator: the class it belongs to, the
/// value-key discriminator, the numeric score and an optional explanation.
#[derive(PartialEq, Debug)]
pub struct LabelSuggestion {
    pub class_id: ClassId,
    pub value_key: String,
    pub value: LabelValue,
    pub reasoning: Option<String>,
}

/// One evaluator's failure, reported beside the other evaluators' results
/// rather than aborting the run.
#[derive(PartialEq, Debug)]
pub struct EvaluatorFailure {
    /// What went wrong, in the evaluator's own words.
    pub message: String,
}

/// An automated evaluator: computes label suggestions for a processed span
/// by arbitrary means. Implementors decide what to propose; the pipeline
/// only routes the outcomes.
pub trait Evaluator {
    /// Proposes label values for one span, or fails on its own.
    fn evaluate(&self, span: &Span) -> Result<Vec<LabelSuggestion>, EvaluatorFailure>;
}

/// The suggestions of the successful outcomes, in run order.
pub open spec fn spec_suggestions(
    outcomes: Seq<Result<Vec<LabelSuggestion>, EvaluatorFailure>>,
) -> Seq<LabelSuggestion>
    decreases outcomes.len(),
{
    if outcomes.len() == 0 {
        Seq::<LabelSuggestion>::empty()
    } else {
        (match outcomes[0] {
            Ok(suggestions) => suggestions@,
            Err(_) => Seq::<LabelSuggestion>::empty(),
        }) + spec_suggestions(outcomes.drop_first())
    }
}

/// The failures among the outcomes, in run order.
pub open spec fn spec_failures(
    outcomes: Seq<Result<Vec<LabelSuggestion>, EvaluatorFailure>>,
) -> Seq<EvaluatorFailure>
    decreases outcomes.len(),
{
    if outcomes.len() == 0 {
        Seq::<EvaluatorFailure>::empty()
    } else {
        (match outcomes[0] {
            Ok(_) => Seq::<EvaluatorFailure>::empty(),
            Err(failure) => seq![failure],
        }) + spec_failures(outcomes.drop_first())
    }
}

/// Runs every evaluator over one span, recording each evaluator's own
/// outcome: one entry per evaluator, in order, a failing evaluator leaving
/// its failure in place without stopping the ones after it.
pub fn run_evaluators<E: Evaluator>(evaluators: &Vec<E>, span: &Span) -> (outcomes: Vec<
    Result<Vec<LabelSuggestion>, EvaluatorFailure>,
>)
    ensures
        outcomes@.len() == evaluators@.len(),
{
    let mut outcomes: Vec<Result<Vec<LabelSuggestion>, EvaluatorFailure>> = Vec::new();
    let n = evaluators.len();
    let mut i: usize = 0;
    while i < n
        invariant
            n == evaluators@.len(),
            0 <= i <= n,
            outcomes@.len() == i,
        decreases n - i,
    {
        outcomes.push(evaluators[i].evaluate(span));
        i = i + 1;
    }
    outcomes
}

/// Separates a run's outcomes into the proposed suggestions and the
/// reported failures, both in run order: every suggestion of every
/// successful evaluator is kept, every failure is reported, nothing is
/// dropped and nothing blocks anything.
pub fn collect_evaluations(
    outcomes: Vec<Result<Vec<LabelSuggestion>, EvaluatorFailure>>,
) -> (collected: (Vec<LabelSuggestion>, Vec<EvaluatorFailure>))
    ensures
        collected.0@ == spec_suggestions(outcomes@),
        collected.1@ == spec_failures(outcomes@),
{
    let ghost all = outcomes@;
    let mut suggestions: Vec<LabelSuggestion> = Vec::new();
    let mut failures: Vec<EvaluatorFailure> = Vec::new();
    let mut remaining = outcomes;
    while remaining.len() > 0
        invariant
            spec_suggestions(all) == suggestions@ + spec_suggestions(remaining@),
            spec_failures(all) == failures@ + spec_failures(remaining@),
        decreases remaining@.len(),
    {
        let ghost before = remaining@;
        let outcome = remaining.remove(0);
        proof {
            assert(remaining@ =~= before.drop_first());
            assert(before[0] == outcome);
        }
        match outcome {
            Ok(mut proposed) => {
                proof {
                    assert(suggestions@ + (proposed@ + spec_suggestions(before.drop_first()))
                        =~= (suggestions@ + proposed@) + spec_suggestions(before.drop_first()));
                    assert(failures@ + (Seq::<EvaluatorFailure>::empty() + spec_failures(
                        before.drop_first(),
                    )) =~= failures@ + spec_failures(before.drop_first()));
                }
                suggestions.append(&mut proposed);
            },
            Err(failure) => {
                proof {
                    assert(suggestions@ + (Seq::<LabelSuggestion>::empty() + spec_suggestions(
                        before.drop_first(),
                    )) =~= suggestions@ + spec_suggestions(before.drop_first()));
                    assert(failures@ + (seq![failure] + spec_failures(before.drop_first()))
                        =~= failures@.push(failure) + spec_failures(before.drop_first()));
                }
                failures.push(failure);
            },
        }
    }
    proof {
        assert(spec_suggestions(remaining@) =~= Seq::<LabelSuggestion>::empty());
        assert(spec_failures(remaining@) =~= Seq::<EvaluatorFailure>::empty());
        assert(suggestions@ + Seq::<LabelSuggestion>::empty() =~= suggestions@);
        assert(failures@ + Seq::<EvaluatorFailure>::empty() =~= failures@);
    }
    (suggestions, failures)
}

} // verus!
