//! Combining the results of several providers into one.

use vstd::prelude::*;
use crate::config::AggregationMode;
use crate::provider::{
    GuardrailResult, GuardrailResultView, ProviderSpecificResult, ProviderSpecificResultView,
    Score, Violation, ViolationView,
};

verus! {

/// Whether every result passes.
pub open spec fn all_passed(results: Seq<GuardrailResultView>) -> bool {
    forall|i: int| 0 <= i < results.len() ==> (#[trigger] results[i]).passed
}

/// Whether some result passes.
pub open spec fn any_passed(results: Seq<GuardrailResultView>) -> bool {
    exists|i: int| 0 <= i < results.len() && (#[trigger] results[i]).passed
}

/// The violations of all results, in the order of the results.
pub open spec fn merged_violations(results: Seq<GuardrailResultView>) -> Seq<ViolationView>
    decreases results.len(),
{
    if results.len() == 0 {
        Seq::empty()
    } else {
        merged_violations(results.drop_last()) + results.last().violations
    }
}

/// The warnings of all results, in the order of the results.
pub open spec fn merged_warnings(results: Seq<GuardrailResultView>) -> Seq<ViolationView>
    decreases results.len(),
{
    if results.len() == 0 {
        Seq::empty()
    } else {
        merged_warnings(results.drop_last()) + results.last().warnings
    }
}

/// The quality score of the first result that has one.
pub open spec fn first_quality(results: Seq<GuardrailResultView>) -> Option<Score>
    decreases results.len(),
{
    if results.len() == 0 {
        None
    } else {
        match first_quality(results.drop_last()) {
            Some(score) => Some(score),
            None => results.last().quality_score,
        }
    }
}

/// The raw classifier answer of the first result that has one.
pub open spec fn first_payload(results: Seq<GuardrailResultView>) -> Option<
    ProviderSpecificResultView,
>
    decreases results.len(),
{
    if results.len() == 0 {
        None
    } else {
        match first_payload(results.drop_last()) {
            Some(payload) => Some(payload),
            None => results.last().provider_specific,
        }
    }
}

/// Whether the combination of the results passes. Without any result it
/// does, in either mode.
pub open spec fn combined_pass(mode: AggregationMode, results: Seq<GuardrailResultView>) -> bool {
    results.len() == 0 || match mode {
        AggregationMode::AllMustPass => all_passed(results),
        AggregationMode::AnyCanPass => any_passed(results),
    }
}

/// The combination of the results. The mode decides only whether it passes:
/// the violations and the warnings are those of all results in their order,
/// the quality score and the raw answer those of the first result that has
/// one.
pub open spec fn aggregated(
    mode: AggregationMode,
    results: Seq<GuardrailResultView>,
) -> GuardrailResultView {
    GuardrailResultView {
        passed: combined_pass(mode, results),
        violations: merged_violations(results),
        warnings: merged_warnings(results),
        quality_score: first_quality(results),
        provider_specific: first_payload(results),
    }
}

/// Whether a result decides the outcome of a sequential run, so that no
/// further provider is asked: a failure where all must pass, a pass where
/// any can.
pub open spec fn decides(mode: AggregationMode, passed: bool) -> bool {
    match mode {
        AggregationMode::AllMustPass => !passed,
        AggregationMode::AnyCanPass => passed,
    }
}

/// Whether a result decides the outcome of a sequential run.
pub fn short_circuits(mode: AggregationMode, result: &GuardrailResult) -> (r: bool)
    ensures
        r == decides(mode, result.passed),
{
    match mode {
        AggregationMode::AllMustPass => !result.passed,
        AggregationMode::AnyCanPass => result.passed,
    }
}

/// Appends copies of `items` to `out`.
pub fn extend_violations(out: &mut Vec<Violation>, items: &Vec<Violation>)
    ensures
        final(out).deep_view() == old(out).deep_view() + items.deep_view(),
{
    let mut i: usize = 0;
    assert(out.deep_view() =~= old(out).deep_view() + items.deep_view().take(0));
    while i < items.len()
        invariant
            i <= items.len(),
            out.deep_view() == old(out).deep_view() + items.deep_view().take(i as int),
        decreases items.len() - i,
    {
        let ghost before = out.deep_view();
        out.push(items[i].clone());
        i += 1;
        assert(out.deep_view() =~= before.push(items@[i - 1].deep_view()));
        assert(out.deep_view() =~= old(out).deep_view() + items.deep_view().take(i as int));
    }
    assert(items.deep_view().take(items.len() as int) =~= items.deep_view());
}

/// Combines the results of several providers.
pub fn aggregate(mode: AggregationMode, results: &Vec<GuardrailResult>) -> (r: GuardrailResult)
    ensures
        r.deep_view() == aggregated(mode, results.deep_view()),
        results.len() == 0 ==> r.deep_view() == GuardrailResultView::clean(),
{
    let ghost all = results.deep_view();
    let mut every = true;
    let mut some = false;
    let mut violations: Vec<Violation> = Vec::new();
    let mut warnings: Vec<Violation> = Vec::new();
    let mut quality_score: Option<Score> = None;
    let mut provider_specific: Option<ProviderSpecificResult> = None;
    let mut i: usize = 0;
    assert(all.take(0) =~= Seq::<GuardrailResultView>::empty());
    assert(violations.deep_view() =~= Seq::<ViolationView>::empty());
    assert(warnings.deep_view() =~= Seq::<ViolationView>::empty());
    while i < results.len()
        invariant
            i <= results.len(),
            all == results.deep_view(),
            every == all_passed(all.take(i as int)),
            some == any_passed(all.take(i as int)),
            violations.deep_view() == merged_violations(all.take(i as int)),
            warnings.deep_view() == merged_warnings(all.take(i as int)),
            quality_score == first_quality(all.take(i as int)),
            provider_specific.deep_view() == first_payload(all.take(i as int)),
        decreases results.len() - i,
    {
        let result = &results[i];
        proof {
            let before = all.take(i as int);
            let now = all.take(i + 1);
            assert(now.drop_last() =~= before);
            assert(now.last() == result.deep_view());
            assert(all_passed(now) == (all_passed(before) && result.passed)) by {
                if all_passed(before) && result.passed {
                    assert forall|k: int| 0 <= k < now.len() implies (#[trigger] now[k]).passed by {
                        if k < i {
                            assert(now[k] == before[k]);
                        }
                    }
                } else if all_passed(now) {
                    assert(now[i as int].passed);
                    assert forall|k: int| 0 <= k < before.len() implies (
                    #[trigger] before[k]).passed by {
                        assert(before[k] == now[k]);
                    }
                }
            }
            assert(any_passed(now) == (any_passed(before) || result.passed)) by {
                if any_passed(before) {
                    let k = choose|k: int| 0 <= k < before.len() && (#[trigger] before[k]).passed;
                    assert(now[k] == before[k]);
                } else if result.passed {
                    assert(now[i as int].passed);
                }
                if any_passed(now) {
                    let k = choose|k: int| 0 <= k < now.len() && (#[trigger] now[k]).passed;
                    if k < i {
                        assert(before[k] == now[k]);
                    }
                }
            }
        }
        every = every && result.passed;
        some = some || result.passed;
        extend_violations(&mut violations, &result.violations);
        extend_violations(&mut warnings, &result.warnings);
        if quality_score.is_none() {
            quality_score = result.quality_score;
        }
        if provider_specific.is_none() {
            provider_specific = match &result.provider_specific {
                Some(payload) => Some(payload.clone()),
                None => None,
            };
        }
        i += 1;
    }
    assert(all.take(results.len() as int) =~= all);
    let passed = results.len() == 0 || match mode {
        AggregationMode::AllMustPass => every,
        AggregationMode::AnyCanPass => some,
    };
    GuardrailResult { passed, violations, warnings, quality_score, provider_specific }
}

/// Where all must pass, the combination passes if and only if every result
/// does. Where any can pass and there is a result, it passes if and only if
/// some result does. In both modes its violations and its warnings are those
/// of all results, in their order, so that the mode changes nothing but
/// whether the combination passes.
pub proof fn lemma_aggregation_law(results: Seq<GuardrailResultView>)
    ensures
        aggregated(AggregationMode::AllMustPass, results).passed == all_passed(results),
        results.len() > 0 ==> aggregated(AggregationMode::AnyCanPass, results).passed
            == any_passed(results),
        aggregated(AggregationMode::AllMustPass, results).violations == merged_violations(results),
        aggregated(AggregationMode::AnyCanPass, results).violations == merged_violations(results),
        aggregated(AggregationMode::AllMustPass, results).warnings == aggregated(
            AggregationMode::AnyCanPass,
            results,
        ).warnings,
        aggregated(AggregationMode::AllMustPass, results).quality_score == aggregated(
            AggregationMode::AnyCanPass,
            results,
        ).quality_score,
        aggregated(AggregationMode::AllMustPass, results).provider_specific == aggregated(
            AggregationMode::AnyCanPass,
            results,
        ).provider_specific,
{
}

/// The violations of a combination are made of the violations of each
/// result: those of the results before the `k`-th, then its own, then those
/// of the results after it.
pub proof fn lemma_merged_violations_split(results: Seq<GuardrailResultView>, k: int)
    requires
        0 <= k < results.len(),
    ensures
        merged_violations(results) == merged_violations(results.take(k)) + results[k].violations
            + merged_violations(results.skip(k + 1)),
    decreases results.len(),
{
    let n = results.len() as int;
    if k == n - 1 {
        assert(results.drop_last() =~= results.take(k));
        assert(results.skip(k + 1) =~= Seq::<GuardrailResultView>::empty());
        assert(merged_violations(results.skip(k + 1)) =~= Seq::<ViolationView>::empty());
        assert(merged_violations(results) =~= merged_violations(results.take(k))
            + results[k].violations + merged_violations(results.skip(k + 1)));
    } else {
        let shorter = results.drop_last();
        lemma_merged_violations_split(shorter, k);
        assert(shorter.take(k) =~= results.take(k));
        assert(results.skip(k + 1).drop_last() =~= shorter.skip(k + 1));
        assert(results.skip(k + 1).last() == results.last());
        assert(merged_violations(results) =~= merged_violations(results.take(k))
            + results[k].violations + merged_violations(results.skip(k + 1)));
    }
}

/// Where all must pass and every result that passes holds no violation, a
/// combination that passes holds no violation either. Where any can pass
/// this need not be so: the violations of a result that failed stay in a
/// combination that passes.
pub proof fn lemma_all_must_pass_stays_consistent(results: Seq<GuardrailResultView>)
    requires
        forall|i: int| 0 <= i < results.len() ==> (#[trigger] results[i]).consistent(),
    ensures
        aggregated(AggregationMode::AllMustPass, results).consistent(),
    decreases results.len(),
{
    if results.len() > 0 && all_passed(results) {
        let shorter = results.drop_last();
        assert forall|i: int| 0 <= i < shorter.len() implies (#[trigger] shorter[i]).consistent()
            && shorter[i].passed by {
            assert(shorter[i] == results[i]);
        }
        lemma_all_must_pass_stays_consistent(shorter);
        assert(results[results.len() - 1].passed);
        assert(results.last().violations.len() == 0);
    }
}

/// The combination of no results passes and reports nothing, in either
/// mode.
pub proof fn lemma_nothing_to_aggregate(mode: AggregationMode)
    ensures
        aggregated(mode, Seq::empty()) == GuardrailResultView::clean(),
{
}

} // verus!
