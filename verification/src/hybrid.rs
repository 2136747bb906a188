//! The composite orchestrator: a provider made of other providers, with a
//! way of running them and a way of combining their results.

use vstd::prelude::*;
use vstd::string::StringExecFns;
use crate::aggregation::{aggregate, aggregated, decides, merged_violations, short_circuits};
use crate::client::ModelGateway;
use crate::config::{AggregationMode, ExecutionMode};
use crate::error::{outcome, CliError, CliErrorView};
use crate::gpt_oss_safeguard::GptOssSafeguardProvider;
use crate::input::InputGuardrail;
use crate::llama_guard::LlamaGuardProvider;
use crate::llama_prompt_guard::LlamaPromptGuardProvider;
use crate::output::OutputGuardrail;
use crate::provider::{GuardrailResult, GuardrailResultView, ViolationView};
use crate::regex_guardrail::RegexGuardrail;

verus! {

/// A provider of any kind.
#[derive(Debug)]
pub enum GuardrailProvider {
    Regex(RegexGuardrail),
    Input(InputGuardrail),
    Output(OutputGuardrail),
    LlamaGuard(LlamaGuardProvider),
    GptOssSafeguard(GptOssSafeguardProvider),
    LlamaPromptGuard(LlamaPromptGuardProvider),
    Composite(HybridGuardrail),
}

/// A provider made of other providers.
#[derive(Debug)]
pub struct HybridGuardrail {
    pub providers: Vec<GuardrailProvider>,
    pub execution: ExecutionMode,
    pub aggregation: AggregationMode,
}

/// How one provider answered: with a result, or with an operational failure.
pub type Outcome = Result<GuardrailResultView, CliErrorView>;

/// Whether an outcome ends a sequential run: a failure of the provider
/// itself, or a result that decides.
pub open spec fn halts(mode: AggregationMode, answer: Outcome) -> bool {
    match answer {
        Err(_) => true,
        Ok(result) => decides(mode, result.passed),
    }
}

/// Whether `answers` can be the record of a sequential run over `n`
/// providers: the answers of the first providers in order, none of which
/// but the last ends the run, and all `n` of them unless the last one does.
pub open spec fn is_sequential_run(mode: AggregationMode, n: nat, answers: Seq<Outcome>) -> bool {
    &&& answers.len() <= n
    &&& forall|i: int| 0 <= i < answers.len() - 1 ==> !halts(mode, #[trigger] answers[i])
    &&& answers.len() < n ==> answers.len() > 0 && halts(mode, answers.last())
}

/// The results among the answers, in order.
pub open spec fn successes(answers: Seq<Outcome>) -> Seq<GuardrailResultView>
    decreases answers.len(),
{
    if answers.len() == 0 {
        Seq::empty()
    } else {
        let before = successes(answers.drop_last());
        match answers.last() {
            Ok(result) => before.push(result),
            Err(_) => before,
        }
    }
}

/// The outcome of a sequential run with the record `answers`: the failure
/// of the last provider asked, if it failed, and otherwise the combination
/// of all results.
pub open spec fn sequential_result(mode: AggregationMode, answers: Seq<Outcome>) -> Outcome {
    if answers.len() > 0 && answers.last() is Err {
        Err(answers.last()->Err_0)
    } else {
        Ok(aggregated(mode, successes(answers)))
    }
}

pub open spec fn all_failed_fault() -> Seq<char> {
    "All providers failed during parallel execution"@
}

/// The outcome of a parallel run in which the providers answered as
/// `answers` says: the combination of the results, where the failures are
/// left out; a failure where there are providers and all of them failed.
pub open spec fn parallel_result(mode: AggregationMode, answers: Seq<Outcome>) -> Outcome {
    if answers.len() > 0 && successes(answers).len() == 0 {
        Err(CliErrorView::InvalidResponse(all_failed_fault()))
    } else {
        Ok(aggregated(mode, successes(answers)))
    }
}

/// The views of a list of answers.
pub open spec fn answer_views(answers: Seq<Result<GuardrailResult, CliError>>) -> Seq<Outcome> {
    Seq::new(answers.len(), |i: int| outcome(answers[i]))
}

impl GuardrailProvider {
    /// Whether `answer` is a possible outcome of validating `content`. A
    /// pattern-match provider has one outcome. A classifier has one for
    /// each reply that its model may give. A composite has one for each way
    /// in which its children may answer.
    pub open spec fn admits(self, content: Seq<char>, answer: Outcome) -> bool
        decreases self, 0nat,
    {
        match self {
            GuardrailProvider::Regex(p) => answer == Ok::<GuardrailResultView, CliErrorView>(
                p.verdict(content),
            ),
            GuardrailProvider::Input(p) => answer == Ok::<GuardrailResultView, CliErrorView>(
                p.verdict(content),
            ),
            GuardrailProvider::Output(p) => answer == Ok::<GuardrailResultView, CliErrorView>(
                p.verdict(content),
            ),
            GuardrailProvider::LlamaGuard(p) => exists|reply: Result<Seq<char>, CliErrorView>|
                answer == #[trigger] p.reading(reply),
            GuardrailProvider::GptOssSafeguard(p) => exists|reply: Result<Seq<char>, CliErrorView>|
                answer == #[trigger] p.reading(reply),
            GuardrailProvider::LlamaPromptGuard(p) => exists|
                reply: Result<Seq<char>, CliErrorView>,
            |
                answer == #[trigger] p.reading(reply),
            GuardrailProvider::Composite(h) => h.admits(content, answer),
        }
    }
}

/// Whether a composite over `n` providers that got the answers `answers`
/// from the providers it asked, in their order, comes to `answer`.
pub open spec fn composes(
    execution: ExecutionMode,
    aggregation: AggregationMode,
    n: nat,
    answers: Seq<Outcome>,
    answer: Outcome,
) -> bool {
    match execution {
        ExecutionMode::Sequential => is_sequential_run(aggregation, n, answers) && answer
            == sequential_result(aggregation, answers),
        ExecutionMode::Parallel => answers.len() == n && answer == parallel_result(
            aggregation,
            answers,
        ),
    }
}

impl HybridGuardrail {
    /// Whether `answer` is a possible outcome of validating `content` when
    /// the children are run in the way `execution`: there are answers that
    /// the children asked may have given to `content`, in their order, of
    /// which the composite makes `answer`.
    pub open spec fn admits_under(
        self,
        execution: ExecutionMode,
        content: Seq<char>,
        answer: Outcome,
    ) -> bool
        decreases self, 0nat,
    {
        exists|answers: Seq<Outcome>|
            {
                &&& #[trigger] composes(
                    execution,
                    self.aggregation,
                    self.providers.len() as nat,
                    answers,
                    answer,
                )
                &&& forall|i: int|
                    0 <= i < answers.len() && i < self.providers.len() ==> (
                    #[trigger] self.providers[i]).admits(content, answers[i])
            }
    }

    /// Whether `answer` is a possible outcome of validating `content`.
    pub open spec fn admits(self, content: Seq<char>, answer: Outcome) -> bool
        decreases self, 1nat,
    {
        self.admits_under(self.execution, content, answer)
    }
}

/// In a sequential run no provider is asked after one whose answer ends
/// the run: an answer that ends the run is the last of the record.
pub proof fn lemma_run_ends_at_first_halt(
    mode: AggregationMode,
    n: nat,
    answers: Seq<Outcome>,
    i: int,
)
    requires
        is_sequential_run(mode, n, answers),
        0 <= i < answers.len(),
        halts(mode, answers[i]),
    ensures
        i == answers.len() - 1,
{
}

/// Where all must pass and the first provider fails, the record of a
/// sequential run holds that one answer and no other, whatever the number
/// of providers, and the outcome is the first provider's result with its
/// own violations.
pub proof fn lemma_first_failure_is_final(n: nat, answers: Seq<Outcome>)
    requires
        is_sequential_run(AggregationMode::AllMustPass, n, answers),
        answers.len() > 0,
        answers[0] is Ok,
        !answers[0]->Ok_0.passed,
    ensures
        answers.len() == 1,
        sequential_result(AggregationMode::AllMustPass, answers) is Ok,
        !sequential_result(AggregationMode::AllMustPass, answers)->Ok_0.passed,
        sequential_result(AggregationMode::AllMustPass, answers)->Ok_0.violations
            == answers[0]->Ok_0.violations,
{
    lemma_run_ends_at_first_halt(AggregationMode::AllMustPass, n, answers, 0);
    let results = successes(answers);
    assert(answers.drop_last() =~= Seq::<Outcome>::empty());
    assert(successes(answers.drop_last()) =~= Seq::<GuardrailResultView>::empty());
    assert(answers.last() == answers[0]);
    assert(results =~= seq![answers[0]->Ok_0]);
    assert(results.drop_last() =~= Seq::<GuardrailResultView>::empty());
    assert(!results[0].passed);
    assert(merged_violations(results.drop_last()) =~= Seq::<ViolationView>::empty());
    assert(merged_violations(results) =~= answers[0]->Ok_0.violations);
}

/// A composite without children passes and reports nothing, however it
/// runs its children and however it combines their results: that is its
/// one possible outcome.
pub proof fn lemma_empty_composite(h: HybridGuardrail, content: Seq<char>, answer: Outcome)
    requires
        h.providers.len() == 0,
    ensures
        h.admits(content, answer) <==> answer == Ok::<GuardrailResultView, CliErrorView>(
            GuardrailResultView::clean(),
        ),
{
    let none = Seq::<Outcome>::empty();
    assert(successes(none) =~= Seq::<GuardrailResultView>::empty());
    assert(aggregated(h.aggregation, Seq::<GuardrailResultView>::empty())
        == GuardrailResultView::clean());
    if h.admits(content, answer) {
        let answers = choose|answers: Seq<Outcome>| #[trigger]
            composes(h.execution, h.aggregation, h.providers.len() as nat, answers, answer);
        assert(answers =~= none);
    }
    if answer == Ok::<GuardrailResultView, CliErrorView>(GuardrailResultView::clean()) {
        assert(composes(h.execution, h.aggregation, h.providers.len() as nat, none, answer));
    }
}

impl HybridGuardrail {
    pub fn new(
        providers: Vec<GuardrailProvider>,
        execution: ExecutionMode,
        aggregation: AggregationMode,
    ) -> (r: Self)
        ensures
            r.providers == providers,
            r.execution == execution,
            r.aggregation == aggregation,
    {
        HybridGuardrail { providers, execution, aggregation }
    }

    /// The name of this kind of provider.
    pub fn name(&self) -> (r: &'static str)
        ensures
            r@ == "CompositeGuardrail"@,
    {
        "CompositeGuardrail"
    }

    /// Combines the results of the children that answered.
    pub fn aggregate_results(&self, results: Vec<GuardrailResult>) -> (r: GuardrailResult)
        ensures
            r.deep_view() == aggregated(self.aggregation, results.deep_view()),
            results.len() == 0 ==> r.deep_view() == GuardrailResultView::clean(),
    {
        aggregate(self.aggregation, &results)
    }

    /// Whether a sequential run ends with `result`.
    pub fn stops_after(&self, result: &GuardrailResult) -> (r: bool)
        ensures
            r == decides(self.aggregation, result.passed),
    {
        short_circuits(self.aggregation, result)
    }

    /// Makes the outcome of a parallel run of the answers of all children:
    /// the failures are left out and the results combined. Where there are
    /// children and every one of them failed, the run has failed.
    pub fn collect_parallel(&self, answers: Vec<Result<GuardrailResult, CliError>>) -> (r: Result<
        GuardrailResult,
        CliError,
    >)
        ensures
            outcome(r) == parallel_result(self.aggregation, answer_views(answers@)),
    {
        let ghost all = answer_views(answers@);
        let n = answers.len();
        let mut results: Vec<GuardrailResult> = Vec::new();
        let mut answers = answers;
        let mut i: usize = 0;
        assert(all.take(0) =~= Seq::<Outcome>::empty());
        assert(results.deep_view() =~= Seq::<GuardrailResultView>::empty());
        while i < n
            invariant
                i <= n == answers.len(),
                all.len() == n,
                forall|k: int| i <= k < n ==> outcome(#[trigger] answers@[k]) == all[k],
                results.deep_view() == successes(all.take(i as int)),
            decreases n - i,
        {
            assert(all.take(i + 1).drop_last() =~= all.take(i as int));
            assert(all.take(i + 1).last() == outcome(answers@[i as int]));
            let ghost before = results.deep_view();
            let ghost rest = answers@;
            let mut taken: Result<GuardrailResult, CliError> = Err(
                CliError::InvalidResponse(String::new()),
            );
            std::mem::swap(&mut answers[i], &mut taken);
            assert(forall|k: int| i < k < n ==> answers@[k] == rest[k]);
            match taken {
                Ok(result) => {
                    results.push(result);
                    assert(results.deep_view() =~= before.push(result.deep_view()));
                },
                Err(_) => {},
            }
            i += 1;
        }
        assert(all.take(n as int) =~= all);
        if n > 0 && results.len() == 0 {
            return Err(
                CliError::InvalidResponse(
                    String::from_str("All providers failed during parallel execution"),
                ),
            );
        }
        Ok(aggregate(self.aggregation, &results))
    }
}

impl GuardrailProvider {
    /// The name of the kind of provider.
    pub fn name(&self) -> (r: &'static str)
        ensures
            r@ == match self {
                GuardrailProvider::Regex(_) => "RegexGuardrail"@,
                GuardrailProvider::Input(_) => "RegexInputGuardrail"@,
                GuardrailProvider::Output(_) => "RegexOutputGuardrail"@,
                GuardrailProvider::LlamaGuard(_) => "LlamaGuard3"@,
                GuardrailProvider::GptOssSafeguard(_) => "GptOssSafeguard"@,
                GuardrailProvider::LlamaPromptGuard(_) => "LlamaPromptGuard2"@,
                GuardrailProvider::Composite(_) => "CompositeGuardrail"@,
            },
    {
        match self {
            GuardrailProvider::Regex(p) => p.name(),
            GuardrailProvider::Input(p) => p.name(),
            GuardrailProvider::Output(p) => p.name(),
            GuardrailProvider::LlamaGuard(p) => p.name(),
            GuardrailProvider::GptOssSafeguard(p) => p.name(),
            GuardrailProvider::LlamaPromptGuard(p) => p.name(),
            GuardrailProvider::Composite(p) => p.name(),
        }
    }

    /// Validates `content`. A pattern-match provider answers by itself; a
    /// classifier puts the content to its model through `gateway`; a
    /// composite asks its children. Whatever the models reply, the outcome
    /// is one that the provider admits.
    pub fn validate<G: ModelGateway>(&self, content: &str, gateway: &G) -> (r: Result<
        GuardrailResult,
        CliError,
    >)
        ensures
            self.admits(content@, outcome(r)),
        decreases self, 0nat,
    {
        match self {
            GuardrailProvider::Regex(p) => Ok(p.validate(content)),
            GuardrailProvider::Input(p) => Ok(p.validate(content)),
            GuardrailProvider::Output(p) => Ok(p.validate(content)),
            GuardrailProvider::LlamaGuard(p) => p.validate(content, gateway),
            GuardrailProvider::GptOssSafeguard(p) => p.validate(content, gateway),
            GuardrailProvider::LlamaPromptGuard(p) => p.validate(content, gateway),
            GuardrailProvider::Composite(h) => h.validate(content, gateway),
        }
    }
}

impl HybridGuardrail {
    /// Asks the children one after the other and stops after the first
    /// answer that ends the run: a failure of a child, which is the outcome
    /// then, or a result that decides. The results up to there are
    /// combined; no child after that one is asked.
    pub fn validate_sequential<G: ModelGateway>(&self, content: &str, gateway: &G) -> (r: Result<
        GuardrailResult,
        CliError,
    >)
        ensures
            self.admits_under(ExecutionMode::Sequential, content@, outcome(r)),
            self.providers.len() == 0 ==> outcome(r) == Ok::<GuardrailResultView, CliErrorView>(
                GuardrailResultView::clean(),
            ),
        decreases self, 0nat,
    {
        let n = self.providers.len();
        let mut results: Vec<GuardrailResult> = Vec::new();
        let ghost mut answers: Seq<Outcome> = Seq::empty();
        let mut i: usize = 0;
        assert(results.deep_view() =~= successes(answers));
        while i < n
            invariant
                i <= n == self.providers.len(),
                answers.len() == i,
                forall|k: int|
                    0 <= k < i ==> (#[trigger] self.providers[k]).admits(content@, answers[k]),
                forall|k: int| 0 <= k < i ==> !halts(self.aggregation, #[trigger] answers[k]),
                results.deep_view() == successes(answers),
            decreases n - i,
        {
            let ghost before = answers;
            let ghost results_before = results.deep_view();
            let answer = self.providers[i].validate(content, gateway);
            match answer {
                Err(e) => {
                    proof {
                        answers = before.push(Err(e.deep_view()));
                        assert(answers.drop_last() =~= before);
                        assert(is_sequential_run(self.aggregation, n as nat, answers));
                        assert(composes(
                            ExecutionMode::Sequential,
                            self.aggregation,
                            n as nat,
                            answers,
                            Err(e.deep_view()),
                        ));
                    }
                    return Err(e);
                },
                Ok(result) => {
                    let stop = short_circuits(self.aggregation, &result);
                    results.push(result);
                    proof {
                        answers = before.push(Ok(result.deep_view()));
                        assert(answers.drop_last() =~= before);
                        assert(results.deep_view() =~= results_before.push(result.deep_view()));
                    }
                    if stop {
                        let combined = aggregate(self.aggregation, &results);
                        proof {
                            assert(is_sequential_run(self.aggregation, n as nat, answers));
                            assert(composes(
                                ExecutionMode::Sequential,
                                self.aggregation,
                                n as nat,
                                answers,
                                Ok(combined.deep_view()),
                            ));
                        }
                        return Ok(combined);
                    }
                },
            }
            i += 1;
        }
        let combined = aggregate(self.aggregation, &results);
        proof {
            if n > 0 {
                assert(!halts(self.aggregation, answers[n - 1]));
            }
            assert(is_sequential_run(self.aggregation, n as nat, answers));
            assert(composes(
                ExecutionMode::Sequential,
                self.aggregation,
                n as nat,
                answers,
                Ok(combined.deep_view()),
            ));
        }
        Ok(combined)
    }

    /// Asks every child and combines the results of those that answered; a
    /// child that failed is left out. Where there are children and every
    /// one of them failed, the outcome is a failure.
    pub fn validate_parallel<G: ModelGateway>(&self, content: &str, gateway: &G) -> (r: Result<
        GuardrailResult,
        CliError,
    >)
        ensures
            self.admits_under(ExecutionMode::Parallel, content@, outcome(r)),
            self.providers.len() == 0 ==> outcome(r) == Ok::<GuardrailResultView, CliErrorView>(
                GuardrailResultView::clean(),
            ),
        decreases self, 0nat,
    {
        let n = self.providers.len();
        let mut got: Vec<Result<GuardrailResult, CliError>> = Vec::new();
        let mut i: usize = 0;
        while i < n
            invariant
                i <= n == self.providers.len(),
                got.len() == i,
                forall|k: int|
                    0 <= k < i ==> (#[trigger] self.providers[k]).admits(
                        content@,
                        outcome(got@[k]),
                    ),
            decreases n - i,
        {
            let answer = self.providers[i].validate(content, gateway);
            got.push(answer);
            i += 1;
        }
        let ghost answers = answer_views(got@);
        let r = self.collect_parallel(got);
        proof {
            assert(composes(
                ExecutionMode::Parallel,
                self.aggregation,
                n as nat,
                answers,
                outcome(r),
            ));
            if n == 0 {
                assert(successes(answers) =~= Seq::<GuardrailResultView>::empty());
            }
        }
        r
    }

    /// Validates `content` in the way the composite is set up for.
    pub fn validate_with_strategy<G: ModelGateway>(&self, content: &str, gateway: &G) -> (r:
        Result<GuardrailResult, CliError>)
        ensures
            self.admits(content@, outcome(r)),
            self.providers.len() == 0 ==> outcome(r) == Ok::<GuardrailResultView, CliErrorView>(
                GuardrailResultView::clean(),
            ),
        decreases self, 1nat,
    {
        match self.execution {
            ExecutionMode::Sequential => self.validate_sequential(content, gateway),
            ExecutionMode::Parallel => self.validate_parallel(content, gateway),
        }
    }

    /// Validates `content`. A composite without children passes and reports
    /// nothing, in every mode.
    pub fn validate<G: ModelGateway>(&self, content: &str, gateway: &G) -> (r: Result<
        GuardrailResult,
        CliError,
    >)
        ensures
            self.admits(content@, outcome(r)),
            self.providers.len() == 0 ==> outcome(r) == Ok::<GuardrailResultView, CliErrorView>(
                GuardrailResultView::clean(),
            ),
        decreases self, 2nat,
    {
        self.validate_with_strategy(content, gateway)
    }
}

} // verus!
