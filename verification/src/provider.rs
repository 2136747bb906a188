//! The values that every guardrail provider produces.

use vstd::prelude::*;

verus! {

/// How grave a violation is. The order is `Low < Medium < High < Critical`.
#[derive(Debug, Clone, Copy, PartialEq, Eq, Structural, PartialOrd, Ord, Hash)]
pub enum Severity {
    Low,
    Medium,
    High,
    Critical,
}

impl Severity {
    /// The position of the level in the order, from 0 for `Low`.
    pub open spec fn rank(self) -> nat {
        match self {
            Severity::Low => 0,
            Severity::Medium => 1,
            Severity::High => 2,
            Severity::Critical => 3,
        }
    }

    /// The position of the level in the order, from 0 for `Low`.
    pub fn level(self) -> (r: u8)
        ensures
            r == self.rank(),
    {
        match self {
            Severity::Low => 0,
            Severity::Medium => 1,
            Severity::High => 2,
            Severity::Critical => 3,
        }
    }

    /// Whether `self` is at least as grave as `threshold`.
    pub fn at_least(self, threshold: Severity) -> (r: bool)
        ensures
            r == (self.rank() >= threshold.rank()),
    {
        self.level() >= threshold.level()
    }
}

/// One finding of a provider.
#[derive(Debug)]
pub struct Violation {
    pub rule: String,
    pub severity: Severity,
    pub message: String,
    pub location: Option<String>,
}

/// What a `Violation` holds.
pub struct ViolationView {
    pub rule: Seq<char>,
    pub severity: Severity,
    pub message: Seq<char>,
    pub location: Option<Seq<char>>,
}

impl DeepView for Violation {
    type V = ViolationView;

    open spec fn deep_view(&self) -> ViolationView {
        ViolationView {
            rule: self.rule@,
            severity: self.severity,
            message: self.message@,
            location: self.location.deep_view(),
        }
    }
}

impl Clone for Violation {
    fn clone(&self) -> (r: Self)
        ensures
            r == *self,
    {
        Violation {
            rule: self.rule.clone(),
            severity: self.severity,
            message: self.message.clone(),
            location: self.location.clone(),
        }
    }
}

/// A non-negative decimal number with six decimal places, as an integer
/// count of millionths. Confidences, thresholds and quality scores are of
/// this type, so that `0.5` is `Score { millionths: 500_000 }`.
#[derive(Debug, Clone, Copy, PartialEq, Eq, Structural, PartialOrd, Ord, Hash)]
pub struct Score {
    pub millionths: u64,
}

impl Score {
    /// The number 0.
    pub fn zero() -> (r: Score)
        ensures
            r.millionths == 0,
    {
        Score { millionths: 0 }
    }

    /// The number 1.
    pub fn one() -> (r: Score)
        ensures
            r.millionths == 1_000_000,
    {
        Score { millionths: 1_000_000 }
    }

    /// The number `n / 1_000_000`.
    pub fn from_millionths(n: u64) -> (r: Score)
        ensures
            r.millionths == n,
    {
        Score { millionths: n }
    }

    /// Whether `self` is strictly below `other`.
    pub fn below(self, other: Score) -> (r: bool)
        ensures
            r == (self.millionths < other.millionths),
    {
        self.millionths < other.millionths
    }
}

/// What the category-taxonomy classifier said, for audit.
#[derive(Debug)]
pub struct LlamaGuardResult {
    pub safe: bool,
    pub violated_categories: Vec<String>,
    pub raw_response: String,
}

pub struct LlamaGuardResultView {
    pub safe: bool,
    pub violated_categories: Seq<Seq<char>>,
    pub raw_response: Seq<char>,
}

impl DeepView for LlamaGuardResult {
    type V = LlamaGuardResultView;

    open spec fn deep_view(&self) -> LlamaGuardResultView {
        LlamaGuardResultView {
            safe: self.safe,
            violated_categories: self.violated_categories.deep_view(),
            raw_response: self.raw_response@,
        }
    }
}

impl Clone for LlamaGuardResult {
    fn clone(&self) -> (r: Self)
        ensures
            r.deep_view() == self.deep_view(),
    {
        let violated_categories = self.violated_categories.clone();
        assert(violated_categories@ =~= self.violated_categories@);
        LlamaGuardResult {
            safe: self.safe,
            violated_categories,
            raw_response: self.raw_response.clone(),
        }
    }
}

/// What the policy-reasoning classifier said, for audit.
#[derive(Debug)]
pub struct GptOssSafeguardResult {
    pub violation: bool,
    pub category: Option<String>,
    pub rationale: Option<String>,
    pub raw_response: String,
}

pub struct GptOssSafeguardResultView {
    pub violation: bool,
    pub category: Option<Seq<char>>,
    pub rationale: Option<Seq<char>>,
    pub raw_response: Seq<char>,
}

impl DeepView for GptOssSafeguardResult {
    type V = GptOssSafeguardResultView;

    open spec fn deep_view(&self) -> GptOssSafeguardResultView {
        GptOssSafeguardResultView {
            violation: self.violation,
            category: self.category.deep_view(),
            rationale: self.rationale.deep_view(),
            raw_response: self.raw_response@,
        }
    }
}

impl Clone for GptOssSafeguardResult {
    fn clone(&self) -> (r: Self)
        ensures
            r.deep_view() == self.deep_view(),
    {
        GptOssSafeguardResult {
            violation: self.violation,
            category: self.category.clone(),
            rationale: self.rationale.clone(),
            raw_response: self.raw_response.clone(),
        }
    }
}

/// What the confidence-threshold classifier said, for audit.
#[derive(Debug)]
pub struct LlamaPromptGuardResult {
    /// Whether the label was the malicious one.
    pub malicious: bool,
    /// The confidence that came with the label, or its default.
    pub confidence: Score,
    /// `"BENIGN"` or `"MALICIOUS"`.
    pub label: String,
    pub raw_response: String,
}

pub struct LlamaPromptGuardResultView {
    pub malicious: bool,
    pub confidence: Score,
    pub label: Seq<char>,
    pub raw_response: Seq<char>,
}

impl DeepView for LlamaPromptGuardResult {
    type V = LlamaPromptGuardResultView;

    open spec fn deep_view(&self) -> LlamaPromptGuardResultView {
        LlamaPromptGuardResultView {
            malicious: self.malicious,
            confidence: self.confidence,
            label: self.label@,
            raw_response: self.raw_response@,
        }
    }
}

impl Clone for LlamaPromptGuardResult {
    fn clone(&self) -> (r: Self)
        ensures
            r.deep_view() == self.deep_view(),
    {
        LlamaPromptGuardResult {
            malicious: self.malicious,
            confidence: self.confidence,
            label: self.label.clone(),
            raw_response: self.raw_response.clone(),
        }
    }
}

/// The raw answer of a classifier, one variant for each kind.
#[derive(Debug)]
pub enum ProviderSpecificResult {
    LlamaGuard(LlamaGuardResult),
    GptOssSafeguard(GptOssSafeguardResult),
    LlamaPromptGuard(LlamaPromptGuardResult),
}

pub enum ProviderSpecificResultView {
    LlamaGuard(LlamaGuardResultView),
    GptOssSafeguard(GptOssSafeguardResultView),
    LlamaPromptGuard(LlamaPromptGuardResultView),
}

impl DeepView for ProviderSpecificResult {
    type V = ProviderSpecificResultView;

    open spec fn deep_view(&self) -> ProviderSpecificResultView {
        match self {
            ProviderSpecificResult::LlamaGuard(r) => ProviderSpecificResultView::LlamaGuard(
                r.deep_view(),
            ),
            ProviderSpecificResult::GptOssSafeguard(r) => {
                ProviderSpecificResultView::GptOssSafeguard(r.deep_view())
            },
            ProviderSpecificResult::LlamaPromptGuard(r) => {
                ProviderSpecificResultView::LlamaPromptGuard(r.deep_view())
            },
        }
    }
}

impl Clone for ProviderSpecificResult {
    fn clone(&self) -> (r: Self)
        ensures
            r.deep_view() == self.deep_view(),
    {
        match self {
            ProviderSpecificResult::LlamaGuard(r) => ProviderSpecificResult::LlamaGuard(r.clone()),
            ProviderSpecificResult::GptOssSafeguard(r) => ProviderSpecificResult::GptOssSafeguard(
                r.clone(),
            ),
            ProviderSpecificResult::LlamaPromptGuard(r) => {
                ProviderSpecificResult::LlamaPromptGuard(r.clone())
            },
        }
    }
}

/// The outcome of one validation.
#[derive(Debug)]
pub struct GuardrailResult {
    /// Whether the content may go on.
    pub passed: bool,
    /// The findings that block the content.
    pub violations: Vec<Violation>,
    /// The findings that do not.
    pub warnings: Vec<Violation>,
    /// A quality score between 0 and 10, where the provider computes one.
    pub quality_score: Option<Score>,
    /// The raw answer of the classifier, where there is one.
    pub provider_specific: Option<ProviderSpecificResult>,
}

/// What a `GuardrailResult` holds.
pub struct GuardrailResultView {
    pub passed: bool,
    pub violations: Seq<ViolationView>,
    pub warnings: Seq<ViolationView>,
    pub quality_score: Option<Score>,
    pub provider_specific: Option<ProviderSpecificResultView>,
}

impl GuardrailResultView {
    /// A result that passes holds no violation. Every result of a single
    /// provider is of this kind; an aggregate need not be.
    pub open spec fn consistent(self) -> bool {
        self.passed ==> self.violations.len() == 0
    }

    /// The result that passes and reports nothing.
    pub open spec fn clean() -> GuardrailResultView {
        GuardrailResultView {
            passed: true,
            violations: Seq::empty(),
            warnings: Seq::empty(),
            quality_score: None,
            provider_specific: None,
        }
    }
}

impl DeepView for GuardrailResult {
    type V = GuardrailResultView;

    open spec fn deep_view(&self) -> GuardrailResultView {
        GuardrailResultView {
            passed: self.passed,
            violations: self.violations.deep_view(),
            warnings: self.warnings.deep_view(),
            quality_score: self.quality_score,
            provider_specific: self.provider_specific.deep_view(),
        }
    }
}

impl Clone for GuardrailResult {
    fn clone(&self) -> (r: Self)
        ensures
            r.deep_view() == self.deep_view(),
    {
        let violations = self.violations.clone();
        let warnings = self.warnings.clone();
        assert(violations@ =~= self.violations@);
        assert(warnings@ =~= self.warnings@);
        let provider_specific = match &self.provider_specific {
            Some(p) => Some(p.clone()),
            None => None,
        };
        GuardrailResult {
            passed: self.passed,
            violations,
            warnings,
            quality_score: self.quality_score,
            provider_specific,
        }
    }
}

impl GuardrailResult {
    /// A result without a quality score and without a raw answer.
    pub fn without_quality_score(
        passed: bool,
        violations: Vec<Violation>,
        warnings: Vec<Violation>,
    ) -> (r: Self)
        ensures
            r.deep_view() == (GuardrailResultView {
                passed,
                violations: violations.deep_view(),
                warnings: warnings.deep_view(),
                quality_score: None,
                provider_specific: None,
            }),
    {
        GuardrailResult { passed, violations, warnings, quality_score: None, provider_specific: None }
    }

    /// A result with a quality score.
    pub fn with_quality_score(
        passed: bool,
        violations: Vec<Violation>,
        warnings: Vec<Violation>,
        quality_score: Score,
    ) -> (r: Self)
        ensures
            r.deep_view() == (GuardrailResultView {
                passed,
                violations: violations.deep_view(),
                warnings: warnings.deep_view(),
                quality_score: Some(quality_score),
                provider_specific: None,
            }),
    {
        GuardrailResult {
            passed,
            violations,
            warnings,
            quality_score: Some(quality_score),
            provider_specific: None,
        }
    }

    /// A result with the raw answer of a classifier.
    pub fn with_provider_specific(
        passed: bool,
        violations: Vec<Violation>,
        warnings: Vec<Violation>,
        provider_specific: ProviderSpecificResult,
    ) -> (r: Self)
        ensures
            r.deep_view() == (GuardrailResultView {
                passed,
                violations: violations.deep_view(),
                warnings: warnings.deep_view(),
                quality_score: None,
                provider_specific: Some(provider_specific.deep_view()),
            }),
    {
        GuardrailResult {
            passed,
            violations,
            warnings,
            quality_score: None,
            provider_specific: Some(provider_specific),
        }
    }
}

} // verus!
