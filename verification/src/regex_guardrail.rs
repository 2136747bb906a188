//! The pattern-match provider: a length ceiling and a list of rules.

use vstd::prelude::*;
use vstd::string::StringExecFns;
use crate::matcher::regex_first_match;
use crate::patterns::{parse_patterns, parsed_patterns, PatternDefinition, PatternDefinitionView};
use crate::provider::{GuardrailResult, GuardrailResultView, Severity, Violation, ViolationView};
use crate::scan::{
    find_matches, lemma_no_match_no_finding, matches_of, report, reported, FindingStyle,
};
use crate::text::{append_decimal, byte_length, decimal};

verus! {

/// The ceiling on the length of content, where none is configured: 1 MiB.
pub const DEFAULT_MAX_LENGTH_BYTES: usize = 1_048_576;

/// What a pattern-match provider is set up with.
#[derive(Debug)]
pub struct RegexGuardrailConfig {
    /// The most bytes that content may have.
    pub max_length_bytes: usize,
    /// Where the rules come from, if from anywhere.
    pub patterns_file: Option<String>,
    /// The severity from which on a match is a violation, not a warning.
    pub severity_threshold: Severity,
}

impl Clone for RegexGuardrailConfig {
    fn clone(&self) -> (r: Self)
        ensures
            r == *self,
    {
        RegexGuardrailConfig {
            max_length_bytes: self.max_length_bytes,
            patterns_file: self.patterns_file.clone(),
            severity_threshold: self.severity_threshold,
        }
    }
}

impl Default for RegexGuardrailConfig {
    fn default() -> (r: Self)
        ensures
            r.max_length_bytes == DEFAULT_MAX_LENGTH_BYTES,
            r.patterns_file is None,
            r.severity_threshold == Severity::Critical,
    {
        RegexGuardrailConfig {
            max_length_bytes: DEFAULT_MAX_LENGTH_BYTES,
            patterns_file: None,
            severity_threshold: Severity::Critical,
        }
    }
}

/// A provider that checks content against a length ceiling and a list of
/// rules.
#[derive(Debug)]
pub struct RegexGuardrail {
    pub config: RegexGuardrailConfig,
    pub patterns: Vec<PatternDefinition>,
}

/// The rules that a source gives: those of a source that reads as a rule
/// file, and none where there is no source or it does not read as one.
pub open spec fn loaded_patterns(source: Option<Seq<char>>) -> Seq<PatternDefinitionView> {
    match source {
        None => Seq::empty(),
        Some(text) => match parsed_patterns(text) {
            Ok(rules) => rules,
            Err(_) => Seq::empty(),
        },
    }
}

pub open spec fn too_long_message(length: usize, limit: usize) -> Seq<char> {
    "Content exceeds max length ("@ + decimal(length as nat) + " > "@ + decimal(limit as nat)
        + " bytes)"@
}

/// The violation that reports content above the length ceiling.
pub open spec fn too_long(length: usize, limit: usize) -> ViolationView {
    ViolationView {
        rule: "MAX_LENGTH"@,
        severity: Severity::Critical,
        message: too_long_message(length, limit),
        location: None,
    }
}

/// The violation that the length of the content gives rise to, if any.
pub open spec fn length_findings(length: usize, limit: usize) -> Seq<ViolationView> {
    if length > limit {
        seq![too_long(length, limit)]
    } else {
        Seq::empty()
    }
}

/// All rules active.
pub open spec fn all_active(n: nat) -> Seq<bool> {
    Seq::new(n, |i: int| true)
}

/// No rule is about personal data.
pub open spec fn none_personal(n: nat) -> Seq<bool> {
    Seq::new(n, |i: int| false)
}

/// The result for content of `length` bytes in which the rules match as
/// `matches` says: first the length violation, if any, then the findings of
/// the rules in their order; it passes if and only if there is no violation.
pub open spec fn regex_verdict(
    limit: usize,
    threshold: Severity,
    rules: Seq<PatternDefinitionView>,
    length: usize,
    matches: Seq<Option<usize>>,
) -> GuardrailResultView {
    let found = reported(
        FindingStyle::Matched,
        threshold,
        rules,
        none_personal(rules.len()),
        matches,
        rules.len(),
    );
    let violations = length_findings(length, limit) + found.0;
    GuardrailResultView {
        passed: violations.len() == 0,
        violations,
        warnings: found.1,
        quality_score: None,
        provider_specific: None,
    }
}

pub fn constant_flags(n: usize, value: bool) -> (r: Vec<bool>)
    ensures
        r@ == Seq::new(n as nat, |i: int| value),
{
    let mut r: Vec<bool> = Vec::new();
    let mut i: usize = 0;
    while i < n
        invariant
            i <= n,
            r@ == Seq::new(i as nat, |k: int| value),
        decreases n - i,
    {
        r.push(value);
        i += 1;
        assert(r@ =~= Seq::new(i as nat, |k: int| value));
    }
    r
}

impl RegexGuardrail {
    /// The result of checking `content`.
    pub open spec fn verdict(&self, content: Seq<char>) -> GuardrailResultView {
        regex_verdict(
            self.config.max_length_bytes,
            self.config.severity_threshold,
            self.patterns.deep_view(),
            byte_length(content),
            matches_of(
                self.patterns.deep_view(),
                all_active(self.patterns.len() as nat),
                content,
            ),
        )
    }

    /// Sets the provider up with the rules of `source`, the text of the
    /// configured rule file. Without a source, or with one that does not
    /// read as a rule file, the provider holds no rule and checks the
    /// length only.
    pub fn new(config: RegexGuardrailConfig, source: Option<&str>) -> (r: Self)
        ensures
            r.config == config,
            r.patterns.deep_view() == loaded_patterns(source.deep_view()),
    {
        let patterns = match source {
            None => Vec::new(),
            Some(text) => match parse_patterns(text) {
                Ok(patterns) => patterns,
                Err(_) => Vec::new(),
            },
        };
        assert(patterns.deep_view() =~= loaded_patterns(source.deep_view()));
        RegexGuardrail { config, patterns }
    }

    /// The name of this kind of provider.
    pub fn name(&self) -> (r: &'static str)
        ensures
            r@ == "RegexGuardrail"@,
    {
        "RegexGuardrail"
    }

    /// Where each rule matches in `content`.
    pub fn find_matches(&self, content: &str) -> (r: Vec<Option<usize>>)
        ensures
            r@ == matches_of(
                self.patterns.deep_view(),
                all_active(self.patterns.len() as nat),
                content@,
            ),
    {
        let active = constant_flags(self.patterns.len(), true);
        find_matches(&self.patterns, &active, content)
    }

    /// The result for content of `length` bytes in which the rules match as
    /// `matches` says. Content within the ceiling in which no rule matches
    /// passes, with nothing reported.
    pub fn validate_matches(&self, length: usize, matches: &Vec<Option<usize>>) -> (r:
        GuardrailResult)
        requires
            matches.len() == self.patterns.len(),
        ensures
            r.deep_view() == regex_verdict(
                self.config.max_length_bytes,
                self.config.severity_threshold,
                self.patterns.deep_view(),
                length,
                matches@,
            ),
            r.deep_view().consistent(),
            length <= self.config.max_length_bytes && (forall|i: int|
                0 <= i < matches.len() ==> matches@[i] is None) ==> r.deep_view()
                == GuardrailResultView::clean(),
    {
        let mut violations: Vec<Violation> = Vec::new();
        let mut warnings: Vec<Violation> = Vec::new();
        let limit = self.config.max_length_bytes;
        if length > limit {
            let mut message = String::from_str("Content exceeds max length (");
            append_decimal(&mut message, length as u64);
            message.append(" > ");
            append_decimal(&mut message, limit as u64);
            message.append(" bytes)");
            violations.push(
                Violation {
                    rule: String::from_str("MAX_LENGTH"),
                    severity: Severity::Critical,
                    message,
                    location: None,
                },
            );
        }
        assert(violations.deep_view() =~= length_findings(length, limit));
        assert(warnings.deep_view() =~= Seq::<ViolationView>::empty());
        let personal = constant_flags(self.patterns.len(), false);
        report(
            FindingStyle::Matched,
            self.config.severity_threshold,
            &self.patterns,
            &personal,
            matches,
            &mut violations,
            &mut warnings,
        );
        let passed = violations.len() == 0;
        proof {
            let found = reported(
                FindingStyle::Matched,
                self.config.severity_threshold,
                self.patterns.deep_view(),
                none_personal(self.patterns.len() as nat),
                matches@,
                self.patterns.len() as nat,
            );
            assert(warnings.deep_view() =~= found.1);
            if forall|i: int| 0 <= i < matches.len() ==> matches@[i] is None {
                lemma_no_match_no_finding(
                    FindingStyle::Matched,
                    self.config.severity_threshold,
                    self.patterns.deep_view(),
                    none_personal(self.patterns.len() as nat),
                    matches@,
                    self.patterns.len() as nat,
                );
                if length <= limit {
                    assert(violations.deep_view() =~= Seq::<ViolationView>::empty());
                }
            }
        }
        GuardrailResult::without_quality_score(passed, violations, warnings)
    }

    /// Checks `content`: its length in bytes against the ceiling, then every
    /// rule in order. A match of a rule at or above the severity threshold
    /// is a violation, any other match a warning. Content within the
    /// ceiling that no rule matches passes, with nothing reported.
    pub fn validate(&self, content: &str) -> (r: GuardrailResult)
        ensures
            r.deep_view() == self.verdict(content@),
            r.deep_view().consistent(),
            byte_length(content@) <= self.config.max_length_bytes && (forall|i: int|
                0 <= i < self.patterns.len() ==> regex_first_match(
                    #[trigger] self.patterns.deep_view()[i].regex,
                    content@,
                ) is None) ==> r.deep_view() == GuardrailResultView::clean(),
    {
        let matches = self.find_matches(content);
        self.validate_matches(content.len(), &matches)
    }
}

} // verus!
