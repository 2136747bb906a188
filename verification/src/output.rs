//! The pattern-match provider for content that a model produced: a length
//! ceiling, the built-in safety rules, a count of uncertainty markers, the
//! user's rules, and a quality score.

use vstd::prelude::*;
use vstd::string::StringExecFns;
use crate::input::{description_words, DescriptionWords};
use crate::matcher::regex_match_count;
use crate::patterns::{parse_patterns, parsed_patterns, PatternDefinition, PatternDefinitionView};
use crate::provider::{
    GuardrailResult, GuardrailResultView, Score, Severity, Violation, ViolationView,
};
use crate::regex_guardrail::{constant_flags, loaded_patterns, none_personal};
use crate::scan::{
    find_matches, lemma_no_match_no_finding, matches_of, report, reported, FindingStyle,
};
use crate::score::one_place;
use crate::text::{append_decimal, byte_length, decimal, has_substring, unicode_lowercase};

verus! {

/// The ceiling on the length of output, where none is configured: 1 MiB.
pub const MAX_OUTPUT_BYTES: usize = 1_048_576;

/// The quality score below which output gets a warning, where none is
/// configured: 5.0.
pub const DEFAULT_MIN_QUALITY_MILLIONTHS: u64 = 5_000_000;

/// The number of uncertainty markers above which output gets a warning.
pub const MARKER_LIMIT: usize = 5;

/// The built-in rules for content that a model produced.
pub const DEFAULT_OUTPUT_PATTERNS: &'static str =
    "# Built-in rules for content that a model produced.\n\
# scope<TAB>pattern<TAB>description<TAB>severity\n\
\n\
# Safety\n\
output\t(?i)how\\s+to\\s+(?:build|make)\\s+(?:a\\s+)?bomb\tBomb-making instructions\tcritical\n\
output\t(?i)\\b(?:synthesi[sz]e|manufacture)\\s+(?:illegal\\s+)?(?:drugs|methamphetamine)\tIllegal drug manufacturing\tcritical\n\
output\t(?i)how\\s+to\\s+hack\\s+into\tHacking instructions\tcritical\n\
output\t(?i)\\b(?:lethal\\s+dose|untraceable\\s+poison)\\b\tDangerous substance guidance\tcritical\n\
\n\
# Markers of doubt\n\
output\t(?i)\\b(?:i\\s+think|i\\s+believe|maybe|possibly|probably|might|could\\s+be|perhaps)\\b\tUncertainty markers\tlow\n\
output\t(?i)\\[citation\\s+needed\\]\tMissing citation marker\tlow\n\
output\t(?i)\\b(?:it\\s+is\\s+rumou?red|some\\s+say|allegedly)\\b\tSpeculative claims\tlow\n\
output\t(?i)\\b(?:some\\s+people|many\\s+experts|studies\\s+show)\\b\tVague attribution\tlow\n";

/// What an output provider is set up with.
#[derive(Debug)]
pub struct OutputGuardrailConfig {
    /// The most bytes that content may have.
    pub max_length_bytes: usize,
    /// Whether the built-in safety rules are run.
    pub check_safety: bool,
    /// Whether uncertainty markers are counted.
    pub check_hallucination: bool,
    /// Whether the format of the output is checked.
    pub check_format: bool,
    /// The quality score below which output gets a warning.
    pub min_quality_score: Score,
    /// Where the user's rules come from, if from anywhere.
    pub custom_patterns_file: Option<String>,
}

impl Clone for OutputGuardrailConfig {
    fn clone(&self) -> (r: Self)
        ensures
            r == *self,
    {
        OutputGuardrailConfig {
            max_length_bytes: self.max_length_bytes,
            check_safety: self.check_safety,
            check_hallucination: self.check_hallucination,
            check_format: self.check_format,
            min_quality_score: self.min_quality_score,
            custom_patterns_file: self.custom_patterns_file.clone(),
        }
    }
}

impl Default for OutputGuardrailConfig {
    fn default() -> (r: Self)
        ensures
            r.max_length_bytes == MAX_OUTPUT_BYTES,
            r.check_safety,
            r.check_hallucination,
            r.check_format,
            r.min_quality_score.millionths == DEFAULT_MIN_QUALITY_MILLIONTHS,
            r.custom_patterns_file is None,
    {
        OutputGuardrailConfig {
            max_length_bytes: MAX_OUTPUT_BYTES,
            check_safety: true,
            check_hallucination: true,
            check_format: true,
            min_quality_score: Score::from_millionths(DEFAULT_MIN_QUALITY_MILLIONTHS),
            custom_patterns_file: None,
        }
    }
}

/// A provider for content that a model produced.
#[derive(Debug)]
pub struct OutputGuardrail {
    pub config: OutputGuardrailConfig,
    /// The built-in rules that apply to output.
    pub default_patterns: Vec<PatternDefinition>,
    /// The user's rules that apply to output.
    pub custom_patterns: Vec<PatternDefinition>,
}

/// Those of the rules that apply to output, in their order.
pub open spec fn for_output(rules: Seq<PatternDefinitionView>) -> Seq<PatternDefinitionView>
    decreases rules.len(),
{
    if rules.len() == 0 {
        Seq::empty()
    } else {
        let before = for_output(rules.drop_last());
        if rules.last().applies_to_output() {
            before.push(rules.last())
        } else {
            before
        }
    }
}

/// Whether a description in lower case names a safety rule.
pub open spec fn names_safety(lower: Seq<char>) -> bool {
    has_substring(lower, "bomb"@) || has_substring(lower, "illegal"@) || has_substring(
        lower,
        "hack"@,
    ) || has_substring(lower, "dangerous"@)
}

/// Whether a description in lower case names a marker of doubt.
pub open spec fn names_marker(lower: Seq<char>) -> bool {
    has_substring(lower, "uncertainty"@) || has_substring(lower, "citation"@) || has_substring(
        lower,
        "speculative"@,
    ) || has_substring(lower, "vague"@)
}

/// Whether a built-in rule is a safety rule, by its description.
pub open spec fn is_safety(description: Seq<char>) -> bool {
    names_safety(unicode_lowercase(description))
}

/// Whether a built-in rule marks doubt, by its description.
pub open spec fn is_marker(description: Seq<char>) -> bool {
    names_marker(unicode_lowercase(description))
}

/// Whether a built-in rule is left out altogether: a safety rule where
/// those are not checked.
pub open spec fn left_out(check_safety: bool, description: Seq<char>) -> bool {
    !check_safety && is_safety(description)
}

/// For each built-in rule, whether its match is reported: it is not left
/// out and marks no doubt.
pub open spec fn output_active(check_safety: bool, rules: Seq<PatternDefinitionView>) -> Seq<bool> {
    Seq::new(
        rules.len(),
        |i: int|
            !left_out(check_safety, rules[i].description) && !is_marker(rules[i].description),
    )
}

/// The number of matches, in `content`, of the first `upto` built-in rules
/// that mark doubt and are not left out; nothing is counted where markers
/// are not checked.
pub open spec fn marker_count(
    config: OutputGuardrailConfig,
    rules: Seq<PatternDefinitionView>,
    content: Seq<char>,
    upto: nat,
) -> nat
    decreases upto,
{
    if upto == 0 {
        0
    } else {
        let k = (upto - 1) as int;
        let before = marker_count(config, rules, content, k as nat);
        if config.check_hallucination && !left_out(config.check_safety, rules[k].description)
            && is_marker(rules[k].description) {
            before + regex_match_count(rules[k].regex, content) as nat
        } else {
            before
        }
    }
}

/// The quality score of content of `length` bytes with `markers` markers of
/// doubt: 10, less 0.2 for each marker, plus 0.5 for content of more than
/// 100 bytes, and kept between 0 and 10.
pub open spec fn quality_of(length: usize, markers: nat) -> Score {
    let raw: nat = if length > 100 {
        10_500_000
    } else {
        10_000_000
    };
    let penalty = 200_000 * markers;
    Score {
        millionths: if penalty >= raw {
            0
        } else if raw - penalty > 10_000_000 {
            10_000_000
        } else {
            (raw - penalty) as u64
        },
    }
}

pub open spec fn output_too_long(length: usize) -> ViolationView {
    ViolationView {
        rule: "MAX_LENGTH"@,
        severity: Severity::Critical,
        message: "Response exceeds max length ("@ + decimal(length as nat) + " bytes)"@,
        location: None,
    }
}

pub open spec fn many_markers(markers: usize) -> ViolationView {
    ViolationView {
        rule: "HALLUCINATION"@,
        severity: Severity::Medium,
        message: "High uncertainty markers: "@ + decimal(markers as nat),
        location: None,
    }
}

pub open spec fn low_quality(quality: Score) -> ViolationView {
    ViolationView {
        rule: "QUALITY"@,
        severity: Severity::Low,
        message: "Quality score below threshold: "@ + one_place(quality) + "/10"@,
        location: None,
    }
}

/// The result for content of `length` bytes with `markers` markers of
/// doubt, in which the built-in rules match as `default_matches` says and
/// the user's rules as `custom_matches` says. Only a critical match is a
/// violation. The warnings are those of the built-in rules, then the one on
/// markers, then those of the user's rules, then the one on quality.
pub open spec fn output_verdict(
    config: OutputGuardrailConfig,
    defaults: Seq<PatternDefinitionView>,
    customs: Seq<PatternDefinitionView>,
    length: usize,
    markers: usize,
    default_matches: Seq<Option<usize>>,
    custom_matches: Seq<Option<usize>>,
) -> GuardrailResultView {
    let built_in = reported(
        FindingStyle::Safety,
        Severity::Critical,
        defaults,
        none_personal(defaults.len()),
        default_matches,
        defaults.len(),
    );
    let users = reported(
        FindingStyle::Custom,
        Severity::Critical,
        customs,
        none_personal(customs.len()),
        custom_matches,
        customs.len(),
    );
    let quality = quality_of(length, markers as nat);
    let violations = (if length > config.max_length_bytes {
        seq![output_too_long(length)]
    } else {
        Seq::empty()
    }) + built_in.0 + users.0;
    GuardrailResultView {
        passed: violations.len() == 0,
        violations,
        warnings: built_in.1 + (if config.check_hallucination && markers > MARKER_LIMIT {
            seq![many_markers(markers)]
        } else {
            Seq::empty()
        }) + users.1 + (if quality.millionths < config.min_quality_score.millionths {
            seq![low_quality(quality)]
        } else {
            Seq::empty()
        }),
        quality_score: Some(quality),
        provider_specific: None,
    }
}

/// The count of markers as a machine number: the count itself, or the
/// largest machine number where the count is above it.
pub open spec fn capped(count: nat) -> usize {
    if count > usize::MAX {
        usize::MAX
    } else {
        count as usize
    }
}

/// Keeps the rules that apply to output.
pub fn retain_for_output(rules: &Vec<PatternDefinition>) -> (r: Vec<PatternDefinition>)
    ensures
        r.deep_view() == for_output(rules.deep_view()),
{
    let mut r: Vec<PatternDefinition> = Vec::new();
    let mut i: usize = 0;
    let ghost all = rules.deep_view();
    assert(all.take(0) =~= Seq::<PatternDefinitionView>::empty());
    assert(r.deep_view() =~= Seq::<PatternDefinitionView>::empty());
    while i < rules.len()
        invariant
            i <= rules.len(),
            all == rules.deep_view(),
            r.deep_view() == for_output(all.take(i as int)),
        decreases rules.len() - i,
    {
        assert(all.take(i + 1).drop_last() =~= all.take(i as int));
        let ghost before = r.deep_view();
        if rules[i].applies_to_output() {
            r.push(rules[i].clone());
            assert(r.deep_view() =~= before.push(rules@[i as int].deep_view()));
        }
        i += 1;
    }
    assert(all.take(rules.len() as int) =~= all);
    r
}

impl DescriptionWords {
    /// Whether the description names a safety rule.
    pub fn names_safety(&self) -> (r: bool)
        ensures
            r == names_safety(self.lower@),
    {
        self.has("bomb") || self.has("illegal") || self.has("hack") || self.has("dangerous")
    }

    /// Whether the description names a marker of doubt.
    pub fn names_marker(&self) -> (r: bool)
        ensures
            r == names_marker(self.lower@),
    {
        self.has("uncertainty") || self.has("citation") || self.has("speculative") || self.has(
            "vague",
        )
    }
}

/// Whether a built-in rule is a safety rule, by its description.
pub fn describes_safety(description: &str) -> (r: bool)
    ensures
        r == is_safety(description@),
{
    description_words(description).names_safety()
}

/// Whether a built-in rule marks doubt, by its description.
pub fn describes_marker(description: &str) -> (r: bool)
    ensures
        r == is_marker(description@),
{
    description_words(description).names_marker()
}

impl OutputGuardrail {
    /// The result of checking `content`.
    pub open spec fn verdict(&self, content: Seq<char>) -> GuardrailResultView {
        output_verdict(
            self.config,
            self.default_patterns.deep_view(),
            self.custom_patterns.deep_view(),
            byte_length(content),
            capped(
                marker_count(
                    self.config,
                    self.default_patterns.deep_view(),
                    content,
                    self.default_patterns.len() as nat,
                ),
            ),
            matches_of(
                self.default_patterns.deep_view(),
                output_active(self.config.check_safety, self.default_patterns.deep_view()),
                content,
            ),
            matches_of(
                self.custom_patterns.deep_view(),
                Seq::new(self.custom_patterns.len() as nat, |i: int| true),
                content,
            ),
        )
    }

    /// Sets the provider up with the built-in rules and with the rules of
    /// `source`, the text of the configured rule file; of both, those that
    /// apply to output. A source that does not read as a rule file gives no
    /// rule, and the built-in rules stay in use.
    pub fn new(config: OutputGuardrailConfig, source: Option<&str>) -> (r: Self)
        ensures
            r.config == config,
            r.default_patterns.deep_view() == for_output(
                loaded_patterns(Some(DEFAULT_OUTPUT_PATTERNS@)),
            ),
            r.custom_patterns.deep_view() == for_output(loaded_patterns(source.deep_view())),
    {
        let built_in = match parse_patterns(DEFAULT_OUTPUT_PATTERNS) {
            Ok(patterns) => patterns,
            Err(_) => Vec::new(),
        };
        assert(built_in.deep_view() =~= loaded_patterns(Some(DEFAULT_OUTPUT_PATTERNS@)));
        let users = match source {
            None => Vec::new(),
            Some(text) => match parse_patterns(text) {
                Ok(patterns) => patterns,
                Err(_) => Vec::new(),
            },
        };
        assert(users.deep_view() =~= loaded_patterns(source.deep_view()));
        OutputGuardrail {
            config,
            default_patterns: retain_for_output(&built_in),
            custom_patterns: retain_for_output(&users),
        }
    }

    /// The name of this kind of provider.
    pub fn name(&self) -> (r: &'static str)
        ensures
            r@ == "RegexOutputGuardrail"@,
    {
        "RegexOutputGuardrail"
    }

    /// The quality score of content of `length` bytes with `markers`
    /// markers of doubt.
    pub fn calculate_quality_score(length: usize, markers: usize) -> (r: Score)
        ensures
            r == quality_of(length, markers as nat),
            r.millionths <= 10_000_000,
    {
        let raw: u64 = if length > 100 {
            10_500_000
        } else {
            10_000_000
        };
        if markers > 52 {
            Score::from_millionths(0)
        } else {
            let penalty: u64 = 200_000 * (markers as u64);
            if penalty >= raw {
                Score::from_millionths(0)
            } else if raw - penalty > 10_000_000 {
                Score::from_millionths(10_000_000)
            } else {
                Score::from_millionths(raw - penalty)
            }
        }
    }

    /// For each built-in rule, whether its match is reported.
    pub fn active_flags(&self) -> (r: Vec<bool>)
        ensures
            r@ == output_active(self.config.check_safety, self.default_patterns.deep_view()),
    {
        let ghost expected = output_active(
            self.config.check_safety,
            self.default_patterns.deep_view(),
        );
        let mut r: Vec<bool> = Vec::new();
        let mut i: usize = 0;
        while i < self.default_patterns.len()
            invariant
                i <= self.default_patterns.len(),
                expected == output_active(
                    self.config.check_safety,
                    self.default_patterns.deep_view(),
                ),
                r@ == expected.take(i as int),
            decreases self.default_patterns.len() - i,
        {
            let description = self.default_patterns[i].description.as_str();
            let out = !self.config.check_safety && describes_safety(description);
            r.push(!out && !describes_marker(description));
            i += 1;
            assert(r@ =~= expected.take(i as int));
        }
        assert(expected.take(self.default_patterns.len() as int) =~= expected);
        r
    }

    /// The number of markers of doubt in `content`.
    pub fn count_markers(&self, content: &str) -> (r: usize)
        ensures
            r == capped(
                marker_count(
                    self.config,
                    self.default_patterns.deep_view(),
                    content@,
                    self.default_patterns.len() as nat,
                ),
            ),
    {
        let mut total: usize = 0;
        let mut i: usize = 0;
        while i < self.default_patterns.len()
            invariant
                i <= self.default_patterns.len(),
                total == capped(
                    marker_count(
                        self.config,
                        self.default_patterns.deep_view(),
                        content@,
                        i as nat,
                    ),
                ),
            decreases self.default_patterns.len() - i,
        {
            let rule = &self.default_patterns[i];
            let description = rule.description.as_str();
            if self.config.check_hallucination && !(!self.config.check_safety && describes_safety(
                description,
            )) && describes_marker(description) {
                let found = rule.regex.count_matches(content);
                total = if found > usize::MAX - total {
                    usize::MAX
                } else {
                    total + found
                };
            }
            i += 1;
        }
        total
    }

    /// Where each built-in rule whose match is reported matches in
    /// `content`.
    pub fn default_matches(&self, content: &str) -> (r: Vec<Option<usize>>)
        ensures
            r@ == matches_of(
                self.default_patterns.deep_view(),
                output_active(self.config.check_safety, self.default_patterns.deep_view()),
                content@,
            ),
    {
        let active = self.active_flags();
        find_matches(&self.default_patterns, &active, content)
    }

    /// Where each of the user's rules matches in `content`.
    pub fn custom_matches(&self, content: &str) -> (r: Vec<Option<usize>>)
        ensures
            r@ == matches_of(
                self.custom_patterns.deep_view(),
                Seq::new(self.custom_patterns.len() as nat, |i: int| true),
                content@,
            ),
    {
        let active = constant_flags(self.custom_patterns.len(), true);
        find_matches(&self.custom_patterns, &active, content)
    }

    /// The result for content of `length` bytes with `markers` markers of
    /// doubt in which the rules match as given. A result that passes holds
    /// no violation; content within the ceiling in which no rule matches
    /// passes.
    pub fn validate_matches(
        &self,
        length: usize,
        markers: usize,
        default_matches: &Vec<Option<usize>>,
        custom_matches: &Vec<Option<usize>>,
    ) -> (r: GuardrailResult)
        requires
            default_matches.len() == self.default_patterns.len(),
            custom_matches.len() == self.custom_patterns.len(),
        ensures
            r.deep_view() == output_verdict(
                self.config,
                self.default_patterns.deep_view(),
                self.custom_patterns.deep_view(),
                length,
                markers,
                default_matches@,
                custom_matches@,
            ),
            r.deep_view().consistent(),
            length <= self.config.max_length_bytes && (forall|i: int|
                0 <= i < default_matches.len() ==> default_matches@[i] is None) && (forall|i: int|
                0 <= i < custom_matches.len() ==> custom_matches@[i] is None) ==> r.passed
                && r.violations.len() == 0 && (markers <= MARKER_LIMIT && quality_of(
                length,
                markers as nat,
            ).millionths >= self.config.min_quality_score.millionths ==> r.warnings.len() == 0),
    {
        let mut violations: Vec<Violation> = Vec::new();
        let mut warnings: Vec<Violation> = Vec::new();
        if length > self.config.max_length_bytes {
            let mut message = String::from_str("Response exceeds max length (");
            append_decimal(&mut message, length as u64);
            message.append(" bytes)");
            violations.push(
                Violation {
                    rule: String::from_str("MAX_LENGTH"),
                    severity: Severity::Critical,
                    message,
                    location: None,
                },
            );
        }
        assert(warnings.deep_view() =~= Seq::<ViolationView>::empty());
        let plain = constant_flags(self.default_patterns.len(), false);
        report(
            FindingStyle::Safety,
            Severity::Critical,
            &self.default_patterns,
            &plain,
            default_matches,
            &mut violations,
            &mut warnings,
        );
        if self.config.check_hallucination && markers > MARKER_LIMIT {
            let ghost before = warnings.deep_view();
            let mut message = String::from_str("High uncertainty markers: ");
            append_decimal(&mut message, markers as u64);
            let warning = Violation {
                rule: String::from_str("HALLUCINATION"),
                severity: Severity::Medium,
                message,
                location: None,
            };
            assert(warning.deep_view() == many_markers(markers));
            warnings.push(warning);
            assert(warnings.deep_view() =~= before + seq![many_markers(markers)]);
        }
        let users_plain = constant_flags(self.custom_patterns.len(), false);
        report(
            FindingStyle::Custom,
            Severity::Critical,
            &self.custom_patterns,
            &users_plain,
            custom_matches,
            &mut violations,
            &mut warnings,
        );
        let quality = Self::calculate_quality_score(length, markers);
        let ghost third = warnings.deep_view();
        if quality.below(self.config.min_quality_score) {
            let mut message = String::from_str("Quality score below threshold: ");
            quality.append_one_place(&mut message);
            message.append("/10");
            let warning = Violation {
                rule: String::from_str("QUALITY"),
                severity: Severity::Low,
                message,
                location: None,
            };
            assert(warning.deep_view() == low_quality(quality));
            warnings.push(warning);
            assert(warnings.deep_view() =~= third + seq![low_quality(quality)]);
        }
        let passed = violations.len() == 0;
        proof {
            let defaults = self.default_patterns.deep_view();
            let customs = self.custom_patterns.deep_view();
            let built_in = reported(
                FindingStyle::Safety,
                Severity::Critical,
                defaults,
                none_personal(defaults.len()),
                default_matches@,
                defaults.len(),
            );
            let users = reported(
                FindingStyle::Custom,
                Severity::Critical,
                customs,
                none_personal(customs.len()),
                custom_matches@,
                customs.len(),
            );
            let expected = output_verdict(
                self.config,
                defaults,
                customs,
                length,
                markers,
                default_matches@,
                custom_matches@,
            );
            assert(violations.deep_view() =~= expected.violations);
            assert(warnings.deep_view() =~= expected.warnings);
            if (forall|i: int| 0 <= i < default_matches.len() ==> default_matches@[i] is None) && (
            forall|i: int| 0 <= i < custom_matches.len() ==> custom_matches@[i] is None) {
                lemma_no_match_no_finding(
                    FindingStyle::Safety,
                    Severity::Critical,
                    defaults,
                    none_personal(defaults.len()),
                    default_matches@,
                    defaults.len(),
                );
                lemma_no_match_no_finding(
                    FindingStyle::Custom,
                    Severity::Critical,
                    customs,
                    none_personal(customs.len()),
                    custom_matches@,
                    customs.len(),
                );
                assert(violations.deep_view().len() == violations.len());
                assert(warnings.deep_view().len() == warnings.len());
            }
        }
        GuardrailResult::with_quality_score(passed, violations, warnings, quality)
    }

    /// Checks `content`: its length, the built-in rules, the markers of
    /// doubt, the user's rules and the quality score.
    pub fn validate(&self, content: &str) -> (r: GuardrailResult)
        ensures
            r.deep_view() == self.verdict(content@),
            r.deep_view().consistent(),
    {
        let markers = self.count_markers(content);
        let default_matches = self.default_matches(content);
        let custom_matches = self.custom_matches(content);
        self.validate_matches(content.len(), markers, &default_matches, &custom_matches)
    }
}

} // verus!
