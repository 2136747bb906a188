//! The pattern-match provider for content on its way to a model: a length
//! ceiling, a token estimate, the built-in rules and the user's rules.

use vstd::prelude::*;
use vstd::string::StringExecFns;
use crate::matcher::regex_first_match;
use crate::patterns::{parse_patterns, parsed_patterns, PatternDefinition, PatternDefinitionView};
use crate::provider::{GuardrailResult, GuardrailResultView, Severity, Violation, ViolationView};
use crate::regex_guardrail::{constant_flags, loaded_patterns, none_personal};
use crate::scan::{
    find_matches, lemma_no_match_no_finding, matches_of, report, reported, FindingStyle,
};
use crate::text::{
    append_decimal, byte_length, contains_chars, decimal, has_substring, to_chars, to_lowercase,
    unicode_lowercase,
};

verus! {

/// The ceiling on the length of input, where none is configured: 1 MiB.
pub const MAX_INPUT_BYTES: usize = 1_048_576;

/// The ceiling on the token estimate of input, where none is configured.
pub const MAX_TOKENS_ESTIMATED: usize = 200_000;

/// The built-in rules for content on its way to a model.
pub const DEFAULT_INPUT_PATTERNS: &'static str =
    "# Built-in rules for content on its way to a model.\n\
# scope<TAB>pattern<TAB>description<TAB>severity\n\
\n\
# Personal data\n\
input\t\\b\\d{3}-\\d{2}-\\d{4}\\b\tSSN pattern\tcritical\n\
input\t\\b(?:\\d{4}[- ]?){3}\\d{4}\\b\tCredit card number\tcritical\n\
input\t\\b[A-Za-z0-9._%+-]+@[A-Za-z0-9.-]+\\.[A-Za-z]{2,}\\b\tEmail address\tmedium\n\
input\t\\(?\\b\\d{3}\\)?[-. ]\\d{3}[-. ]\\d{4}\\b\tPhone number\tmedium\n\
\n\
# Filtered content\n\
input\t(?i)ignore\\s+(?:all\\s+)?(?:previous|prior|above)\\s+instructions\tPrompt injection attempt\tcritical\n\
input\t(?i)\\b(?:union\\s+select|drop\\s+table|insert\\s+into|delete\\s+from)\\b\tSQL injection pattern\tcritical\n\
input\t(?i)(?:;|\\||&&)\\s*(?:rm\\s+-rf|cat\\s+/etc/passwd|wget\\s|curl\\s)\tShell injection pattern\tcritical\n";

/// What an input provider is set up with.
#[derive(Debug)]
pub struct InputGuardrailConfig {
    /// The most bytes that content may have.
    pub max_length_bytes: usize,
    /// The most tokens that content may be estimated at.
    pub max_tokens_estimated: usize,
    /// Whether the built-in rules for personal data are run.
    pub check_pii: bool,
    /// Whether the built-in rules for filtered content are run.
    pub check_content_filters: bool,
    /// The severity from which on a match is a violation, not a warning.
    pub severity_threshold: Severity,
    /// Where the user's rules come from, if from anywhere.
    pub custom_patterns_file: Option<String>,
}

impl Clone for InputGuardrailConfig {
    fn clone(&self) -> (r: Self)
        ensures
            r == *self,
    {
        InputGuardrailConfig {
            max_length_bytes: self.max_length_bytes,
            max_tokens_estimated: self.max_tokens_estimated,
            check_pii: self.check_pii,
            check_content_filters: self.check_content_filters,
            severity_threshold: self.severity_threshold,
            custom_patterns_file: self.custom_patterns_file.clone(),
        }
    }
}

impl Default for InputGuardrailConfig {
    fn default() -> (r: Self)
        ensures
            r.max_length_bytes == MAX_INPUT_BYTES,
            r.max_tokens_estimated == MAX_TOKENS_ESTIMATED,
            r.check_pii,
            r.check_content_filters,
            r.severity_threshold == Severity::Critical,
            r.custom_patterns_file is None,
    {
        InputGuardrailConfig {
            max_length_bytes: MAX_INPUT_BYTES,
            max_tokens_estimated: MAX_TOKENS_ESTIMATED,
            check_pii: true,
            check_content_filters: true,
            severity_threshold: Severity::Critical,
            custom_patterns_file: None,
        }
    }
}

/// A provider for content on its way to a model.
#[derive(Debug)]
pub struct InputGuardrail {
    pub config: InputGuardrailConfig,
    /// The built-in rules that apply to input.
    pub default_patterns: Vec<PatternDefinition>,
    /// The user's rules that apply to input.
    pub custom_patterns: Vec<PatternDefinition>,
}

/// Those of the rules that apply to input, in their order.
pub open spec fn for_input(rules: Seq<PatternDefinitionView>) -> Seq<PatternDefinitionView>
    decreases rules.len(),
{
    if rules.len() == 0 {
        Seq::empty()
    } else {
        let before = for_input(rules.drop_last());
        if rules.last().applies_to_input() {
            before.push(rules.last())
        } else {
            before
        }
    }
}

/// Whether a description in lower case names personal data.
pub open spec fn names_personal_data(lower: Seq<char>) -> bool {
    has_substring(lower, "ssn"@) || has_substring(lower, "credit"@) || has_substring(
        lower,
        "card"@,
    ) || has_substring(lower, "email"@) || has_substring(lower, "phone"@)
}

/// Whether a description in lower case names a content filter.
pub open spec fn names_content_filter(lower: Seq<char>) -> bool {
    has_substring(lower, "injection"@) || has_substring(lower, "sql"@) || has_substring(
        lower,
        "shell"@,
    )
}

/// Whether a built-in rule is about personal data, by its description.
pub open spec fn is_personal(description: Seq<char>) -> bool {
    names_personal_data(unicode_lowercase(description))
}

/// Whether a built-in rule is a content filter, by its description.
pub open spec fn is_content_filter(description: Seq<char>) -> bool {
    names_content_filter(unicode_lowercase(description))
}

/// For each rule, whether it is about personal data.
pub open spec fn personal_flags(rules: Seq<PatternDefinitionView>) -> Seq<bool> {
    Seq::new(rules.len(), |i: int| is_personal(rules[i].description))
}

/// For each built-in rule, whether it is run: a rule about personal data
/// only where those are checked, a content filter only where those are.
pub open spec fn input_active(
    check_pii: bool,
    check_content_filters: bool,
    rules: Seq<PatternDefinitionView>,
) -> Seq<bool> {
    Seq::new(
        rules.len(),
        |i: int|
            !((!check_pii && is_personal(rules[i].description)) || (!check_content_filters
                && is_content_filter(rules[i].description))),
    )
}

/// The number of tokens that content of `length` bytes is estimated at.
pub open spec fn estimated_tokens(length: usize) -> usize {
    length / 4
}

pub open spec fn input_too_long(length: usize, limit: usize) -> ViolationView {
    ViolationView {
        rule: "MAX_LENGTH"@,
        severity: Severity::Critical,
        message: "Input exceeds max length ("@ + decimal(length as nat) + " > "@ + decimal(
            limit as nat,
        ) + " bytes)"@,
        location: None,
    }
}

pub open spec fn too_many_tokens(estimate: usize, limit: usize) -> ViolationView {
    ViolationView {
        rule: "MAX_TOKENS"@,
        severity: Severity::Critical,
        message: "Estimated tokens exceed limit ("@ + decimal(estimate as nat) + " > "@ + decimal(
            limit as nat,
        ) + ")"@,
        location: None,
    }
}

/// The violations that the size of the content gives rise to.
pub open spec fn size_findings(config: InputGuardrailConfig, length: usize) -> Seq<ViolationView> {
    (if length > config.max_length_bytes {
        seq![input_too_long(length, config.max_length_bytes)]
    } else {
        Seq::empty()
    }) + (if estimated_tokens(length) > config.max_tokens_estimated {
        seq![too_many_tokens(estimated_tokens(length), config.max_tokens_estimated)]
    } else {
        Seq::empty()
    })
}

/// The result for content of `length` bytes in which the built-in rules
/// match as `default_matches` says and the user's rules as `custom_matches`
/// says. The violations are those of the size, then those of the built-in
/// rules, then those of the user's rules.
pub open spec fn input_verdict(
    config: InputGuardrailConfig,
    defaults: Seq<PatternDefinitionView>,
    customs: Seq<PatternDefinitionView>,
    length: usize,
    default_matches: Seq<Option<usize>>,
    custom_matches: Seq<Option<usize>>,
) -> GuardrailResultView {
    let built_in = reported(
        FindingStyle::Detected,
        config.severity_threshold,
        defaults,
        personal_flags(defaults),
        default_matches,
        defaults.len(),
    );
    let users = reported(
        FindingStyle::Custom,
        config.severity_threshold,
        customs,
        none_personal(customs.len()),
        custom_matches,
        customs.len(),
    );
    let violations = size_findings(config, length) + built_in.0 + users.0;
    GuardrailResultView {
        passed: violations.len() == 0,
        violations,
        warnings: built_in.1 + users.1,
        quality_score: None,
        provider_specific: None,
    }
}

/// Keeps the rules that apply to input.
pub fn retain_for_input(rules: &Vec<PatternDefinition>) -> (r: Vec<PatternDefinition>)
    ensures
        r.deep_view() == for_input(rules.deep_view()),
{
    let mut r: Vec<PatternDefinition> = Vec::new();
    let mut i: usize = 0;
    let ghost all = rules.deep_view();
    assert(all.take(0) =~= Seq::<PatternDefinitionView>::empty());
    assert(r.deep_view() =~= Seq::<PatternDefinitionView>::empty());
    while i < rules.len()
        invariant
            i <= rules.len(),
            all == rules.deep_view(),
            r.deep_view() == for_input(all.take(i as int)),
        decreases rules.len() - i,
    {
        assert(all.take(i + 1).drop_last() =~= all.take(i as int));
        let ghost before = r.deep_view();
        if rules[i].applies_to_input() {
            r.push(rules[i].clone());
            assert(r.deep_view() =~= before.push(rules@[i as int].deep_view()));
        }
        i += 1;
    }
    assert(all.take(rules.len() as int) =~= all);
    r
}

/// A description in lower case, to look for words in.
pub struct DescriptionWords {
    pub lower: Vec<char>,
}

impl DescriptionWords {
    /// Whether `word` stands in the description.
    pub fn has(&self, word: &str) -> (r: bool)
        ensures
            r == has_substring(self.lower@, word@),
    {
        contains_chars(&self.lower, &to_chars(word))
    }
}

impl DescriptionWords {
    /// Whether the description names personal data.
    pub fn names_personal_data(&self) -> (r: bool)
        ensures
            r == names_personal_data(self.lower@),
    {
        self.has("ssn") || self.has("credit") || self.has("card") || self.has("email") || self.has(
            "phone",
        )
    }

    /// Whether the description names a content filter.
    pub fn names_content_filter(&self) -> (r: bool)
        ensures
            r == names_content_filter(self.lower@),
    {
        self.has("injection") || self.has("sql") || self.has("shell")
    }
}

/// The description in lower case, to look for words in.
pub fn description_words(description: &str) -> (r: DescriptionWords)
    ensures
        r.lower@ == unicode_lowercase(description@),
{
    let lower = to_lowercase(description);
    DescriptionWords { lower: to_chars(lower.as_str()) }
}

/// Whether a built-in rule is about personal data, by its description.
pub fn describes_personal_data(description: &str) -> (r: bool)
    ensures
        r == is_personal(description@),
{
    description_words(description).names_personal_data()
}

/// Whether a built-in rule is a content filter, by its description.
pub fn describes_content_filter(description: &str) -> (r: bool)
    ensures
        r == is_content_filter(description@),
{
    description_words(description).names_content_filter()
}

impl InputGuardrail {
    /// The result of checking `content`.
    pub open spec fn verdict(&self, content: Seq<char>) -> GuardrailResultView {
        input_verdict(
            self.config,
            self.default_patterns.deep_view(),
            self.custom_patterns.deep_view(),
            byte_length(content),
            matches_of(
                self.default_patterns.deep_view(),
                input_active(
                    self.config.check_pii,
                    self.config.check_content_filters,
                    self.default_patterns.deep_view(),
                ),
                content,
            ),
            matches_of(
                self.custom_patterns.deep_view(),
                Seq::new(self.custom_patterns.len() as nat, |i: int| true),
                content,
            ),
        )
    }

    /// Sets the provider up with the built-in rules and with the rules of
    /// `source`, the text of the configured rule file; of both, those that
    /// apply to input. A source that does not read as a rule file gives no
    /// rule, and the built-in rules stay in use.
    pub fn new(config: InputGuardrailConfig, source: Option<&str>) -> (r: Self)
        ensures
            r.config == config,
            r.default_patterns.deep_view() == for_input(
                loaded_patterns(Some(DEFAULT_INPUT_PATTERNS@)),
            ),
            r.custom_patterns.deep_view() == for_input(loaded_patterns(source.deep_view())),
    {
        let built_in = match parse_patterns(DEFAULT_INPUT_PATTERNS) {
            Ok(patterns) => patterns,
            Err(_) => Vec::new(),
        };
        assert(built_in.deep_view() =~= loaded_patterns(Some(DEFAULT_INPUT_PATTERNS@)));
        let users = match source {
            None => Vec::new(),
            Some(text) => match parse_patterns(text) {
                Ok(patterns) => patterns,
                Err(_) => Vec::new(),
            },
        };
        assert(users.deep_view() =~= loaded_patterns(source.deep_view()));
        InputGuardrail {
            config,
            default_patterns: retain_for_input(&built_in),
            custom_patterns: retain_for_input(&users),
        }
    }

    /// The name of this kind of provider.
    pub fn name(&self) -> (r: &'static str)
        ensures
            r@ == "RegexInputGuardrail"@,
    {
        "RegexInputGuardrail"
    }

    /// For each built-in rule, whether it is about personal data.
    pub fn personal_flags(&self) -> (r: Vec<bool>)
        ensures
            r@ == personal_flags(self.default_patterns.deep_view()),
    {
        let mut r: Vec<bool> = Vec::new();
        let mut i: usize = 0;
        while i < self.default_patterns.len()
            invariant
                i <= self.default_patterns.len(),
                r@ == personal_flags(self.default_patterns.deep_view()).take(i as int),
            decreases self.default_patterns.len() - i,
        {
            r.push(describes_personal_data(self.default_patterns[i].description.as_str()));
            i += 1;
            assert(r@ =~= personal_flags(self.default_patterns.deep_view()).take(i as int));
        }
        assert(personal_flags(self.default_patterns.deep_view()).take(
            self.default_patterns.len() as int,
        ) =~= personal_flags(self.default_patterns.deep_view()));
        r
    }

    /// For each built-in rule, whether it is run under this configuration.
    pub fn active_flags(&self) -> (r: Vec<bool>)
        ensures
            r@ == input_active(
                self.config.check_pii,
                self.config.check_content_filters,
                self.default_patterns.deep_view(),
            ),
    {
        let ghost expected = input_active(
            self.config.check_pii,
            self.config.check_content_filters,
            self.default_patterns.deep_view(),
        );
        let mut r: Vec<bool> = Vec::new();
        let mut i: usize = 0;
        while i < self.default_patterns.len()
            invariant
                i <= self.default_patterns.len(),
                expected == input_active(
                    self.config.check_pii,
                    self.config.check_content_filters,
                    self.default_patterns.deep_view(),
                ),
                r@ == expected.take(i as int),
            decreases self.default_patterns.len() - i,
        {
            let description = self.default_patterns[i].description.as_str();
            let skipped = (!self.config.check_pii && describes_personal_data(description)) || (
            !self.config.check_content_filters && describes_content_filter(description));
            r.push(!skipped);
            i += 1;
            assert(r@ =~= expected.take(i as int));
        }
        assert(expected.take(self.default_patterns.len() as int) =~= expected);
        r
    }

    /// Where each built-in rule that is run matches in `content`.
    pub fn default_matches(&self, content: &str) -> (r: Vec<Option<usize>>)
        ensures
            r@ == matches_of(
                self.default_patterns.deep_view(),
                input_active(
                    self.config.check_pii,
                    self.config.check_content_filters,
                    self.default_patterns.deep_view(),
                ),
                content@,
            ),
    {
        let active = self.active_flags();
        find_matches(&self.default_patterns, &active, content)
    }

    /// Where each of the user's rules matches in `content`.
    pub fn custom_matches(&self, content: &str) -> (r: Vec<Option<usize>>)
        ensures
            r@ == matches_of(
                self.custom_patterns.deep_view(),
                Seq::new(self.custom_patterns.len() as nat, |i: int| true),
                content@,
            ),
    {
        let active = constant_flags(self.custom_patterns.len(), true);
        find_matches(&self.custom_patterns, &active, content)
    }

    /// The result for content of `length` bytes in which the rules match as
    /// given. Content within both ceilings in which no rule matches passes,
    /// with nothing reported.
    pub fn validate_matches(
        &self,
        length: usize,
        default_matches: &Vec<Option<usize>>,
        custom_matches: &Vec<Option<usize>>,
    ) -> (r: GuardrailResult)
        requires
            default_matches.len() == self.default_patterns.len(),
            custom_matches.len() == self.custom_patterns.len(),
        ensures
            r.deep_view() == input_verdict(
                self.config,
                self.default_patterns.deep_view(),
                self.custom_patterns.deep_view(),
                length,
                default_matches@,
                custom_matches@,
            ),
            r.deep_view().consistent(),
            length <= self.config.max_length_bytes && estimated_tokens(length)
                <= self.config.max_tokens_estimated && (forall|i: int|
                0 <= i < default_matches.len() ==> default_matches@[i] is None) && (forall|i: int|
                0 <= i < custom_matches.len() ==> custom_matches@[i] is None) ==> r.deep_view()
                == GuardrailResultView::clean(),
    {
        let mut violations: Vec<Violation> = Vec::new();
        let mut warnings: Vec<Violation> = Vec::new();
        let limit = self.config.max_length_bytes;
        if length > limit {
            let mut message = String::from_str("Input exceeds max length (");
            append_decimal(&mut message, length as u64);
            message.append(" > ");
            append_decimal(&mut message, limit as u64);
            message.append(" bytes)");
            violations.push(
                Violation {
                    rule: String::from_str("MAX_LENGTH"),
                    severity: Severity::Critical,
                    message,
                    location: None,
                },
            );
        }
        let estimate = length / 4;
        let token_limit = self.config.max_tokens_estimated;
        if estimate > token_limit {
            let mut message = String::from_str("Estimated tokens exceed limit (");
            append_decimal(&mut message, estimate as u64);
            message.append(" > ");
            append_decimal(&mut message, token_limit as u64);
            message.append(")");
            violations.push(
                Violation {
                    rule: String::from_str("MAX_TOKENS"),
                    severity: Severity::Critical,
                    message,
                    location: None,
                },
            );
        }
        assert(violations.deep_view() =~= size_findings(self.config, length));
        assert(warnings.deep_view() =~= Seq::<ViolationView>::empty());
        let personal = self.personal_flags();
        report(
            FindingStyle::Detected,
            self.config.severity_threshold,
            &self.default_patterns,
            &personal,
            default_matches,
            &mut violations,
            &mut warnings,
        );
        let plain = constant_flags(self.custom_patterns.len(), false);
        report(
            FindingStyle::Custom,
            self.config.severity_threshold,
            &self.custom_patterns,
            &plain,
            custom_matches,
            &mut violations,
            &mut warnings,
        );
        let passed = violations.len() == 0;
        proof {
            let defaults = self.default_patterns.deep_view();
            let customs = self.custom_patterns.deep_view();
            let built_in = reported(
                FindingStyle::Detected,
                self.config.severity_threshold,
                defaults,
                personal_flags(defaults),
                default_matches@,
                defaults.len(),
            );
            let users = reported(
                FindingStyle::Custom,
                self.config.severity_threshold,
                customs,
                none_personal(customs.len()),
                custom_matches@,
                customs.len(),
            );
            assert(warnings.deep_view() =~= built_in.1 + users.1);
            assert(violations.deep_view() =~= size_findings(self.config, length) + built_in.0
                + users.0);
            if (forall|i: int| 0 <= i < default_matches.len() ==> default_matches@[i] is None) && (
            forall|i: int| 0 <= i < custom_matches.len() ==> custom_matches@[i] is None) {
                lemma_no_match_no_finding(
                    FindingStyle::Detected,
                    self.config.severity_threshold,
                    defaults,
                    personal_flags(defaults),
                    default_matches@,
                    defaults.len(),
                );
                lemma_no_match_no_finding(
                    FindingStyle::Custom,
                    self.config.severity_threshold,
                    customs,
                    none_personal(customs.len()),
                    custom_matches@,
                    customs.len(),
                );
                if length <= limit && estimate <= token_limit {
                    assert(violations.deep_view() =~= Seq::<ViolationView>::empty());
                    assert(warnings.deep_view() =~= Seq::<ViolationView>::empty());
                }
            }
        }
        GuardrailResult::without_quality_score(passed, violations, warnings)
    }

    /// Checks `content`: its size, then the built-in rules that are run,
    /// then the user's rules, each list in its order. A match of a rule at
    /// or above the severity threshold is a violation, any other match a
    /// warning.
    pub fn validate(&self, content: &str) -> (r: GuardrailResult)
        ensures
            r.deep_view() == self.verdict(content@),
            r.deep_view().consistent(),
            byte_length(content@) <= self.config.max_length_bytes && estimated_tokens(
                byte_length(content@),
            ) <= self.config.max_tokens_estimated && (forall|i: int|
                0 <= i < self.default_patterns.len() ==> regex_first_match(
                    #[trigger] self.default_patterns.deep_view()[i].regex,
                    content@,
                ) is None) && (forall|i: int|
                0 <= i < self.custom_patterns.len() ==> regex_first_match(
                    #[trigger] self.custom_patterns.deep_view()[i].regex,
                    content@,
                ) is None) ==> r.deep_view() == GuardrailResultView::clean(),
    {
        let default_matches = self.default_matches(content);
        let custom_matches = self.custom_matches(content);
        self.validate_matches(content.len(), &default_matches, &custom_matches)
    }
}

} // verus!
