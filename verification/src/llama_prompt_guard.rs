//! The confidence-threshold classifier: a model that labels a prompt as
//! benign or malicious, possibly with a confidence. A malicious label is a
//! violation only at or above the configured threshold.

use vstd::prelude::*;
use vstd::string::{StrSliceExecFns, StringExecFns};
use crate::client::{reply_view, InvokeParams, ModelGateway};
use crate::error::{outcome, CliError, CliErrorView};
use crate::matcher::{regex_fault, regex_group, Matcher};
use crate::provider::{
    GuardrailResult, GuardrailResultView, LlamaPromptGuardResult, LlamaPromptGuardResultView,
    ProviderSpecificResult, ProviderSpecificResultView, Score, Severity, Violation, ViolationView,
};
use crate::score::{score_of, two_places};
use crate::text::{
    contains_chars, from_chars, has_substring, to_chars, to_uppercase, trim_chars, trimmed,
    unicode_uppercase,
};

verus! {

/// The most characters of the content that are put to the classifier.
pub const MAX_PROMPT_CHARS: usize = 2048;

/// How to reach the classifier and from which confidence on a malicious
/// label counts.
#[derive(Debug)]
pub struct LlamaPromptGuardConfig {
    pub api_url: String,
    pub model: String,
    pub timeout_secs: u64,
    /// The confidence from which on a malicious label is a violation.
    pub threshold: Score,
    pub api_key: Option<String>,
    /// The name of the environment variable that holds the credential.
    pub api_key_name: Option<String>,
}

impl Clone for LlamaPromptGuardConfig {
    fn clone(&self) -> (r: Self)
        ensures
            r == *self,
    {
        LlamaPromptGuardConfig {
            api_url: self.api_url.clone(),
            model: self.model.clone(),
            timeout_secs: self.timeout_secs,
            threshold: self.threshold,
            api_key: self.api_key.clone(),
            api_key_name: self.api_key_name.clone(),
        }
    }
}

impl Default for LlamaPromptGuardConfig {
    fn default() -> (r: Self)
        ensures
            r.api_url@ == "http://localhost:11434/api/generate"@,
            r.model@ == "llama-prompt-guard-2-22m"@,
            r.timeout_secs == 10,
            r.threshold.millionths == 500_000,
            r.api_key is None,
            r.api_key_name is None,
    {
        LlamaPromptGuardConfig {
            api_url: String::from_str("http://localhost:11434/api/generate"),
            model: String::from_str("llama-prompt-guard-2-22m"),
            timeout_secs: 10,
            threshold: Score::from_millionths(500_000),
            api_key: None,
            api_key_name: None,
        }
    }
}

/// The label that a normalized answer carries, if any: `Some(true)` for the
/// malicious one, which is looked for first, `Some(false)` for the benign
/// one.
pub open spec fn label_of(normalized: Seq<char>) -> Option<bool> {
    if has_substring(normalized, "MALICIOUS"@) || has_substring(normalized, "LABEL_1"@) {
        Some(true)
    } else if has_substring(normalized, "BENIGN"@) || has_substring(normalized, "LABEL_0"@) {
        Some(false)
    } else {
        None
    }
}

pub open spec fn injection_message(confidence: Score, threshold: Score) -> Seq<char> {
    "Prompt injection or jailbreak attempt detected (confidence: "@ + two_places(confidence)
        + ", threshold: "@ + two_places(threshold) + ")"@
}

pub open spec fn unexpected_fault(response: Seq<char>) -> Seq<char> {
    "Unexpected Prompt Guard response: "@ + response
}

/// What a normalized answer amounts to, given the confidence that was
/// found in it. Without one, a malicious label has confidence 1 and a benign
/// label confidence 0. A benign label passes; a malicious label passes if
/// and only if its confidence is below the threshold.
pub open spec fn label_verdict(
    threshold: Score,
    normalized: Seq<char>,
    found: Option<Score>,
    response: Seq<char>,
) -> Result<GuardrailResultView, CliErrorView> {
    match label_of(normalized) {
        None => Err(CliErrorView::InvalidResponse(unexpected_fault(response))),
        Some(malicious) => {
            let confidence = match found {
                Some(c) => c,
                None => Score { millionths: if malicious { 1_000_000 } else { 0 } },
            };
            let passed = !malicious || confidence.millionths < threshold.millionths;
            Ok(
                GuardrailResultView {
                    passed,
                    violations: if passed {
                        Seq::empty()
                    } else {
                        seq![
                            ViolationView {
                                rule: "PROMPT_INJECTION"@,
                                severity: Severity::Critical,
                                message: injection_message(confidence, threshold),
                                location: None,
                            },
                        ]
                    },
                    warnings: Seq::empty(),
                    quality_score: None,
                    provider_specific: Some(
                        ProviderSpecificResultView::LlamaPromptGuard(
                            LlamaPromptGuardResultView {
                                malicious,
                                confidence,
                                label: if malicious { "MALICIOUS"@ } else { "BENIGN"@ },
                                raw_response: response,
                            },
                        ),
                    ),
                },
            )
        },
    }
}

/// A benign label passes under every threshold and with every confidence,
/// and reports nothing.
pub proof fn lemma_benign_always_passes(
    threshold: Score,
    normalized: Seq<char>,
    found: Option<Score>,
    response: Seq<char>,
)
    requires
        label_of(normalized) == Some(false),
    ensures
        label_verdict(threshold, normalized, found, response) matches Ok(result) && result.passed
            && result.violations.len() == 0 && result.warnings.len() == 0,
{
}

/// A malicious label passes if and only if its confidence is below the
/// threshold; where it does not pass, it is reported as one critical
/// violation.
pub proof fn lemma_malicious_passes_below_threshold(
    threshold: Score,
    normalized: Seq<char>,
    found: Option<Score>,
    response: Seq<char>,
)
    requires
        label_of(normalized) == Some(true),
    ensures
        label_verdict(threshold, normalized, found, response) matches Ok(result) && (result.passed
            <==> (match found {
            Some(c) => c.millionths,
            None => 1_000_000,
        }) < threshold.millionths) && result.consistent() && (!result.passed
            ==> result.violations.len() == 1 && result.violations[0].severity
            == Severity::Critical),
{
}

/// The first of the candidates that is present and writes a score.
pub open spec fn first_score(candidates: Seq<Option<Seq<char>>>) -> Option<Score>
    decreases candidates.len(),
{
    if candidates.len() == 0 {
        None
    } else {
        match candidates[0] {
            Some(text) if score_of(text) is Some => score_of(text),
            _ => first_score(candidates.drop_first()),
        }
    }
}

/// The text that the first group of a pattern captures in `text`; nothing
/// where the pattern does not compile.
pub open spec fn captured(pattern: Seq<char>, text: Seq<char>) -> Option<Seq<char>> {
    if regex_fault(pattern) is Some {
        None
    } else {
        regex_group(pattern, text, 1)
    }
}

/// The confidence that stands in `text`: what follows `confidence`, else
/// what follows `score`, else what stands in round brackets.
pub open spec fn extracted_confidence(text: Seq<char>) -> Option<Score> {
    first_score(
        seq![
            captured("(?i)confidence[:\\s]+([0-9.]+)"@, text),
            captured("(?i)score[:\\s]+([0-9.]+)"@, text),
            captured("\\(([0-9.]+)\\)"@, text),
        ],
    )
}

/// What the raw answer `response` of the classifier amounts to.
pub open spec fn prompt_guard_verdict(threshold: Score, response: Seq<char>) -> Result<
    GuardrailResultView,
    CliErrorView,
> {
    let normalized = unicode_uppercase(trimmed(response));
    label_verdict(threshold, normalized, extracted_confidence(normalized), response)
}

/// The part of the content that is put to the classifier.
pub open spec fn prompt_window(content: Seq<char>) -> Seq<char> {
    if content.len() > MAX_PROMPT_CHARS {
        content.take(MAX_PROMPT_CHARS as int)
    } else {
        content
    }
}

/// The confidence-threshold classifier.
#[derive(Debug)]
pub struct LlamaPromptGuardProvider {
    pub config: LlamaPromptGuardConfig,
}

fn capture(pattern: &str, text: &str) -> (r: Option<String>)
    ensures
        r.deep_view() == captured(pattern@, text@),
{
    match Matcher::new(pattern) {
        Ok(m) => m.group(text, 1),
        Err(_) => None,
    }
}

fn contains_text(hay: &Vec<char>, needle: &str) -> (r: bool)
    ensures
        r == has_substring(hay@, needle@),
{
    contains_chars(hay, &to_chars(needle))
}

impl LlamaPromptGuardProvider {
    pub fn new(config: LlamaPromptGuardConfig) -> (r: Self)
        ensures
            r.config == config,
    {
        LlamaPromptGuardProvider { config }
    }

    /// The name of this kind of provider.
    pub fn name(&self) -> (r: &'static str)
        ensures
            r@ == "LlamaPromptGuard2"@,
    {
        "LlamaPromptGuard2"
    }

    /// What is put to the classifier for `content`: no system prompt, and
    /// as the user prompt the first `MAX_PROMPT_CHARS` characters of the
    /// content, at temperature 0.
    pub fn request<'a>(&'a self, content: &'a str) -> (r: InvokeParams<'a>)
        ensures
            r.model@ == self.config.model@,
            r.system_prompt@ == Seq::<char>::empty(),
            r.user_prompt@ == prompt_window(content@),
            r.temperature.millionths == 0,
            r.max_tokens == Some(50u32),
            r.seed is None,
            r.api_key.deep_view() == self.config.api_key.deep_view(),
            r.timeout_secs == self.config.timeout_secs,
    {
        let window = if content.unicode_len() > MAX_PROMPT_CHARS {
            let w = content.substring_char(0, MAX_PROMPT_CHARS);
            assert(content@.subrange(0, MAX_PROMPT_CHARS as int) =~= content@.take(
                MAX_PROMPT_CHARS as int,
            ));
            w
        } else {
            content
        };
        let system_prompt = "";
        proof {
            reveal_strlit("");
            assert(system_prompt@ =~= Seq::<char>::empty());
        }
        InvokeParams {
            model: self.config.model.as_str(),
            system_prompt,
            user_prompt: window,
            temperature: Score::zero(),
            max_tokens: Some(50),
            seed: None,
            api_key: match &self.config.api_key {
                Some(key) => Some(key.as_str()),
                None => None,
            },
            timeout_secs: self.config.timeout_secs,
        }
    }

    /// What a reply of the model amounts to: a failure of the transport is
    /// handed on as it is, an answer is read.
    pub open spec fn reading(&self, reply: Result<Seq<char>, CliErrorView>) -> Result<
        GuardrailResultView,
        CliErrorView,
    > {
        match reply {
            Err(e) => Err(e),
            Ok(text) => prompt_guard_verdict(self.config.threshold, text),
        }
    }

    /// Turns what came back from the model into a result.
    pub fn interpret(&self, reply: Result<String, CliError>) -> (r: Result<
        GuardrailResult,
        CliError,
    >)
        ensures
            outcome(r) == self.reading(reply_view(reply)),
    {
        match reply {
            Err(e) => Err(e),
            Ok(text) => self.parse_response(text.as_str()),
        }
    }

    /// Puts `content` to the classifier through `gateway` and reads the
    /// reply. Whatever comes back, the result is the reading of it.
    pub fn validate<G: ModelGateway>(&self, content: &str, gateway: &G) -> (r: Result<
        GuardrailResult,
        CliError,
    >)
        ensures
            exists|reply: Result<Seq<char>, CliErrorView>| outcome(r) == #[trigger] self.reading(reply),
    {
        let reply = gateway.invoke(self.config.api_url.as_str(), self.request(content));
        let r = self.interpret(reply);
        assert(outcome(r) == self.reading(reply_view(reply)));
        r
    }

    /// The first of the candidates that is present and writes a score.
    pub fn first_score(candidates: &Vec<Option<String>>) -> (r: Option<Score>)
        ensures
            r == first_score(candidates.deep_view()),
    {
        let mut i: usize = 0;
        let ghost all = candidates.deep_view();
        assert(all.skip(0) =~= all);
        while i < candidates.len()
            invariant
                i <= candidates.len(),
                all == candidates.deep_view(),
                first_score(all) == first_score(all.skip(i as int)),
            decreases candidates.len() - i,
        {
            assert(all.skip(i as int).drop_first() =~= all.skip(i + 1));
            assert(all.skip(i as int)[0] == candidates@[i as int].deep_view());
            match &candidates[i] {
                Some(text) => {
                    let score = Score::parse_decimal(text.as_str());
                    if score.is_some() {
                        return score;
                    }
                },
                None => {},
            }
            i += 1;
        }
        None
    }

    /// Looks for a confidence in `response`: after the word `confidence`,
    /// else after the word `score`, else in round brackets.
    pub fn extract_confidence(&self, response: &str) -> (r: Option<Score>)
        ensures
            r == extracted_confidence(response@),
    {
        let mut candidates: Vec<Option<String>> = Vec::new();
        candidates.push(capture("(?i)confidence[:\\s]+([0-9.]+)", response));
        candidates.push(capture("(?i)score[:\\s]+([0-9.]+)", response));
        candidates.push(capture("\\(([0-9.]+)\\)", response));
        assert(candidates.deep_view() =~= seq![
            captured("(?i)confidence[:\\s]+([0-9.]+)"@, response@),
            captured("(?i)score[:\\s]+([0-9.]+)"@, response@),
            captured("\\(([0-9.]+)\\)"@, response@),
        ]);
        Self::first_score(&candidates)
    }

    /// Turns a normalized answer and the confidence found in it into the
    /// result for the raw answer `response`. An answer without a known
    /// label is an error.
    pub fn classify(&self, normalized: &str, found: Option<Score>, response: &str) -> (r: Result<
        GuardrailResult,
        CliError,
    >)
        ensures
            outcome(r) == label_verdict(self.config.threshold, normalized@, found, response@),
            r matches Ok(result) ==> result.deep_view().consistent(),
    {
        let text = to_chars(normalized);
        let malicious = if contains_text(&text, "MALICIOUS") || contains_text(&text, "LABEL_1") {
            true
        } else if contains_text(&text, "BENIGN") || contains_text(&text, "LABEL_0") {
            false
        } else {
            let mut m = String::from_str("Unexpected Prompt Guard response: ");
            m.append(response);
            return Err(CliError::InvalidResponse(m));
        };
        let confidence = match found {
            Some(c) => c,
            None => if malicious {
                Score::one()
            } else {
                Score::zero()
            },
        };
        let threshold = self.config.threshold;
        let passed = !malicious || confidence.below(threshold);
        let mut violations: Vec<Violation> = Vec::new();
        if !passed {
            let mut message = String::from_str(
                "Prompt injection or jailbreak attempt detected (confidence: ",
            );
            confidence.append_two_places(&mut message);
            message.append(", threshold: ");
            threshold.append_two_places(&mut message);
            message.append(")");
            violations.push(
                Violation {
                    rule: String::from_str("PROMPT_INJECTION"),
                    severity: Severity::Critical,
                    message,
                    location: None,
                },
            );
        }
        let warnings: Vec<Violation> = Vec::new();
        let payload = LlamaPromptGuardResult {
            malicious,
            confidence,
            label: String::from_str(if malicious { "MALICIOUS" } else { "BENIGN" }),
            raw_response: String::from_str(response),
        };
        let result = GuardrailResult {
            passed,
            violations,
            warnings,
            quality_score: None,
            provider_specific: Some(ProviderSpecificResult::LlamaPromptGuard(payload)),
        };
        proof {
            let expected = label_verdict(threshold, normalized@, found, response@)->Ok_0;
            assert(result.deep_view().violations =~= expected.violations);
            assert(result.deep_view().warnings =~= expected.warnings);
        }
        Ok(result)
    }

    /// Reads the answer of the classifier: the answer is trimmed and put in
    /// upper case, the label and the confidence are looked for in that
    /// form.
    pub fn parse_response(&self, response: &str) -> (r: Result<GuardrailResult, CliError>)
        ensures
            outcome(r) == prompt_guard_verdict(self.config.threshold, response@),
            r matches Ok(result) ==> result.deep_view().consistent(),
    {
        let body = from_chars(&trim_chars(&to_chars(response)));
        let normalized = to_uppercase(body.as_str());
        let found = self.extract_confidence(normalized.as_str());
        self.classify(normalized.as_str(), found, response)
    }
}

} // verus!
