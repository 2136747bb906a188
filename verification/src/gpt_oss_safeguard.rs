//! The policy-reasoning classifier: a model that is given a policy and
//! answers with one JSON object, `{"violation": 0 or 1, "category": ..,
//! "rationale": ..}`.

use vstd::prelude::*;
use vstd::string::StringExecFns;
use crate::client::{reply_view, InvokeParams, ModelGateway};
use crate::error::{outcome, CliError, CliErrorView};
use crate::json::{find_member, json_document, member, parse_json, JsonNumber, JsonValue};
use crate::provider::{
    GptOssSafeguardResult, GptOssSafeguardResultView, GuardrailResult, GuardrailResultView,
    ProviderSpecificResult, ProviderSpecificResultView, Score, Severity, Violation, ViolationView,
};
use crate::text::{from_chars, to_chars, trim_chars, trimmed};

verus! {

/// The policy that mirrors the hazard taxonomy of the category classifier.
pub const MLCOMMONS_TAXONOMY_POLICY: &'static str =
    "# Content Safety Policy (MLCommons hazard taxonomy)\n\
\n\
## Instructions\n\
\n\
You are a content safety classifier. Decide whether the content given by the user\n\
violates this policy. Judge the content itself, not the intent you suspect behind it.\n\
Answer with one JSON object and nothing else.\n\
\n\
## Categories\n\
\n\
- S1: Violent Crimes. Content that enables, encourages or endorses violence against\n\
  people or animals, such as terrorism, murder, assault or kidnapping.\n\
- S2: Non-Violent Crimes. Content that enables, encourages or endorses crimes such as\n\
  fraud, theft, trafficking, money laundering or the creation of malware.\n\
- S3: Sex-Related Crimes. Content that enables, encourages or endorses sex trafficking,\n\
  sexual assault, sexual harassment or prostitution.\n\
- S4: Child Sexual Exploitation. Content that contains, describes, enables or endorses\n\
  the sexual abuse of children.\n\
- S5: Defamation. Content that is verifiably false and likely to injure the reputation\n\
  of a living person.\n\
- S6: Specialized Advice. Content that gives specialized financial, medical or legal\n\
  advice, or that presents dangerous activities or objects as safe.\n\
- S7: Privacy. Content that holds sensitive, non-public personal information that could\n\
  undermine the physical, digital or financial security of a person.\n\
- S8: Intellectual Property. Content that may violate the intellectual property rights\n\
  of a third party.\n\
- S9: Indiscriminate Weapons. Content that enables, encourages or endorses the creation\n\
  of chemical, biological, radiological, nuclear or high-yield explosive weapons.\n\
- S10: Hate Speech. Content that demeans or dehumanizes people on the basis of their\n\
  sensitive personal characteristics.\n\
- S11: Suicide & Self-Harm. Content that enables, encourages or endorses acts of\n\
  intentional self-harm, such as suicide, self-injury or disordered eating.\n\
- S12: Sexual Content. Content that is erotic.\n\
- S13: Elections. Content that holds factually incorrect information about electoral\n\
  systems and processes, such as the time, place or manner of voting.\n\
\n\
## Output format\n\
\n\
{\"violation\": 0 or 1, \"category\": \"S1\" to \"S13\" or null, \"rationale\": \"one short sentence\"}\n\
\n\
Use violation 0 and category null where no category applies.\n";

/// How to reach the classifier and which policy it is given.
#[derive(Debug)]
pub struct GptOssSafeguardConfig {
    pub api_url: String,
    pub model: String,
    /// The full text of the policy; it is sent as the system prompt.
    pub policy: String,
    pub timeout_secs: u64,
    pub api_key: Option<String>,
}

impl Clone for GptOssSafeguardConfig {
    fn clone(&self) -> (r: Self)
        ensures
            r == *self,
    {
        GptOssSafeguardConfig {
            api_url: self.api_url.clone(),
            model: self.model.clone(),
            policy: self.policy.clone(),
            timeout_secs: self.timeout_secs,
            api_key: self.api_key.clone(),
        }
    }
}

impl Default for GptOssSafeguardConfig {
    fn default() -> (r: Self)
        ensures
            r.api_url@ == "http://localhost:1234/v1/chat/completions"@,
            r.model@ == "gpt-oss-safeguard-20b"@,
            r.policy@ == MLCOMMONS_TAXONOMY_POLICY@,
            r.timeout_secs == 30,
            r.api_key is None,
    {
        GptOssSafeguardConfig {
            api_url: String::from_str("http://localhost:1234/v1/chat/completions"),
            model: String::from_str("gpt-oss-safeguard-20b"),
            policy: Self::mlcommons_taxonomy_policy(),
            timeout_secs: 30,
            api_key: None,
        }
    }
}

impl GptOssSafeguardConfig {
    /// The policy that mirrors the hazard taxonomy of the category
    /// classifier.
    pub fn mlcommons_taxonomy_policy() -> (r: String)
        ensures
            r@ == MLCOMMONS_TAXONOMY_POLICY@,
    {
        String::from_str(MLCOMMONS_TAXONOMY_POLICY)
    }
}

/// What the classifier answered: the flag, and the optional category and
/// rationale.
pub struct SafeguardAnswer {
    pub violation: u8,
    pub category: Option<Seq<char>>,
    pub rationale: Option<Seq<char>>,
}

/// The answer of the classifier as a value: what a reader of the JSON
/// object hands over.
#[derive(Debug)]
pub struct GptOssSafeguardResponse {
    /// 0 for content within the policy, 1 for a violation.
    pub violation: u8,
    pub category: Option<String>,
    pub rationale: Option<String>,
}

impl DeepView for GptOssSafeguardResponse {
    type V = SafeguardAnswer;

    open spec fn deep_view(&self) -> SafeguardAnswer {
        SafeguardAnswer {
            violation: self.violation,
            category: self.category.deep_view(),
            rationale: self.rationale.deep_view(),
        }
    }
}

/// What an answer that was read, or the reader's error, amounts to for the
/// raw answer `response`.
pub open spec fn answer_verdict(
    parsed: Result<SafeguardAnswer, Seq<char>>,
    response: Seq<char>,
) -> Result<GuardrailResultView, CliErrorView> {
    match parsed {
        Err(reason) => Err(CliErrorView::InvalidResponse(json_fault(reason, response))),
        Ok(answer) => Ok(answer_result(answer, response)),
    }
}

/// The view of a reader's outcome.
pub open spec fn response_view(parsed: Result<GptOssSafeguardResponse, String>) -> Result<
    SafeguardAnswer,
    Seq<char>,
> {
    match parsed {
        Ok(answer) => Ok(answer.deep_view()),
        Err(reason) => Err(reason@),
    }
}

/// An optional text member: absent and `null` are both `None`; anything but
/// a string is a fault.
pub open spec fn optional_text(value: Option<JsonValue>) -> Result<Option<Seq<char>>, ()> {
    match value {
        None => Ok(None),
        Some(JsonValue::Null) => Ok(None),
        Some(JsonValue::Text(s)) => Ok(Some(s@)),
        Some(_) => Err(()),
    }
}

/// The answer that a document holds, or the reason why it holds none. The
/// document must be an object whose member `violation` is an integer from 0
/// to 255; `category` and `rationale` are optional texts; other members are
/// ignored.
pub open spec fn safeguard_answer(document: JsonValue) -> Result<SafeguardAnswer, Seq<char>> {
    match document {
        JsonValue::Object(members) => match member(members@, "violation"@) {
            None => Err("missing field `violation`"@),
            Some(JsonValue::Number(JsonNumber::Unsigned(n))) => if n > 255 {
                Err("invalid value for field `violation`"@)
            } else {
                match optional_text(member(members@, "category"@)) {
                    Err(_) => Err("invalid value for field `category`"@),
                    Ok(category) => match optional_text(member(members@, "rationale"@)) {
                        Err(_) => Err("invalid value for field `rationale`"@),
                        Ok(rationale) => Ok(
                            SafeguardAnswer { violation: n as u8, category, rationale },
                        ),
                    },
                }
            },
            Some(_) => Err("invalid value for field `violation`"@),
        },
        _ => Err("expected a JSON object"@),
    }
}

pub open spec fn json_fault(reason: Seq<char>, response: Seq<char>) -> Seq<char> {
    "Failed to parse GPT-OSS-Safeguard response as JSON: "@ + reason + ". Response: "@ + response
}

/// The result that stands for an answer. A flag of 0 passes; any other flag
/// fails with one critical violation, whose rule is the category (or
/// `POLICY_VIOLATION`) and whose message is the rationale (or a fixed
/// sentence).
pub open spec fn answer_result(answer: SafeguardAnswer, response: Seq<char>) -> GuardrailResultView {
    let passed = answer.violation == 0;
    GuardrailResultView {
        passed,
        violations: if passed {
            Seq::empty()
        } else {
            seq![
                ViolationView {
                    rule: match answer.category {
                        Some(c) => c,
                        None => "POLICY_VIOLATION"@,
                    },
                    severity: Severity::Critical,
                    message: match answer.rationale {
                        Some(r) => r,
                        None => "Policy violation detected"@,
                    },
                    location: None,
                },
            ]
        },
        warnings: Seq::empty(),
        quality_score: None,
        provider_specific: Some(
            ProviderSpecificResultView::GptOssSafeguard(
                GptOssSafeguardResultView {
                    violation: answer.violation == 1,
                    category: answer.category,
                    rationale: answer.rationale,
                    raw_response: response,
                },
            ),
        ),
    }
}

/// What a parsed document, or the parser's error, amounts to for the raw
/// answer `response`.
pub open spec fn document_verdict(
    parsed: Result<JsonValue, Seq<char>>,
    response: Seq<char>,
) -> Result<GuardrailResultView, CliErrorView> {
    match parsed {
        Err(reason) => Err(CliErrorView::InvalidResponse(json_fault(reason, response))),
        Ok(document) => match safeguard_answer(document) {
            Err(reason) => Err(CliErrorView::InvalidResponse(json_fault(reason, response))),
            Ok(answer) => Ok(answer_result(answer, response)),
        },
    }
}

/// Text that is no JSON document, and a document without a usable flag, is
/// an operational failure: it never comes out as a result, neither as one
/// that passes nor as one that fails.
pub proof fn lemma_malformed_answer_is_an_error(response: Seq<char>)
    requires
        json_document(trimmed(response)) is Err || safeguard_answer(
            json_document(trimmed(response))->Ok_0,
        ) is Err,
    ensures
        safeguard_verdict(response) is Err,
        safeguard_verdict(response)->Err_0 is InvalidResponse,
{
}

/// What the raw answer `response` of the classifier amounts to.
pub open spec fn safeguard_verdict(response: Seq<char>) -> Result<
    GuardrailResultView,
    CliErrorView,
> {
    document_verdict(json_document(trimmed(response)), response)
}

/// The view of a parser's outcome.
pub open spec fn parsed_view(parsed: Result<JsonValue, String>) -> Result<JsonValue, Seq<char>> {
    match parsed {
        Ok(document) => Ok(document),
        Err(reason) => Err(reason@),
    }
}

/// The policy-reasoning classifier.
#[derive(Debug)]
pub struct GptOssSafeguardProvider {
    pub config: GptOssSafeguardConfig,
}

fn json_failure(reason: &str, response: &str) -> (e: CliError)
    ensures
        e.deep_view() == CliErrorView::InvalidResponse(json_fault(reason@, response@)),
{
    let mut m = String::from_str("Failed to parse GPT-OSS-Safeguard response as JSON: ");
    m.append(reason);
    m.append(". Response: ");
    m.append(response);
    CliError::InvalidResponse(m)
}

fn text_member(value: Option<&JsonValue>) -> (r: Result<Option<String>, ()>)
    ensures
        match r {
            Ok(t) => optional_text(
                match value {
                    Some(v) => Some(*v),
                    None => None,
                },
            ) == Ok::<Option<Seq<char>>, ()>(t.deep_view()),
            Err(_) => optional_text(
                match value {
                    Some(v) => Some(*v),
                    None => None,
                },
            ) is Err,
        },
{
    match value {
        None => Ok(None),
        Some(JsonValue::Null) => Ok(None),
        Some(JsonValue::Text(s)) => Ok(Some(s.clone())),
        Some(_) => Err(()),
    }
}

impl GptOssSafeguardProvider {
    pub fn new(config: GptOssSafeguardConfig) -> (r: Self)
        ensures
            r.config == config,
    {
        GptOssSafeguardProvider { config }
    }

    /// The name of this kind of provider.
    pub fn name(&self) -> (r: &'static str)
        ensures
            r@ == "GptOssSafeguard"@,
    {
        "GptOssSafeguard"
    }

    /// What is put to the classifier for `content`: the policy as the
    /// system prompt, the content as the user prompt, at temperature 0.
    pub fn request<'a>(&'a self, content: &'a str) -> (r: InvokeParams<'a>)
        ensures
            r.model@ == self.config.model@,
            r.system_prompt@ == self.config.policy@,
            r.user_prompt@ == content@,
            r.temperature.millionths == 0,
            r.max_tokens == Some(300u32),
            r.seed is None,
            r.api_key.deep_view() == self.config.api_key.deep_view(),
            r.timeout_secs == self.config.timeout_secs,
    {
        InvokeParams {
            model: self.config.model.as_str(),
            system_prompt: self.config.policy.as_str(),
            user_prompt: content,
            temperature: Score::zero(),
            max_tokens: Some(300),
            seed: None,
            api_key: match &self.config.api_key {
                Some(key) => Some(key.as_str()),
                None => None,
            },
            timeout_secs: self.config.timeout_secs,
        }
    }

    /// What a reply of the model amounts to: a failure of the transport is
    /// handed on as it is, an answer is read.
    pub open spec fn reading(&self, reply: Result<Seq<char>, CliErrorView>) -> Result<
        GuardrailResultView,
        CliErrorView,
    > {
        match reply {
            Err(e) => Err(e),
            Ok(text) => safeguard_verdict(text),
        }
    }

    /// Turns what came back from the model into a result.
    pub fn interpret(&self, reply: Result<String, CliError>) -> (r: Result<
        GuardrailResult,
        CliError,
    >)
        ensures
            outcome(r) == self.reading(reply_view(reply)),
    {
        match reply {
            Err(e) => Err(e),
            Ok(text) => self.parse_json_response(text.as_str()),
        }
    }

    /// Puts `content` to the classifier through `gateway` and reads the
    /// reply. Whatever comes back, the result is the reading of it.
    pub fn validate<G: ModelGateway>(&self, content: &str, gateway: &G) -> (r: Result<
        GuardrailResult,
        CliError,
    >)
        ensures
            exists|reply: Result<Seq<char>, CliErrorView>| outcome(r) == #[trigger] self.reading(reply),
    {
        let reply = gateway.invoke(self.config.api_url.as_str(), self.request(content));
        let r = self.interpret(reply);
        assert(outcome(r) == self.reading(reply_view(reply)));
        r
    }

    /// Turns an answer that was read, or the reader's error, into the result
    /// for the raw answer `response`. A flag of 0 passes; any other flag is
    /// one critical violation. An error of the reader is an error, never a
    /// result.
    pub fn verdict_of_answer(
        &self,
        parsed: Result<GptOssSafeguardResponse, String>,
        response: &str,
    ) -> (r: Result<GuardrailResult, CliError>)
        ensures
            outcome(r) == answer_verdict(response_view(parsed), response@),
            parsed is Err <==> r is Err,
            r matches Ok(result) ==> result.deep_view().consistent(),
    {
        let answer = match parsed {
            Ok(answer) => answer,
            Err(reason) => {
                return Err(json_failure(reason.as_str(), response));
            },
        };
        let ghost expected = answer_result(answer.deep_view(), response@);
        let passed = answer.violation == 0;
        let mut violations: Vec<Violation> = Vec::new();
        if !passed {
            violations.push(
                Violation {
                    rule: match &answer.category {
                        Some(c) => c.clone(),
                        None => String::from_str("POLICY_VIOLATION"),
                    },
                    severity: Severity::Critical,
                    message: match &answer.rationale {
                        Some(r) => r.clone(),
                        None => String::from_str("Policy violation detected"),
                    },
                    location: None,
                },
            );
        }
        let warnings: Vec<Violation> = Vec::new();
        let payload = GptOssSafeguardResult {
            violation: answer.violation == 1,
            category: answer.category,
            rationale: answer.rationale,
            raw_response: String::from_str(response),
        };
        let result = GuardrailResult {
            passed,
            violations,
            warnings,
            quality_score: None,
            provider_specific: Some(ProviderSpecificResult::GptOssSafeguard(payload)),
        };
        proof {
            assert(result.deep_view().violations =~= expected.violations);
            assert(result.deep_view().warnings =~= expected.warnings);
        }
        Ok(result)
    }

    /// Reads the answer that a parsed document holds: an object whose
    /// member `violation` is an integer from 0 to 255 and whose members
    /// `category` and `rationale`, if they are there, are texts or `null`.
    /// Other members are ignored.
    pub fn answer_of_document(document: &JsonValue) -> (r: Result<GptOssSafeguardResponse, String>)
        ensures
            response_view(r) == safeguard_answer(*document),
    {
        let members = match document {
            JsonValue::Object(members) => members,
            _ => {
                return Err(String::from_str("expected a JSON object"));
            },
        };
        let violation: u8 = match find_member(members, "violation") {
            None => {
                return Err(String::from_str("missing field `violation`"));
            },
            Some(JsonValue::Number(JsonNumber::Unsigned(n))) => {
                if *n > 255 {
                    return Err(String::from_str("invalid value for field `violation`"));
                }
                *n as u8
            },
            Some(_) => {
                return Err(String::from_str("invalid value for field `violation`"));
            },
        };
        let category = match text_member(find_member(members, "category")) {
            Ok(category) => category,
            Err(_) => {
                return Err(String::from_str("invalid value for field `category`"));
            },
        };
        let rationale = match text_member(find_member(members, "rationale")) {
            Ok(rationale) => rationale,
            Err(_) => {
                return Err(String::from_str("invalid value for field `rationale`"));
            },
        };
        Ok(GptOssSafeguardResponse { violation, category, rationale })
    }

    /// Turns a parsed document, or the parser's error, into the result for
    /// the raw answer `response`.
    pub fn verdict_of_document(&self, parsed: Result<JsonValue, String>, response: &str) -> (r:
        Result<GuardrailResult, CliError>)
        ensures
            outcome(r) == document_verdict(parsed_view(parsed), response@),
            parsed is Err ==> r is Err,
            r matches Ok(result) ==> result.deep_view().consistent(),
    {
        let answer = match parsed {
            Ok(document) => Self::answer_of_document(&document),
            Err(reason) => Err(reason),
        };
        self.verdict_of_answer(answer, response)
    }

    /// Reads the answer of the classifier. Text that is no JSON document, or
    /// a document that is not of the expected shape, is an error, never a
    /// failed result. The document is read as the parser's generic value, in
    /// which the last of several members with one key stands for them all.
    pub fn parse_json_response(&self, response: &str) -> (r: Result<GuardrailResult, CliError>)
        ensures
            outcome(r) == safeguard_verdict(response@),
            json_document(trimmed(response@)) is Err ==> r is Err,
            r matches Ok(result) ==> result.deep_view().consistent(),
    {
        let body = from_chars(&trim_chars(&to_chars(response)));
        let parsed = parse_json(body.as_str());
        self.verdict_of_document(parsed, response)
    }
}

} // verus!
