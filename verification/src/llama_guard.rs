//! The category-taxonomy classifier: a model that answers `safe`, or
//! `unsafe` and, on a second line, the codes of the categories it found.

use vstd::prelude::*;
use vstd::string::StringExecFns;
use crate::client::{reply_view, InvokeParams, ModelGateway};
use crate::error::{outcome, CliError, CliErrorView};
use crate::provider::{
    GuardrailResult, GuardrailResultView, LlamaGuardResult, LlamaGuardResultView,
    ProviderSpecificResult, ProviderSpecificResultView, Score, Severity, Violation, ViolationView,
};
use crate::text::{
    from_chars, is_text, lines_chars, lines_of, lowercase_chars, lowercased, rows, split_chars,
    split_on, to_chars, to_uppercase, trim_chars, trimmed, unicode_uppercase,
};

verus! {

/// The hazard categories of the taxonomy.
#[derive(Debug, Clone, Copy, PartialEq, Eq, Structural, Hash)]
pub enum LlamaGuardCategory {
    /// Violent crimes.
    S1,
    /// Non-violent crimes.
    S2,
    /// Sex-related crimes.
    S3,
    /// Child sexual exploitation.
    S4,
    /// Defamation.
    S5,
    /// Specialized advice.
    S6,
    /// Privacy.
    S7,
    /// Intellectual property.
    S8,
    /// Indiscriminate weapons.
    S9,
    /// Hate.
    S10,
    /// Suicide and self-harm.
    S11,
    /// Sexual content.
    S12,
    /// Elections.
    S13,
    /// Code interpreter abuse.
    S14,
}

/// The fourteen categories, in the order of their codes.
pub open spec fn all_categories() -> Seq<LlamaGuardCategory> {
    seq![
        LlamaGuardCategory::S1,
        LlamaGuardCategory::S2,
        LlamaGuardCategory::S3,
        LlamaGuardCategory::S4,
        LlamaGuardCategory::S5,
        LlamaGuardCategory::S6,
        LlamaGuardCategory::S7,
        LlamaGuardCategory::S8,
        LlamaGuardCategory::S9,
        LlamaGuardCategory::S10,
        LlamaGuardCategory::S11,
        LlamaGuardCategory::S12,
        LlamaGuardCategory::S13,
        LlamaGuardCategory::S14,
    ]
}

/// The category that a token names: the category whose code is the
/// upper-case form of the token.
pub open spec fn category_of(token: Seq<char>) -> Option<LlamaGuardCategory> {
    category_of_code(unicode_uppercase(token))
}

/// The category that has the code `t`: `S1` to `S14`, as written here.
pub open spec fn category_of_code(t: Seq<char>) -> Option<LlamaGuardCategory> {
    if t == "S1"@ {
        Some(LlamaGuardCategory::S1)
    } else if t == "S2"@ {
        Some(LlamaGuardCategory::S2)
    } else if t == "S3"@ {
        Some(LlamaGuardCategory::S3)
    } else if t == "S4"@ {
        Some(LlamaGuardCategory::S4)
    } else if t == "S5"@ {
        Some(LlamaGuardCategory::S5)
    } else if t == "S6"@ {
        Some(LlamaGuardCategory::S6)
    } else if t == "S7"@ {
        Some(LlamaGuardCategory::S7)
    } else if t == "S8"@ {
        Some(LlamaGuardCategory::S8)
    } else if t == "S9"@ {
        Some(LlamaGuardCategory::S9)
    } else if t == "S10"@ {
        Some(LlamaGuardCategory::S10)
    } else if t == "S11"@ {
        Some(LlamaGuardCategory::S11)
    } else if t == "S12"@ {
        Some(LlamaGuardCategory::S12)
    } else if t == "S13"@ {
        Some(LlamaGuardCategory::S13)
    } else if t == "S14"@ {
        Some(LlamaGuardCategory::S14)
    } else {
        None
    }
}

pub open spec fn unknown_category_fault(token: Seq<char>) -> Seq<char> {
    "Unknown Llama Guard category: "@ + token
}

impl LlamaGuardCategory {
    /// The code of the category.
    pub open spec fn code(self) -> Seq<char> {
        match self {
            LlamaGuardCategory::S1 => "S1"@,
            LlamaGuardCategory::S2 => "S2"@,
            LlamaGuardCategory::S3 => "S3"@,
            LlamaGuardCategory::S4 => "S4"@,
            LlamaGuardCategory::S5 => "S5"@,
            LlamaGuardCategory::S6 => "S6"@,
            LlamaGuardCategory::S7 => "S7"@,
            LlamaGuardCategory::S8 => "S8"@,
            LlamaGuardCategory::S9 => "S9"@,
            LlamaGuardCategory::S10 => "S10"@,
            LlamaGuardCategory::S11 => "S11"@,
            LlamaGuardCategory::S12 => "S12"@,
            LlamaGuardCategory::S13 => "S13"@,
            LlamaGuardCategory::S14 => "S14"@,
        }
    }

    /// The words that describe the category.
    pub open spec fn words(self) -> Seq<char> {
        match self {
            LlamaGuardCategory::S1 => "Violent Crimes"@,
            LlamaGuardCategory::S2 => "Non-Violent Crimes"@,
            LlamaGuardCategory::S3 => "Sex-Related Crimes"@,
            LlamaGuardCategory::S4 => "Child Sexual Exploitation"@,
            LlamaGuardCategory::S5 => "Defamation"@,
            LlamaGuardCategory::S6 => "Specialized Advice (financial, medical, legal)"@,
            LlamaGuardCategory::S7 => "Privacy Violations"@,
            LlamaGuardCategory::S8 => "Intellectual Property Violations"@,
            LlamaGuardCategory::S9 => "Indiscriminate Weapons (CBRNE)"@,
            LlamaGuardCategory::S10 => "Hate Speech"@,
            LlamaGuardCategory::S11 => "Suicide & Self-Harm"@,
            LlamaGuardCategory::S12 => "Sexual Content"@,
            LlamaGuardCategory::S13 => "Elections (misinformation)"@,
            LlamaGuardCategory::S14 => "Code Interpreter Abuse"@,
        }
    }

    /// The fourteen categories, in the order of their codes.
    pub fn all() -> (r: Vec<Self>)
        ensures
            r@ == all_categories(),
    {
        let mut r: Vec<Self> = Vec::new();
        r.push(LlamaGuardCategory::S1);
        r.push(LlamaGuardCategory::S2);
        r.push(LlamaGuardCategory::S3);
        r.push(LlamaGuardCategory::S4);
        r.push(LlamaGuardCategory::S5);
        r.push(LlamaGuardCategory::S6);
        r.push(LlamaGuardCategory::S7);
        r.push(LlamaGuardCategory::S8);
        r.push(LlamaGuardCategory::S9);
        r.push(LlamaGuardCategory::S10);
        r.push(LlamaGuardCategory::S11);
        r.push(LlamaGuardCategory::S12);
        r.push(LlamaGuardCategory::S13);
        r.push(LlamaGuardCategory::S14);
        assert(r@ =~= all_categories());
        r
    }

    /// The words that describe the category.
    pub fn description(&self) -> (r: &'static str)
        ensures
            r@ == self.words(),
    {
        match self {
            LlamaGuardCategory::S1 => "Violent Crimes",
            LlamaGuardCategory::S2 => "Non-Violent Crimes",
            LlamaGuardCategory::S3 => "Sex-Related Crimes",
            LlamaGuardCategory::S4 => "Child Sexual Exploitation",
            LlamaGuardCategory::S5 => "Defamation",
            LlamaGuardCategory::S6 => "Specialized Advice (financial, medical, legal)",
            LlamaGuardCategory::S7 => "Privacy Violations",
            LlamaGuardCategory::S8 => "Intellectual Property Violations",
            LlamaGuardCategory::S9 => "Indiscriminate Weapons (CBRNE)",
            LlamaGuardCategory::S10 => "Hate Speech",
            LlamaGuardCategory::S11 => "Suicide & Self-Harm",
            LlamaGuardCategory::S12 => "Sexual Content",
            LlamaGuardCategory::S13 => "Elections (misinformation)",
            LlamaGuardCategory::S14 => "Code Interpreter Abuse",
        }
    }

    /// The category that has the code `code`: `S1` to `S14`, in upper case.
    pub fn from_code(code: &str) -> (r: Option<Self>)
        ensures
            r == category_of_code(code@),
    {
        let upper = to_chars(code);
        if is_text(&upper, "S1") {
            Some(LlamaGuardCategory::S1)
        } else if is_text(&upper, "S2") {
            Some(LlamaGuardCategory::S2)
        } else if is_text(&upper, "S3") {
            Some(LlamaGuardCategory::S3)
        } else if is_text(&upper, "S4") {
            Some(LlamaGuardCategory::S4)
        } else if is_text(&upper, "S5") {
            Some(LlamaGuardCategory::S5)
        } else if is_text(&upper, "S6") {
            Some(LlamaGuardCategory::S6)
        } else if is_text(&upper, "S7") {
            Some(LlamaGuardCategory::S7)
        } else if is_text(&upper, "S8") {
            Some(LlamaGuardCategory::S8)
        } else if is_text(&upper, "S9") {
            Some(LlamaGuardCategory::S9)
        } else if is_text(&upper, "S10") {
            Some(LlamaGuardCategory::S10)
        } else if is_text(&upper, "S11") {
            Some(LlamaGuardCategory::S11)
        } else if is_text(&upper, "S12") {
            Some(LlamaGuardCategory::S12)
        } else if is_text(&upper, "S13") {
            Some(LlamaGuardCategory::S13)
        } else if is_text(&upper, "S14") {
            Some(LlamaGuardCategory::S14)
        } else {
            None
        }
    }

    /// Reads a category code: the text is put in upper case and must then be
    /// one of `S1` to `S14`. Any other text is refused.
    pub fn parse(s: &str) -> (r: Result<Self, CliError>)
        ensures
            match r {
                Ok(c) => category_of(s@) == Some(c),
                Err(e) => category_of(s@) is None && e.deep_view()
                    == CliErrorView::InvalidResponse(unknown_category_fault(s@)),
            },
    {
        let upper = to_uppercase(s);
        match Self::from_code(upper.as_str()) {
            Some(c) => Ok(c),
            None => {
                let mut m = String::from_str("Unknown Llama Guard category: ");
                m.append(s);
                Err(CliError::InvalidResponse(m))
            },
        }
    }

    /// The code of the category.
    pub fn as_str(&self) -> (r: &'static str)
        ensures
            r@ == self.code(),
    {
        match self {
            LlamaGuardCategory::S1 => "S1",
            LlamaGuardCategory::S2 => "S2",
            LlamaGuardCategory::S3 => "S3",
            LlamaGuardCategory::S4 => "S4",
            LlamaGuardCategory::S5 => "S5",
            LlamaGuardCategory::S6 => "S6",
            LlamaGuardCategory::S7 => "S7",
            LlamaGuardCategory::S8 => "S8",
            LlamaGuardCategory::S9 => "S9",
            LlamaGuardCategory::S10 => "S10",
            LlamaGuardCategory::S11 => "S11",
            LlamaGuardCategory::S12 => "S12",
            LlamaGuardCategory::S13 => "S13",
            LlamaGuardCategory::S14 => "S14",
        }
    }
}

/// The categories that the tokens name, in order. An empty token names
/// nothing; the first token that names no category is the fault.
pub open spec fn categories_of_tokens(tokens: Seq<Seq<char>>) -> Result<
    Seq<LlamaGuardCategory>,
    Seq<char>,
>
    decreases tokens.len(),
{
    if tokens.len() == 0 {
        Ok(Seq::empty())
    } else {
        match categories_of_tokens(tokens.drop_last()) {
            Err(token) => Err(token),
            Ok(found) => {
                let token = trimmed(tokens.last());
                if token.len() == 0 {
                    Ok(found)
                } else {
                    match category_of(token) {
                        Some(c) => Ok(found.push(c)),
                        None => Err(token),
                    }
                }
            },
        }
    }
}

/// The categories that a comma-separated line names.
pub open spec fn categories_of_line(line: Seq<char>) -> Result<
    Seq<LlamaGuardCategory>,
    CliErrorView,
> {
    match categories_of_tokens(split_on(line, ',')) {
        Ok(found) => Ok(found),
        Err(token) => Err(CliErrorView::InvalidResponse(unknown_category_fault(token))),
    }
}

/// Those of `found` that occur in `enabled`, in the order of `found`.
pub open spec fn enabled_only(
    found: Seq<LlamaGuardCategory>,
    enabled: Seq<LlamaGuardCategory>,
) -> Seq<LlamaGuardCategory>
    decreases found.len(),
{
    if found.len() == 0 {
        Seq::empty()
    } else {
        let before = enabled_only(found.drop_last(), enabled);
        if enabled.contains(found.last()) {
            before.push(found.last())
        } else {
            before
        }
    }
}

/// The categories that count are those that were found and are enabled,
/// no others.
pub proof fn lemma_enabled_only(
    found: Seq<LlamaGuardCategory>,
    enabled: Seq<LlamaGuardCategory>,
    c: LlamaGuardCategory,
)
    ensures
        enabled_only(found, enabled).contains(c) <==> found.contains(c) && enabled.contains(c),
    decreases found.len(),
{
    if found.len() > 0 {
        let shorter = found.drop_last();
        let before = enabled_only(shorter, enabled);
        lemma_enabled_only(shorter, enabled, c);
        if found.contains(c) {
            let i = choose|i: int| 0 <= i < found.len() && found[i] == c;
            if i < shorter.len() {
                assert(shorter[i] == c);
            }
        }
        if shorter.contains(c) {
            let i = choose|i: int| 0 <= i < shorter.len() && shorter[i] == c;
            assert(found[i] == c);
        }
        if enabled.contains(found.last()) {
            let now = before.push(found.last());
            if before.contains(c) {
                let i = choose|i: int| 0 <= i < before.len() && before[i] == c;
                assert(now[i] == c);
            }
            if found.last() == c {
                assert(now[now.len() - 1] == c);
                assert(found[found.len() - 1] == c);
            }
            if now.contains(c) {
                let i = choose|i: int| 0 <= i < now.len() && now[i] == c;
                if i < before.len() {
                    assert(before[i] == c);
                }
            }
        }
    }
}

/// Where none of the categories found is enabled, nothing counts.
pub proof fn lemma_nothing_enabled(found: Seq<LlamaGuardCategory>, enabled: Seq<LlamaGuardCategory>)
    requires
        forall|i: int| 0 <= i < found.len() ==> !enabled.contains(#[trigger] found[i]),
    ensures
        enabled_only(found, enabled).len() == 0,
    decreases found.len(),
{
    if found.len() > 0 {
        lemma_nothing_enabled(found.drop_last(), enabled);
    }
}

/// The violation that stands for a category.
pub open spec fn category_violation(c: LlamaGuardCategory) -> ViolationView {
    ViolationView {
        rule: c.code(),
        severity: Severity::Critical,
        message: "Llama Guard violation: "@ + c.words(),
        location: None,
    }
}

/// The result for an answer whose first line said `safe` or not and whose
/// second line named the categories `found`, when only the categories in
/// `enabled` count: one critical violation for each category found that is
/// enabled, in the order in which they were found, and a pass if there is
/// none.
pub open spec fn category_verdict(
    enabled: Seq<LlamaGuardCategory>,
    safe: bool,
    found: Seq<LlamaGuardCategory>,
    response: Seq<char>,
) -> GuardrailResultView {
    let counted = enabled_only(found, enabled);
    let passed = safe || counted.len() == 0;
    GuardrailResultView {
        passed,
        violations: Seq::new(counted.len(), |i: int| category_violation(counted[i])),
        warnings: Seq::empty(),
        quality_score: None,
        provider_specific: Some(
            ProviderSpecificResultView::LlamaGuard(
                LlamaGuardResultView {
                    safe: passed,
                    violated_categories: Seq::new(counted.len(), |i: int| counted[i].code()),
                    raw_response: response,
                },
            ),
        ),
    }
}

/// What the first line of an answer says: `Some(true)` for `safe`,
/// `Some(false)` for `unsafe`, in any case of their ASCII letters and with
/// blanks around them; `None` for every other line.
pub open spec fn first_line_says(line: Seq<char>) -> Option<bool> {
    let word = lowercased(trimmed(line));
    if word == "safe"@ {
        Some(true)
    } else if word == "unsafe"@ {
        Some(false)
    } else {
        None
    }
}

pub open spec fn unexpected_answer_fault(raw: Seq<char>) -> Seq<char> {
    "Unexpected Llama Guard response: "@ + raw
}

/// What the answer `raw` of the classifier amounts to when only the
/// categories in `enabled` count. The answer is trimmed. It must have a
/// first line, and that line must say `safe` or `unsafe`: an answer without
/// one, and an answer whose first line says anything else, is a failure of
/// the classifier. After `unsafe` the second line, if there is one, names the
/// categories, and a code on it that names none is a failure as well. After
/// `safe` no category is read.
pub open spec fn llama_guard_verdict(enabled: Seq<LlamaGuardCategory>, raw: Seq<char>) -> Result<
    GuardrailResultView,
    CliErrorView,
> {
    let response = trimmed(raw);
    let lines = lines_of(response);
    if lines.len() == 0 {
        Err(CliErrorView::InvalidResponse("Empty Llama Guard response"@))
    } else {
        match first_line_says(lines[0]) {
            None => Err(CliErrorView::InvalidResponse(unexpected_answer_fault(raw))),
            Some(safe) => {
                let named = if !safe && lines.len() > 1 {
                    categories_of_line(lines[1])
                } else {
                    Ok(Seq::empty())
                };
                match named {
                    Err(e) => Err(e),
                    Ok(found) => Ok(category_verdict(enabled, safe, found, response)),
                }
            },
        }
    }
}

/// An answer whose first line says neither `safe` nor `unsafe` is a failure
/// of the classifier: it never comes out as a result, whatever else it
/// holds.
pub proof fn lemma_unknown_first_line_is_an_error(enabled: Seq<LlamaGuardCategory>, raw: Seq<char>)
    requires
        lines_of(trimmed(raw)).len() == 0 || first_line_says(lines_of(trimmed(raw))[0]) is None,
    ensures
        llama_guard_verdict(enabled, raw) is Err,
        llama_guard_verdict(enabled, raw)->Err_0 is InvalidResponse,
{
}

/// The result for given categories passes if and only if it reports no
/// violation, and every violation that it reports stands for a category
/// that was found and is enabled. So an answer that says `unsafe` and names
/// only categories that are not enabled passes.
pub proof fn lemma_category_verdict(
    enabled: Seq<LlamaGuardCategory>,
    safe: bool,
    found: Seq<LlamaGuardCategory>,
    response: Seq<char>,
)
    ensures
        ({
            let result = category_verdict(enabled, safe, found, response);
            &&& safe && found.len() == 0 ==> result.passed
            &&& !safe ==> (result.passed <==> result.violations.len() == 0)
            &&& result.warnings.len() == 0
            &&& (forall|i: int| 0 <= i < found.len() ==> !enabled.contains(#[trigger] found[i]))
                ==> result.passed && result.violations.len() == 0
            &&& forall|i: int|
                0 <= i < result.violations.len() ==> exists|c: LlamaGuardCategory|
                    enabled.contains(c) && found.contains(c) && #[trigger] result.violations[i]
                        == category_violation(c)
        }),
{
    let counted = enabled_only(found, enabled);
    let result = category_verdict(enabled, safe, found, response);
    if forall|i: int| 0 <= i < found.len() ==> !enabled.contains(#[trigger] found[i]) {
        lemma_nothing_enabled(found, enabled);
    }
    assert forall|i: int| 0 <= i < result.violations.len() implies exists|c: LlamaGuardCategory|
        enabled.contains(c) && found.contains(c) && #[trigger] result.violations[i]
            == category_violation(c) by {
        lemma_enabled_only(found, enabled, counted[i]);
        assert(counted.contains(counted[i]));
        assert(enabled.contains(counted[i]) && found.contains(counted[i]) && result.violations[i]
            == category_violation(counted[i]));
    }
}

/// An answer that can be read passes if and only if it reports no
/// violation, and every violation that it reports stands for a category
/// that is enabled.
pub proof fn lemma_verdict_counts_enabled_only(enabled: Seq<LlamaGuardCategory>, raw: Seq<char>)
    requires
        llama_guard_verdict(enabled, raw) is Ok,
    ensures
        ({
            let result = llama_guard_verdict(enabled, raw)->Ok_0;
            &&& result.passed <==> result.violations.len() == 0
            &&& result.warnings.len() == 0
            &&& forall|i: int|
                0 <= i < result.violations.len() ==> exists|c: LlamaGuardCategory|
                    enabled.contains(c) && #[trigger] result.violations[i] == category_violation(c)
        }),
{
    let response = trimmed(raw);
    let lines = lines_of(response);
    let safe = first_line_says(lines[0])->Some_0;
    let named = if !safe && lines.len() > 1 {
        categories_of_line(lines[1])
    } else {
        Ok(Seq::empty())
    };
    let found = named->Ok_0;
    lemma_category_verdict(enabled, safe, found, response);
    let result = category_verdict(enabled, safe, found, response);
    if safe {
        assert(enabled_only(found, enabled) =~= Seq::<LlamaGuardCategory>::empty());
    }
    assert forall|i: int| 0 <= i < result.violations.len() implies exists|c: LlamaGuardCategory|
        enabled.contains(c) && #[trigger] result.violations[i] == category_violation(c) by {
        let c = choose|c: LlamaGuardCategory|
            enabled.contains(c) && found.contains(c) && result.violations[i]
                == category_violation(c);
        assert(enabled.contains(c) && result.violations[i] == category_violation(c));
    }
}

/// How to reach the classifier and which categories count.
#[derive(Debug)]
pub struct LlamaGuardConfig {
    pub api_url: String,
    pub model: String,
    pub enabled_categories: Vec<LlamaGuardCategory>,
    pub timeout_secs: u64,
    pub api_key: Option<String>,
}

impl Clone for LlamaGuardConfig {
    fn clone(&self) -> (r: Self)
        ensures
            r.api_url == self.api_url,
            r.model == self.model,
            r.enabled_categories@ == self.enabled_categories@,
            r.timeout_secs == self.timeout_secs,
            r.api_key == self.api_key,
    {
        let enabled_categories = self.enabled_categories.clone();
        assert(enabled_categories@ =~= self.enabled_categories@);
        LlamaGuardConfig {
            api_url: self.api_url.clone(),
            model: self.model.clone(),
            enabled_categories,
            timeout_secs: self.timeout_secs,
            api_key: self.api_key.clone(),
        }
    }
}

impl Default for LlamaGuardConfig {
    fn default() -> (r: Self)
        ensures
            r.api_url@ == "http://localhost:11434/api/generate"@,
            r.model@ == "llama-guard-3:8b"@,
            r.enabled_categories@ == all_categories(),
            r.timeout_secs == 30,
            r.api_key is None,
    {
        LlamaGuardConfig {
            api_url: String::from_str("http://localhost:11434/api/generate"),
            model: String::from_str("llama-guard-3:8b"),
            enabled_categories: LlamaGuardCategory::all(),
            timeout_secs: 30,
            api_key: None,
        }
    }
}

/// The category-taxonomy classifier.
#[derive(Debug)]
pub struct LlamaGuardProvider {
    pub config: LlamaGuardConfig,
}

fn is_enabled(enabled: &Vec<LlamaGuardCategory>, c: LlamaGuardCategory) -> (r: bool)
    ensures
        r == enabled@.contains(c),
{
    let mut i: usize = 0;
    while i < enabled.len()
        invariant
            i <= enabled.len(),
            forall|k: int| 0 <= k < i ==> enabled@[k] != c,
        decreases enabled.len() - i,
    {
        if enabled[i] == c {
            return true;
        }
        i += 1;
    }
    false
}

impl LlamaGuardProvider {
    pub fn new(config: LlamaGuardConfig) -> (r: Self)
        ensures
            r.config == config,
    {
        LlamaGuardProvider { config }
    }

    /// The name of this kind of provider.
    pub fn name(&self) -> (r: &'static str)
        ensures
            r@ == "LlamaGuard3"@,
    {
        "LlamaGuard3"
    }

    /// What is put to the classifier for `content`: no system prompt, the
    /// content as the user prompt, at temperature 0.
    pub fn request<'a>(&'a self, content: &'a str) -> (r: InvokeParams<'a>)
        ensures
            r.model@ == self.config.model@,
            r.system_prompt@ == Seq::<char>::empty(),
            r.user_prompt@ == content@,
            r.temperature.millionths == 0,
            r.max_tokens == Some(100u32),
            r.seed is None,
            r.api_key.deep_view() == self.config.api_key.deep_view(),
            r.timeout_secs == self.config.timeout_secs,
    {
        let system_prompt = "";
        proof {
            reveal_strlit("");
            assert(system_prompt@ =~= Seq::<char>::empty());
        }
        InvokeParams {
            model: self.config.model.as_str(),
            system_prompt,
            user_prompt: content,
            temperature: Score::zero(),
            max_tokens: Some(100),
            seed: None,
            api_key: match &self.config.api_key {
                Some(key) => Some(key.as_str()),
                None => None,
            },
            timeout_secs: self.config.timeout_secs,
        }
    }

    /// What a reply of the model amounts to: a failure of the transport is
    /// handed on as it is, an answer is read.
    pub open spec fn reading(&self, reply: Result<Seq<char>, CliErrorView>) -> Result<
        GuardrailResultView,
        CliErrorView,
    > {
        match reply {
            Err(e) => Err(e),
            Ok(text) => llama_guard_verdict(self.config.enabled_categories@, text),
        }
    }

    /// Turns what came back from the model into a result.
    pub fn interpret(&self, reply: Result<String, CliError>) -> (r: Result<
        GuardrailResult,
        CliError,
    >)
        ensures
            outcome(r) == self.reading(reply_view(reply)),
    {
        match reply {
            Err(e) => Err(e),
            Ok(text) => self.parse_response(text.as_str()),
        }
    }

    /// Puts `content` to the classifier through `gateway` and reads the
    /// reply. Whatever comes back, the result is the reading of it.
    pub fn validate<G: ModelGateway>(&self, content: &str, gateway: &G) -> (r: Result<
        GuardrailResult,
        CliError,
    >)
        ensures
            exists|reply: Result<Seq<char>, CliErrorView>| outcome(r) == #[trigger] self.reading(reply),
    {
        let reply = gateway.invoke(self.config.api_url.as_str(), self.request(content));
        let r = self.interpret(reply);
        assert(outcome(r) == self.reading(reply_view(reply)));
        r
    }

    /// Reads a comma-separated line of category codes. Blanks around a code
    /// and empty entries are ignored; an unknown code is an error.
    pub fn parse_categories(&self, line: &str) -> (r: Result<Vec<LlamaGuardCategory>, CliError>)
        ensures
            match r {
                Ok(found) => categories_of_line(line@) == Ok::<
                    Seq<LlamaGuardCategory>,
                    CliErrorView,
                >(found@),
                Err(e) => categories_of_line(line@) == Err::<
                    Seq<LlamaGuardCategory>,
                    CliErrorView,
                >(e.deep_view()),
            },
    {
        categories_in(&to_chars(line))
    }

    /// The result for an answer whose first line said `safe` or not and
    /// whose second line named the categories `found`; `response` is the
    /// answer as it is kept for audit.
    pub fn verdict_of_categories(
        &self,
        safe: bool,
        found: &Vec<LlamaGuardCategory>,
        response: &str,
    ) -> (r: GuardrailResult)
        ensures
            r.deep_view() == category_verdict(
                self.config.enabled_categories@,
                safe,
                found@,
                response@,
            ),
            !safe ==> r.deep_view().consistent(),
    {
        let ghost enabled = self.config.enabled_categories@;
        let mut counted: Vec<LlamaGuardCategory> = Vec::new();
        let mut i: usize = 0;
        assert(found@.take(0) =~= Seq::<LlamaGuardCategory>::empty());
        while i < found.len()
            invariant
                i <= found.len(),
                enabled == self.config.enabled_categories@,
                counted@ == enabled_only(found@.take(i as int), enabled),
            decreases found.len() - i,
        {
            assert(found@.take(i + 1).drop_last() =~= found@.take(i as int));
            if is_enabled(&self.config.enabled_categories, found[i]) {
                counted.push(found[i]);
            }
            i += 1;
        }
        assert(found@.take(found.len() as int) =~= found@);
        let mut violations: Vec<Violation> = Vec::new();
        let mut codes: Vec<String> = Vec::new();
        let mut k: usize = 0;
        while k < counted.len()
            invariant
                k <= counted.len(),
                violations.deep_view() == Seq::new(
                    k as nat,
                    |i: int| category_violation(counted@[i]),
                ),
                codes.deep_view() == Seq::new(k as nat, |i: int| counted@[i].code()),
            decreases counted.len() - k,
        {
            let c = counted[k];
            let ghost violations_before = violations.deep_view();
            let ghost codes_before = codes.deep_view();
            let mut message = String::from_str("Llama Guard violation: ");
            message.append(c.description());
            let violation = Violation {
                rule: String::from_str(c.as_str()),
                severity: Severity::Critical,
                message,
                location: None,
            };
            assert(violation.deep_view() == category_violation(c));
            violations.push(violation);
            codes.push(String::from_str(c.as_str()));
            k += 1;
            assert(violations.deep_view() =~= violations_before.push(category_violation(c)));
            assert(codes.deep_view() =~= codes_before.push(c.code()));
            assert(violations.deep_view() =~= Seq::new(
                k as nat,
                |i: int| category_violation(counted@[i]),
            ));
            assert(codes.deep_view() =~= Seq::new(k as nat, |i: int| counted@[i].code()));
        }
        let passed = safe || counted.len() == 0;
        let warnings: Vec<Violation> = Vec::new();
        assert(warnings.deep_view() =~= Seq::<ViolationView>::empty());
        let payload = LlamaGuardResult {
            safe: passed,
            violated_categories: codes,
            raw_response: String::from_str(response),
        };
        GuardrailResult {
            passed,
            violations,
            warnings,
            quality_score: None,
            provider_specific: Some(ProviderSpecificResult::LlamaGuard(payload)),
        }
    }

    /// Reads the answer of the classifier. `safe` passes. `unsafe` fails
    /// with one critical violation for each category of the second line that
    /// is enabled, in the order of that line, and passes if none of them is.
    /// An empty answer, a first line that says neither `safe` nor `unsafe`,
    /// and an unknown category code are errors.
    pub fn parse_response(&self, response: &str) -> (r: Result<GuardrailResult, CliError>)
        ensures
            outcome(r) == llama_guard_verdict(self.config.enabled_categories@, response@),
            r matches Ok(result) ==> result.deep_view().consistent(),
            lines_of(trimmed(response@)).len() == 0 || first_line_says(
                lines_of(trimmed(response@))[0],
            ) is None ==> r is Err,
    {
        let response_chars = trim_chars(&to_chars(response));
        let lines = lines_chars(&response_chars);
        if lines.len() == 0 {
            return Err(CliError::InvalidResponse(String::from_str("Empty Llama Guard response")));
        }
        assert(rows(lines@)[0] == lines@[0]@);
        let first = lowercase_chars(&trim_chars(&lines[0]));
        let safe = if is_text(&first, "safe") {
            true
        } else if is_text(&first, "unsafe") {
            false
        } else {
            let mut m = String::from_str("Unexpected Llama Guard response: ");
            m.append(response);
            return Err(CliError::InvalidResponse(m));
        };
        let found: Vec<LlamaGuardCategory> = if !safe && lines.len() > 1 {
            assert(rows(lines@)[1] == lines@[1]@);
            match categories_in(&lines[1]) {
                Ok(found) => found,
                Err(e) => {
                    return Err(e);
                },
            }
        } else {
            Vec::new()
        };
        let audit = from_chars(&response_chars);
        let result = self.verdict_of_categories(safe, &found, audit.as_str());
        proof {
            if safe {
                assert(found@ =~= Seq::<LlamaGuardCategory>::empty());
                assert(enabled_only(found@, self.config.enabled_categories@)
                    =~= Seq::<LlamaGuardCategory>::empty());
            }
        }
        Ok(result)
    }
}

fn categories_in(line: &Vec<char>) -> (r: Result<Vec<LlamaGuardCategory>, CliError>)
    ensures
        match r {
            Ok(found) => categories_of_line(line@) == Ok::<Seq<LlamaGuardCategory>, CliErrorView>(
                found@,
            ),
            Err(e) => categories_of_line(line@) == Err::<Seq<LlamaGuardCategory>, CliErrorView>(
                e.deep_view(),
            ),
        },
{
    let tokens = split_chars(line, ',');
    let ghost all = split_on(line@, ',');
    let mut found: Vec<LlamaGuardCategory> = Vec::new();
    let mut i: usize = 0;
    assert(all.take(0) =~= Seq::<Seq<char>>::empty());
    while i < tokens.len()
        invariant
            i <= tokens.len(),
            rows(tokens@) == all,
            all == split_on(line@, ','),
            categories_of_tokens(all.take(i as int)) == Ok::<Seq<LlamaGuardCategory>, Seq<char>>(
                found@,
            ),
        decreases tokens.len() - i,
    {
        proof {
            assert(all.take(i + 1).drop_last() =~= all.take(i as int));
            assert(all.take(i + 1).last() == tokens@[i as int]@);
        }
        let token = trim_chars(&tokens[i]);
        if token.len() > 0 {
            let text = from_chars(&token);
            match LlamaGuardCategory::parse(text.as_str()) {
                Ok(c) => {
                    found.push(c);
                },
                Err(e) => {
                    proof {
                        assert(categories_of_tokens(all.take(i + 1)) == Err::<
                            Seq<LlamaGuardCategory>,
                            Seq<char>,
                        >(token@));
                        lemma_unknown_stays(all, i + 1);
                    }
                    return Err(e);
                },
            }
        }
        i += 1;
    }
    assert(all.take(tokens.len() as int) =~= all);
    Ok(found)
}

/// Once a prefix of the tokens holds an unknown one, the whole holds it.
proof fn lemma_unknown_stays(tokens: Seq<Seq<char>>, k: int)
    requires
        0 <= k <= tokens.len(),
        categories_of_tokens(tokens.take(k)) is Err,
    ensures
        categories_of_tokens(tokens) == categories_of_tokens(tokens.take(k)),
    decreases tokens.len() - k,
{
    if k < tokens.len() {
        assert(tokens.take(k + 1).drop_last() =~= tokens.take(k));
        lemma_unknown_stays(tokens, k + 1);
    } else {
        assert(tokens.take(k) =~= tokens);
    }
}

} // verus!
