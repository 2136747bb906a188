//! The configuration from which providers are built, and the environment in
//! which they are built.

use vstd::prelude::*;
use vstd::string::StringExecFns;
use crate::error::{CliError, CliErrorView};
use crate::gpt_oss_safeguard::GptOssSafeguardConfig;
use crate::input::InputGuardrailConfig;
use crate::llama_guard::{all_categories, LlamaGuardCategory, LlamaGuardConfig};
use crate::output::{
    OutputGuardrailConfig, DEFAULT_MIN_QUALITY_MILLIONTHS, MAX_OUTPUT_BYTES,
};
use crate::provider::{Score, Severity};
use crate::regex_guardrail::DEFAULT_MAX_LENGTH_BYTES;
use crate::text::same_text;

verus! {

/// How the children of a composite are run.
#[derive(Debug, Clone, Copy, PartialEq, Eq, Structural, Hash)]
pub enum ExecutionMode {
    /// One after the other, stopping as soon as the outcome is decided.
    Sequential,
    /// All of them, independently of each other.
    Parallel,
}

impl Default for ExecutionMode {
    fn default() -> (r: Self)
        ensures
            r == ExecutionMode::Parallel,
    {
        ExecutionMode::Parallel
    }
}

/// How the results of the children of a composite are combined.
#[derive(Debug, Clone, Copy, PartialEq, Eq, Structural, Hash)]
pub enum AggregationMode {
    /// The composite passes only if every child passes.
    AllMustPass,
    /// The composite passes if some child passes.
    AnyCanPass,
}

impl Default for AggregationMode {
    fn default() -> (r: Self)
        ensures
            r == AggregationMode::AllMustPass,
    {
        AggregationMode::AllMustPass
    }
}

/// What a provider is built from: one variant for each kind of provider.
#[derive(Debug)]
pub enum GuardrailProviderConfig {
    /// A pattern-match provider.
    Regex { max_length_bytes: usize, patterns_file: Option<String>, severity_threshold: Severity },
    /// A category-taxonomy classifier.
    LlamaGuard {
        api_url: String,
        model: String,
        timeout_secs: u64,
        enabled_categories: Vec<LlamaGuardCategory>,
        api_key: Option<String>,
        api_key_name: Option<String>,
    },
    /// A policy-reasoning classifier.
    GptOssSafeguard {
        api_url: String,
        model: String,
        policy: String,
        timeout_secs: u64,
        api_key: Option<String>,
        api_key_name: Option<String>,
    },
    /// A confidence-threshold classifier.
    LlamaPromptGuard {
        api_url: String,
        model: String,
        timeout_secs: u64,
        threshold: Score,
        api_key: Option<String>,
        api_key_name: Option<String>,
    },
    /// A composite of other providers.
    Composite {
        providers: Vec<GuardrailProviderConfig>,
        execution: ExecutionMode,
        aggregation: AggregationMode,
    },
}

/// The configuration of the guardrails of one direction.
#[derive(Debug)]
pub struct GuardrailConfig {
    pub provider: GuardrailProviderConfig,
}

impl From<InputGuardrailConfig> for GuardrailConfig {
    /// The configuration of a pattern-match provider with the ceiling, the
    /// rule file and the threshold of `old`.
    fn from(old: InputGuardrailConfig) -> (r: Self) {
        GuardrailConfig {
            provider: GuardrailProviderConfig::Regex {
                max_length_bytes: old.max_length_bytes,
                patterns_file: old.custom_patterns_file,
                severity_threshold: old.severity_threshold,
            },
        }
    }
}

impl vstd::std_specs::convert::FromSpecImpl<InputGuardrailConfig> for GuardrailConfig {
    open spec fn obeys_from_spec() -> bool {
        true
    }

    open spec fn from_spec(old: InputGuardrailConfig) -> Self {
        GuardrailConfig {
            provider: GuardrailProviderConfig::Regex {
                max_length_bytes: old.max_length_bytes,
                patterns_file: old.custom_patterns_file,
                severity_threshold: old.severity_threshold,
            },
        }
    }
}

impl GuardrailProviderConfig {
    /// The configuration of the category-taxonomy classifier that this
    /// configuration is for, if it is for one. The credential is the key
    /// that is given directly.
    pub fn to_llama_guard_config(&self) -> (r: Option<LlamaGuardConfig>)
        ensures
            match *self {
                GuardrailProviderConfig::LlamaGuard {
                    api_url,
                    model,
                    timeout_secs,
                    enabled_categories,
                    api_key,
                    ..
                } => r matches Some(c) && c.api_url@ == api_url@ && c.model@ == model@
                    && c.enabled_categories@ == enabled_categories@ && c.timeout_secs
                    == timeout_secs && c.api_key.deep_view() == api_key.deep_view(),
                _ => r is None,
            },
    {
        match self {
            GuardrailProviderConfig::LlamaGuard {
                api_url,
                model,
                timeout_secs,
                enabled_categories,
                api_key,
                ..
            } => {
                let categories = enabled_categories.clone();
                assert(categories@ =~= enabled_categories@);
                Some(
                    LlamaGuardConfig {
                        api_url: api_url.clone(),
                        model: model.clone(),
                        enabled_categories: categories,
                        timeout_secs: *timeout_secs,
                        api_key: api_key.clone(),
                    },
                )
            },
            _ => None,
        }
    }

    /// The configuration of the policy-reasoning classifier that this
    /// configuration is for, if it is for one. The credential is the key
    /// that is given directly.
    pub fn to_gpt_oss_safeguard_config(&self) -> (r: Option<GptOssSafeguardConfig>)
        ensures
            match *self {
                GuardrailProviderConfig::GptOssSafeguard {
                    api_url,
                    model,
                    policy,
                    timeout_secs,
                    api_key,
                    ..
                } => r matches Some(c) && c.api_url@ == api_url@ && c.model@ == model@ && c.policy@
                    == policy@ && c.timeout_secs == timeout_secs && c.api_key.deep_view()
                    == api_key.deep_view(),
                _ => r is None,
            },
    {
        match self {
            GuardrailProviderConfig::GptOssSafeguard {
                api_url,
                model,
                policy,
                timeout_secs,
                api_key,
                ..
            } => Some(
                GptOssSafeguardConfig {
                    api_url: api_url.clone(),
                    model: model.clone(),
                    policy: policy.clone(),
                    timeout_secs: *timeout_secs,
                    api_key: api_key.clone(),
                },
            ),
            _ => None,
        }
    }

    /// The configuration of the input provider that this configuration is
    /// for, if it is for a pattern-match provider: all built-in rules in
    /// use and no ceiling on the token estimate.
    pub fn to_input_config(&self) -> (r: Option<InputGuardrailConfig>)
        ensures
            match *self {
                GuardrailProviderConfig::Regex {
                    max_length_bytes,
                    patterns_file,
                    severity_threshold,
                } => r matches Some(c) && c.max_length_bytes == max_length_bytes
                    && c.max_tokens_estimated == usize::MAX && c.check_pii
                    && c.check_content_filters && c.severity_threshold == severity_threshold
                    && c.custom_patterns_file.deep_view() == patterns_file.deep_view(),
                _ => r is None,
            },
    {
        match self {
            GuardrailProviderConfig::Regex {
                max_length_bytes,
                patterns_file,
                severity_threshold,
            } => Some(
                InputGuardrailConfig {
                    max_length_bytes: *max_length_bytes,
                    max_tokens_estimated: usize::MAX,
                    check_pii: true,
                    check_content_filters: true,
                    severity_threshold: *severity_threshold,
                    custom_patterns_file: patterns_file.clone(),
                },
            ),
            _ => None,
        }
    }
}

/// What a provider for content that a model produced is built from.
#[derive(Debug)]
pub enum OutputGuardrailProviderConfig {
    /// A pattern-match provider for output.
    Regex {
        max_length_bytes: usize,
        check_safety: bool,
        check_hallucination: bool,
        check_format: bool,
        min_quality_score: Score,
        custom_patterns_file: Option<String>,
    },
    /// A category-taxonomy classifier.
    LlamaGuard {
        api_url: String,
        model: String,
        timeout_secs: u64,
        enabled_categories: Vec<LlamaGuardCategory>,
        api_key: Option<String>,
        api_key_name: Option<String>,
    },
    /// A policy-reasoning classifier.
    GptOssSafeguard {
        api_url: String,
        model: String,
        policy: String,
        timeout_secs: u64,
        api_key: Option<String>,
        api_key_name: Option<String>,
    },
    /// A composite of other providers.
    Composite {
        providers: Vec<OutputGuardrailProviderConfig>,
        execution: ExecutionMode,
        aggregation: AggregationMode,
    },
}

impl Default for OutputGuardrailProviderConfig {
    /// A pattern-match provider with every check in use.
    fn default() -> (r: Self)
        ensures
            r matches OutputGuardrailProviderConfig::Regex {
                max_length_bytes,
                check_safety,
                check_hallucination,
                check_format,
                min_quality_score,
                custom_patterns_file,
            } && max_length_bytes == MAX_OUTPUT_BYTES && check_safety && check_hallucination
                && check_format && min_quality_score.millionths == DEFAULT_MIN_QUALITY_MILLIONTHS
                && custom_patterns_file is None,
    {
        OutputGuardrailProviderConfig::Regex {
            max_length_bytes: MAX_OUTPUT_BYTES,
            check_safety: true,
            check_hallucination: true,
            check_format: true,
            min_quality_score: Score::from_millionths(DEFAULT_MIN_QUALITY_MILLIONTHS),
            custom_patterns_file: None,
        }
    }
}

impl OutputGuardrailProviderConfig {
    /// The configuration of the output provider that this configuration is
    /// for, if it is for a pattern-match provider.
    pub fn to_output_config(&self) -> (r: Option<OutputGuardrailConfig>)
        ensures
            match *self {
                OutputGuardrailProviderConfig::Regex {
                    max_length_bytes,
                    check_safety,
                    check_hallucination,
                    check_format,
                    min_quality_score,
                    custom_patterns_file,
                } => r matches Some(c) && c.max_length_bytes == max_length_bytes && c.check_safety
                    == check_safety && c.check_hallucination == check_hallucination
                    && c.check_format == check_format && c.min_quality_score == min_quality_score
                    && c.custom_patterns_file.deep_view() == custom_patterns_file.deep_view(),
                _ => r is None,
            },
    {
        match self {
            OutputGuardrailProviderConfig::Regex {
                max_length_bytes,
                check_safety,
                check_hallucination,
                check_format,
                min_quality_score,
                custom_patterns_file,
            } => Some(
                OutputGuardrailConfig {
                    max_length_bytes: *max_length_bytes,
                    check_safety: *check_safety,
                    check_hallucination: *check_hallucination,
                    check_format: *check_format,
                    min_quality_score: *min_quality_score,
                    custom_patterns_file: custom_patterns_file.clone(),
                },
            ),
            _ => None,
        }
    }
}

impl GuardrailProviderConfig {
    /// The paths of the rule files that the configuration names, in the
    /// order of the providers that name them.
    pub open spec fn named_rule_files(self) -> Seq<Seq<char>>
        decreases self, 1nat, 0nat,
    {
        match self {
            GuardrailProviderConfig::Regex { patterns_file, .. } => match patterns_file {
                Some(path) => seq![path@],
                None => Seq::empty(),
            },
            GuardrailProviderConfig::Composite { providers, .. } => self.children_rule_files(
                providers.len() as nat,
            ),
            _ => Seq::empty(),
        }
    }

    /// The paths of the rule files that the first `upto` children of a
    /// composite name.
    pub open spec fn children_rule_files(self, upto: nat) -> Seq<Seq<char>>
        decreases self, 0nat, upto,
    {
        match self {
            GuardrailProviderConfig::Composite { providers, .. } => {
                if upto == 0 || upto > providers.len() {
                    Seq::empty()
                } else {
                    self.children_rule_files((upto - 1) as nat) + providers[upto
                        - 1].named_rule_files()
                }
            },
            _ => Seq::empty(),
        }
    }

    /// The paths of the rule files that the configuration names: what has
    /// to be read before the providers can be built.
    pub fn rule_files(&self) -> (r: Vec<String>)
        ensures
            r.deep_view() == self.named_rule_files(),
        decreases self,
    {
        let mut paths: Vec<String> = Vec::new();
        match self {
            GuardrailProviderConfig::Regex { patterns_file, .. } => {
                match patterns_file {
                    Some(path) => {
                        paths.push(path.clone());
                        assert(paths.deep_view() =~= seq![path@]);
                    },
                    None => {
                        assert(paths.deep_view() =~= Seq::<Seq<char>>::empty());
                    },
                }
            },
            GuardrailProviderConfig::Composite { providers, .. } => {
                let mut i: usize = 0;
                assert(paths.deep_view() =~= Seq::<Seq<char>>::empty());
                while i < providers.len()
                    invariant
                        i <= providers.len(),
                        self matches GuardrailProviderConfig::Composite { providers: p, .. } && p
                            == providers,
                        paths.deep_view() == self.children_rule_files(i as nat),
                    decreases providers.len() - i,
                {
                    let ghost before = paths.deep_view();
                    let mut more = providers[i].rule_files();
                    let ghost added = more.deep_view();
                    paths.append(&mut more);
                    assert(paths.deep_view() =~= before + added);
                    i += 1;
                }
            },
            _ => {
                assert(paths.deep_view() =~= Seq::<Seq<char>>::empty());
            },
        }
        paths
    }
}

impl OutputGuardrailProviderConfig {
    /// The paths of the rule files that the configuration names, in the
    /// order of the providers that name them.
    pub open spec fn named_rule_files(self) -> Seq<Seq<char>>
        decreases self, 1nat, 0nat,
    {
        match self {
            OutputGuardrailProviderConfig::Regex { custom_patterns_file, .. } => {
                match custom_patterns_file {
                    Some(path) => seq![path@],
                    None => Seq::empty(),
                }
            },
            OutputGuardrailProviderConfig::Composite { providers, .. } => {
                self.children_rule_files(providers.len() as nat)
            },
            _ => Seq::empty(),
        }
    }

    /// The paths of the rule files that the first `upto` children of a
    /// composite name.
    pub open spec fn children_rule_files(self, upto: nat) -> Seq<Seq<char>>
        decreases self, 0nat, upto,
    {
        match self {
            OutputGuardrailProviderConfig::Composite { providers, .. } => {
                if upto == 0 || upto > providers.len() {
                    Seq::empty()
                } else {
                    self.children_rule_files((upto - 1) as nat) + providers[upto
                        - 1].named_rule_files()
                }
            },
            _ => Seq::empty(),
        }
    }

    /// The paths of the rule files that the configuration names: what has
    /// to be read before the providers can be built.
    pub fn rule_files(&self) -> (r: Vec<String>)
        ensures
            r.deep_view() == self.named_rule_files(),
        decreases self,
    {
        let mut paths: Vec<String> = Vec::new();
        match self {
            OutputGuardrailProviderConfig::Regex { custom_patterns_file, .. } => {
                match custom_patterns_file {
                    Some(path) => {
                        paths.push(path.clone());
                        assert(paths.deep_view() =~= seq![path@]);
                    },
                    None => {
                        assert(paths.deep_view() =~= Seq::<Seq<char>>::empty());
                    },
                }
            },
            OutputGuardrailProviderConfig::Composite { providers, .. } => {
                let mut i: usize = 0;
                assert(paths.deep_view() =~= Seq::<Seq<char>>::empty());
                while i < providers.len()
                    invariant
                        i <= providers.len(),
                        self matches OutputGuardrailProviderConfig::Composite {
                            providers: p,
                            ..
                        } && p == providers,
                        paths.deep_view() == self.children_rule_files(i as nat),
                    decreases providers.len() - i,
                {
                    let ghost before = paths.deep_view();
                    let mut more = providers[i].rule_files();
                    let ghost added = more.deep_view();
                    paths.append(&mut more);
                    assert(paths.deep_view() =~= before + added);
                    i += 1;
                }
            },
            _ => {
                assert(paths.deep_view() =~= Seq::<Seq<char>>::empty());
            },
        }
        paths
    }
}

/// The threshold of a confidence-threshold classifier, where none is
/// configured: 0.5.
pub fn default_prompt_guard_threshold() -> (r: Score)
    ensures
        r.millionths == 500_000,
{
    Score::from_millionths(500_000)
}

/// The categories of a category-taxonomy classifier, where none are
/// configured: all of them.
pub fn default_llama_guard_categories() -> (r: Vec<LlamaGuardCategory>)
    ensures
        r@ == all_categories(),
{
    LlamaGuardCategory::all()
}

impl Default for GuardrailProviderConfig {
    /// A parallel composite of a pattern-match provider and a
    /// category-taxonomy classifier, of which all must pass.
    fn default() -> (r: Self)
        ensures
            r matches GuardrailProviderConfig::Composite { providers, execution, aggregation }
                && execution == ExecutionMode::Parallel && aggregation
                == AggregationMode::AllMustPass && providers.len() == 2,
            r->providers[0] matches GuardrailProviderConfig::Regex {
                max_length_bytes,
                patterns_file,
                severity_threshold,
            } && max_length_bytes == DEFAULT_MAX_LENGTH_BYTES && patterns_file is None
                && severity_threshold == Severity::Critical,
            r->providers[1] matches GuardrailProviderConfig::LlamaGuard {
                api_url,
                model,
                timeout_secs,
                enabled_categories,
                api_key,
                api_key_name,
            } && api_url@ == "http://localhost:11434/api/generate"@ && model@ == "llama-guard3:8b"@
                && timeout_secs == 30 && enabled_categories@ == all_categories() && api_key is None
                && api_key_name is None,
    {
        let mut providers: Vec<GuardrailProviderConfig> = Vec::new();
        providers.push(
            GuardrailProviderConfig::Regex {
                max_length_bytes: DEFAULT_MAX_LENGTH_BYTES,
                patterns_file: None,
                severity_threshold: Severity::Critical,
            },
        );
        providers.push(
            GuardrailProviderConfig::LlamaGuard {
                api_url: String::from_str("http://localhost:11434/api/generate"),
                model: String::from_str("llama-guard3:8b"),
                timeout_secs: 30,
                enabled_categories: LlamaGuardCategory::all(),
                api_key: None,
                api_key_name: None,
            },
        );
        GuardrailProviderConfig::Composite {
            providers,
            execution: ExecutionMode::Parallel,
            aggregation: AggregationMode::AllMustPass,
        }
    }
}

/// What providers are built in: the variables of the process environment
/// and the text of the rule files that can be read, both as they were when
/// the environment was taken.
#[derive(Debug)]
pub struct Environment {
    /// Names and values of the environment variables.
    pub variables: Vec<(String, String)>,
    /// Paths and texts of the rule files.
    pub files: Vec<(String, String)>,
}

/// The second part of the first pair whose first part is `key`.
pub open spec fn looked_up(pairs: Seq<(String, String)>, key: Seq<char>) -> Option<Seq<char>>
    decreases pairs.len(),
{
    if pairs.len() == 0 {
        None
    } else if pairs[0].0@ == key {
        Some(pairs[0].1@)
    } else {
        looked_up(pairs.drop_first(), key)
    }
}

fn look_up<'a>(pairs: &'a Vec<(String, String)>, key: &str) -> (r: Option<&'a String>)
    ensures
        r.deep_view() == looked_up(pairs@, key@),
{
    let mut i: usize = 0;
    assert(pairs@.skip(0) =~= pairs@);
    while i < pairs.len()
        invariant
            i <= pairs.len(),
            looked_up(pairs@, key@) == looked_up(pairs@.skip(i as int), key@),
        decreases pairs.len() - i,
    {
        assert(pairs@.skip(i as int).drop_first() =~= pairs@.skip(i + 1));
        let entry = &pairs[i];
        if same_text(entry.0.as_str(), key) {
            return Some(&entry.1);
        }
        i += 1;
    }
    None
}

impl Environment {
    /// An environment without variables and without files.
    pub fn empty() -> (r: Self)
        ensures
            r.variables@.len() == 0,
            r.files@.len() == 0,
    {
        Environment { variables: Vec::new(), files: Vec::new() }
    }

    /// The value of the variable `name`, if it is set.
    pub open spec fn variable_value(&self, name: Seq<char>) -> Option<Seq<char>> {
        looked_up(self.variables@, name)
    }

    /// The text of the rule file at `path`, if it could be read.
    pub open spec fn file_text(&self, path: Seq<char>) -> Option<Seq<char>> {
        looked_up(self.files@, path)
    }

    /// The value of the variable `name`, if it is set.
    pub fn variable(&self, name: &str) -> (r: Option<&String>)
        ensures
            r.deep_view() == self.variable_value(name@),
    {
        look_up(&self.variables, name)
    }

    /// The text of the rule file at `path`, if it could be read.
    pub fn file(&self, path: &str) -> (r: Option<&String>)
        ensures
            r.deep_view() == self.file_text(path@),
    {
        look_up(&self.files, path)
    }
}

pub open spec fn both_keys_fault(provider: Seq<char>) -> Seq<char> {
    "Guardrail provider '"@ + provider + "' cannot specify both 'api_key' and 'api_key_name'"@
}

pub open spec fn missing_variable_fault(provider: Seq<char>, name: Seq<char>) -> Seq<char> {
    "Guardrail provider '"@ + provider + "': Environment variable '"@ + name
        + "' specified by 'api_key_name' does not exist"@
}

/// The credential that a configuration amounts to: the key itself, or the
/// value of the variable that it names, or none. It is a fault to give both
/// a key and a name, and to name a variable that is not set.
pub open spec fn resolved_key(
    api_key: Option<Seq<char>>,
    api_key_name: Option<Seq<char>>,
    provider: Seq<char>,
    env: Environment,
) -> Result<Option<Seq<char>>, CliErrorView> {
    match (api_key, api_key_name) {
        (Some(_), Some(_)) => Err(CliErrorView::InvalidArguments(both_keys_fault(provider))),
        (Some(key), None) => Ok(Some(key)),
        (None, Some(name)) => match env.variable_value(name) {
            Some(value) => Ok(Some(value)),
            None => Err(CliErrorView::InvalidArguments(missing_variable_fault(provider, name))),
        },
        (None, None) => Ok(None),
    }
}

/// Resolves the credential of the provider called `provider_name`.
pub fn resolve_api_key(
    api_key: &Option<String>,
    api_key_name: &Option<String>,
    provider_name: &str,
    env: &Environment,
) -> (r: Result<Option<String>, CliError>)
    ensures
        match r {
            Ok(key) => resolved_key(
                api_key.deep_view(),
                api_key_name.deep_view(),
                provider_name@,
                *env,
            ) == Ok::<Option<Seq<char>>, CliErrorView>(key.deep_view()),
            Err(e) => resolved_key(
                api_key.deep_view(),
                api_key_name.deep_view(),
                provider_name@,
                *env,
            ) == Err::<Option<Seq<char>>, CliErrorView>(e.deep_view()),
        },
{
    match (api_key, api_key_name) {
        (Some(_), Some(_)) => {
            let mut m = String::from_str("Guardrail provider '");
            m.append(provider_name);
            m.append("' cannot specify both 'api_key' and 'api_key_name'");
            Err(CliError::InvalidArguments(m))
        },
        (Some(key), None) => Ok(Some(key.clone())),
        (None, Some(name)) => match env.variable(name.as_str()) {
            Some(value) => Ok(Some(value.clone())),
            None => {
                let mut m = String::from_str("Guardrail provider '");
                m.append(provider_name);
                m.append("': Environment variable '");
                m.append(name.as_str());
                m.append("' specified by 'api_key_name' does not exist");
                Err(CliError::InvalidArguments(m))
            },
        },
        (None, None) => Ok(None),
    }
}

} // verus!
