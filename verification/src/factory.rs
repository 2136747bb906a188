//! Building providers from their configuration.

use vstd::prelude::*;
use vstd::string::StringExecFns;
use crate::config::{
    resolve_api_key, resolved_key, Environment, GuardrailProviderConfig,
    OutputGuardrailProviderConfig,
};
use crate::error::{CliError, CliErrorView};
use crate::gpt_oss_safeguard::{GptOssSafeguardConfig, GptOssSafeguardProvider};
use crate::hybrid::{GuardrailProvider, HybridGuardrail};
use crate::input::{
    for_input, InputGuardrail, InputGuardrailConfig, DEFAULT_INPUT_PATTERNS,
};
use crate::llama_guard::{LlamaGuardConfig, LlamaGuardProvider};
use crate::llama_prompt_guard::{LlamaPromptGuardConfig, LlamaPromptGuardProvider};
use crate::output::{
    for_output, OutputGuardrail, OutputGuardrailConfig, DEFAULT_OUTPUT_PATTERNS,
};
use crate::provider::Severity;
use crate::regex_guardrail::loaded_patterns;

verus! {

/// The text of the rule file that a configuration names, as far as the
/// environment holds it.
pub open spec fn source_text(patterns_file: Option<String>, env: Environment) -> Option<Seq<char>> {
    match patterns_file {
        None => None,
        Some(path) => env.file_text(path@),
    }
}

/// The fault of a credential, if it has one.
pub open spec fn key_fault(
    api_key: Option<String>,
    api_key_name: Option<String>,
    provider: Seq<char>,
    env: Environment,
) -> Option<CliErrorView> {
    match resolved_key(api_key.deep_view(), api_key_name.deep_view(), provider, env) {
        Ok(_) => None,
        Err(e) => Some(e),
    }
}

impl GuardrailProviderConfig {
    /// The fault that keeps a provider from being built from this
    /// configuration in `env`, if there is one: that of its credential, or,
    /// for a composite, the fault of the first child that has one.
    pub open spec fn fault(self, env: Environment) -> Option<CliErrorView>
        decreases self, 1nat, 0nat,
    {
        match self {
            GuardrailProviderConfig::Regex { .. } => None,
            GuardrailProviderConfig::LlamaGuard { api_key, api_key_name, .. } => key_fault(
                api_key,
                api_key_name,
                "LlamaGuard"@,
                env,
            ),
            GuardrailProviderConfig::GptOssSafeguard { api_key, api_key_name, .. } => key_fault(
                api_key,
                api_key_name,
                "GptOssSafeguard"@,
                env,
            ),
            GuardrailProviderConfig::LlamaPromptGuard { api_key, api_key_name, .. } => key_fault(
                api_key,
                api_key_name,
                "LlamaPromptGuard"@,
                env,
            ),
            GuardrailProviderConfig::Composite { providers, .. } => self.children_fault(
                env,
                providers.len() as nat,
            ),
        }
    }

    /// The fault of the first of the first `upto` children of a composite
    /// that has one.
    pub open spec fn children_fault(self, env: Environment, upto: nat) -> Option<CliErrorView>
        decreases self, 0nat, upto,
    {
        match self {
            GuardrailProviderConfig::Composite { providers, .. } => {
                if upto == 0 || upto > providers.len() {
                    None
                } else {
                    match self.children_fault(env, (upto - 1) as nat) {
                        Some(e) => Some(e),
                        None => providers[upto - 1].fault(env),
                    }
                }
            },
            _ => None,
        }
    }

    /// Whether `provider` is the provider that this configuration stands
    /// for in `env`. A pattern-match configuration stands for an input
    /// provider with the built-in rules and the rules of its file, all of
    /// its built-in rules in use and no ceiling on the token estimate. A
    /// classifier configuration stands for its classifier, with the
    /// credential resolved. A composite stands for the composite of what
    /// its children stand for, in their order.
    pub open spec fn built_as(self, provider: GuardrailProvider, env: Environment) -> bool
        decreases self,
    {
        match self {
            GuardrailProviderConfig::Regex {
                max_length_bytes,
                patterns_file,
                severity_threshold,
            } => {
                &&& provider matches GuardrailProvider::Input(g)
                &&& g.config.max_length_bytes == max_length_bytes
                &&& g.config.max_tokens_estimated == usize::MAX
                &&& g.config.check_pii
                &&& g.config.check_content_filters
                &&& g.config.severity_threshold == severity_threshold
                &&& g.config.custom_patterns_file.deep_view() == patterns_file.deep_view()
                &&& g.default_patterns.deep_view() == for_input(
                    loaded_patterns(Some(DEFAULT_INPUT_PATTERNS@)),
                )
                &&& g.custom_patterns.deep_view() == for_input(
                    loaded_patterns(source_text(patterns_file, env)),
                )
            },
            GuardrailProviderConfig::LlamaGuard {
                api_url,
                model,
                timeout_secs,
                enabled_categories,
                api_key,
                api_key_name,
            } => {
                &&& provider matches GuardrailProvider::LlamaGuard(g)
                &&& g.config.api_url@ == api_url@
                &&& g.config.model@ == model@
                &&& g.config.enabled_categories@ == enabled_categories@
                &&& g.config.timeout_secs == timeout_secs
                &&& resolved_key(
                    api_key.deep_view(),
                    api_key_name.deep_view(),
                    "LlamaGuard"@,
                    env,
                ) == Ok::<Option<Seq<char>>, CliErrorView>(g.config.api_key.deep_view())
            },
            GuardrailProviderConfig::GptOssSafeguard {
                api_url,
                model,
                policy,
                timeout_secs,
                api_key,
                api_key_name,
            } => {
                &&& provider matches GuardrailProvider::GptOssSafeguard(g)
                &&& g.config.api_url@ == api_url@
                &&& g.config.model@ == model@
                &&& g.config.policy@ == policy@
                &&& g.config.timeout_secs == timeout_secs
                &&& resolved_key(
                    api_key.deep_view(),
                    api_key_name.deep_view(),
                    "GptOssSafeguard"@,
                    env,
                ) == Ok::<Option<Seq<char>>, CliErrorView>(g.config.api_key.deep_view())
            },
            GuardrailProviderConfig::LlamaPromptGuard {
                api_url,
                model,
                timeout_secs,
                threshold,
                api_key,
                api_key_name,
            } => {
                &&& provider matches GuardrailProvider::LlamaPromptGuard(g)
                &&& g.config.api_url@ == api_url@
                &&& g.config.model@ == model@
                &&& g.config.timeout_secs == timeout_secs
                &&& g.config.threshold == threshold
                &&& g.config.api_key_name is None
                &&& resolved_key(
                    api_key.deep_view(),
                    api_key_name.deep_view(),
                    "LlamaPromptGuard"@,
                    env,
                ) == Ok::<Option<Seq<char>>, CliErrorView>(g.config.api_key.deep_view())
            },
            GuardrailProviderConfig::Composite { providers, execution, aggregation } => {
                &&& provider matches GuardrailProvider::Composite(h)
                &&& h.execution == execution
                &&& h.aggregation == aggregation
                &&& h.providers.len() == providers.len()
                &&& forall|i: int|
                    0 <= i < providers.len() ==> (#[trigger] providers[i]).built_as(
                        h.providers[i],
                        env,
                    )
            },
        }
    }
}

/// Once one of the first children has a fault, the composite has that
/// fault.
proof fn lemma_children_fault_stays(config: GuardrailProviderConfig, env: Environment, k: nat)
    requires
        config matches GuardrailProviderConfig::Composite { providers, .. } && k <= providers.len(),
        config.children_fault(env, k) is Some,
    ensures
        config.fault(env) == config.children_fault(env, k),
    decreases config->providers.len() - k,
{
    let n = config->providers.len() as nat;
    if k < n {
        lemma_children_fault_stays(config, env, k + 1);
    }
}

/// Builds the provider that `config` stands for, children before their
/// composite and in their order. The environment supplies what the
/// configuration only names: the values of variables that hold credentials,
/// and the text of rule files. The first fault met ends the construction.
pub fn create_guardrail_provider(config: &GuardrailProviderConfig, env: &Environment) -> (r: Result<
    GuardrailProvider,
    CliError,
>)
    ensures
        match r {
            Ok(provider) => config.fault(*env) is None && config.built_as(provider, *env),
            Err(e) => config.fault(*env) == Some(e.deep_view()),
        },
    decreases config,
{
    match config {
        GuardrailProviderConfig::Regex { max_length_bytes, patterns_file, severity_threshold } => {
            let source: Option<&String> = match patterns_file {
                None => None,
                Some(path) => env.file(path.as_str()),
            };
            let input_config = InputGuardrailConfig {
                max_length_bytes: *max_length_bytes,
                max_tokens_estimated: usize::MAX,
                check_pii: true,
                check_content_filters: true,
                severity_threshold: *severity_threshold,
                custom_patterns_file: patterns_file.clone(),
            };
            let text: Option<&str> = match source {
                None => None,
                Some(s) => Some(s.as_str()),
            };
            assert(text.deep_view() == source_text(*patterns_file, *env));
            Ok(GuardrailProvider::Input(InputGuardrail::new(input_config, text)))
        },
        GuardrailProviderConfig::LlamaGuard {
            api_url,
            model,
            timeout_secs,
            enabled_categories,
            api_key,
            api_key_name,
        } => {
            let resolved = match resolve_api_key(api_key, api_key_name, "LlamaGuard", env) {
                Ok(key) => key,
                Err(e) => {
                    return Err(e);
                },
            };
            let categories = enabled_categories.clone();
            assert(categories@ =~= enabled_categories@);
            Ok(
                GuardrailProvider::LlamaGuard(
                    LlamaGuardProvider::new(
                        LlamaGuardConfig {
                            api_url: api_url.clone(),
                            model: model.clone(),
                            enabled_categories: categories,
                            timeout_secs: *timeout_secs,
                            api_key: resolved,
                        },
                    ),
                ),
            )
        },
        GuardrailProviderConfig::GptOssSafeguard {
            api_url,
            model,
            policy,
            timeout_secs,
            api_key,
            api_key_name,
        } => {
            let resolved = match resolve_api_key(api_key, api_key_name, "GptOssSafeguard", env) {
                Ok(key) => key,
                Err(e) => {
                    return Err(e);
                },
            };
            Ok(
                GuardrailProvider::GptOssSafeguard(
                    GptOssSafeguardProvider::new(
                        GptOssSafeguardConfig {
                            api_url: api_url.clone(),
                            model: model.clone(),
                            policy: policy.clone(),
                            timeout_secs: *timeout_secs,
                            api_key: resolved,
                        },
                    ),
                ),
            )
        },
        GuardrailProviderConfig::LlamaPromptGuard {
            api_url,
            model,
            timeout_secs,
            threshold,
            api_key,
            api_key_name,
        } => {
            let resolved = match resolve_api_key(api_key, api_key_name, "LlamaPromptGuard", env) {
                Ok(key) => key,
                Err(e) => {
                    return Err(e);
                },
            };
            Ok(
                GuardrailProvider::LlamaPromptGuard(
                    LlamaPromptGuardProvider::new(
                        LlamaPromptGuardConfig {
                            api_url: api_url.clone(),
                            model: model.clone(),
                            timeout_secs: *timeout_secs,
                            threshold: *threshold,
                            api_key: resolved,
                            api_key_name: None,
                        },
                    ),
                ),
            )
        },
        GuardrailProviderConfig::Composite { providers, execution, aggregation } => {
            let mut built: Vec<GuardrailProvider> = Vec::new();
            let mut i: usize = 0;
            while i < providers.len()
                invariant
                    i <= providers.len(),
                    config matches GuardrailProviderConfig::Composite { providers: p, .. } && p
                        == providers,
                    built.len() == i,
                    config.children_fault(*env, i as nat) is None,
                    forall|k: int|
                        0 <= k < i ==> (#[trigger] providers[k]).built_as(built[k], *env),
                decreases providers.len() - i,
            {
                match create_guardrail_provider(&providers[i], env) {
                    Ok(child) => {
                        built.push(child);
                    },
                    Err(e) => {
                        proof {
                            assert(config.children_fault(*env, (i + 1) as nat) == Some(
                                e.deep_view(),
                            ));
                            lemma_children_fault_stays(*config, *env, (i + 1) as nat);
                        }
                        return Err(e);
                    },
                }
                i += 1;
            }
            Ok(GuardrailProvider::Composite(HybridGuardrail::new(built, *execution, *aggregation)))
        },
    }
}

impl OutputGuardrailProviderConfig {
    /// The fault that keeps a provider from being built from this
    /// configuration in `env`, if there is one: that of its credential, or,
    /// for a composite, the fault of the first child that has one.
    pub open spec fn fault(self, env: Environment) -> Option<CliErrorView>
        decreases self, 1nat, 0nat,
    {
        match self {
            OutputGuardrailProviderConfig::Regex { .. } => None,
            OutputGuardrailProviderConfig::LlamaGuard { api_key, api_key_name, .. } => key_fault(
                api_key,
                api_key_name,
                "LlamaGuard (output)"@,
                env,
            ),
            OutputGuardrailProviderConfig::GptOssSafeguard { api_key, api_key_name, .. } => {
                key_fault(api_key, api_key_name, "GptOssSafeguard (output)"@, env)
            },
            OutputGuardrailProviderConfig::Composite { providers, .. } => self.children_fault(
                env,
                providers.len() as nat,
            ),
        }
    }

    /// The fault of the first of the first `upto` children of a composite
    /// that has one.
    pub open spec fn children_fault(self, env: Environment, upto: nat) -> Option<CliErrorView>
        decreases self, 0nat, upto,
    {
        match self {
            OutputGuardrailProviderConfig::Composite { providers, .. } => {
                if upto == 0 || upto > providers.len() {
                    None
                } else {
                    match self.children_fault(env, (upto - 1) as nat) {
                        Some(e) => Some(e),
                        None => providers[upto - 1].fault(env),
                    }
                }
            },
            _ => None,
        }
    }

    /// Whether `provider` is the provider that this configuration stands
    /// for in `env`. A pattern-match configuration stands for an output
    /// provider with the built-in rules and the rules of its file. A
    /// classifier configuration stands for its classifier, with the
    /// credential resolved. A composite stands for the composite of what
    /// its children stand for, in their order.
    pub open spec fn built_as(self, provider: GuardrailProvider, env: Environment) -> bool
        decreases self,
    {
        match self {
            OutputGuardrailProviderConfig::Regex {
                max_length_bytes,
                check_safety,
                check_hallucination,
                check_format,
                min_quality_score,
                custom_patterns_file,
            } => {
                &&& provider matches GuardrailProvider::Output(g)
                &&& g.config.max_length_bytes == max_length_bytes
                &&& g.config.check_safety == check_safety
                &&& g.config.check_hallucination == check_hallucination
                &&& g.config.check_format == check_format
                &&& g.config.min_quality_score == min_quality_score
                &&& g.config.custom_patterns_file.deep_view() == custom_patterns_file.deep_view()
                &&& g.default_patterns.deep_view() == for_output(
                    loaded_patterns(Some(DEFAULT_OUTPUT_PATTERNS@)),
                )
                &&& g.custom_patterns.deep_view() == for_output(
                    loaded_patterns(source_text(custom_patterns_file, env)),
                )
            },
            OutputGuardrailProviderConfig::LlamaGuard {
                api_url,
                model,
                timeout_secs,
                enabled_categories,
                api_key,
                api_key_name,
            } => {
                &&& provider matches GuardrailProvider::LlamaGuard(g)
                &&& g.config.api_url@ == api_url@
                &&& g.config.model@ == model@
                &&& g.config.enabled_categories@ == enabled_categories@
                &&& g.config.timeout_secs == timeout_secs
                &&& resolved_key(
                    api_key.deep_view(),
                    api_key_name.deep_view(),
                    "LlamaGuard (output)"@,
                    env,
                ) == Ok::<Option<Seq<char>>, CliErrorView>(g.config.api_key.deep_view())
            },
            OutputGuardrailProviderConfig::GptOssSafeguard {
                api_url,
                model,
                policy,
                timeout_secs,
                api_key,
                api_key_name,
            } => {
                &&& provider matches GuardrailProvider::GptOssSafeguard(g)
                &&& g.config.api_url@ == api_url@
                &&& g.config.model@ == model@
                &&& g.config.policy@ == policy@
                &&& g.config.timeout_secs == timeout_secs
                &&& resolved_key(
                    api_key.deep_view(),
                    api_key_name.deep_view(),
                    "GptOssSafeguard (output)"@,
                    env,
                ) == Ok::<Option<Seq<char>>, CliErrorView>(g.config.api_key.deep_view())
            },
            OutputGuardrailProviderConfig::Composite { providers, execution, aggregation } => {
                &&& provider matches GuardrailProvider::Composite(h)
                &&& h.execution == execution
                &&& h.aggregation == aggregation
                &&& h.providers.len() == providers.len()
                &&& forall|i: int|
                    0 <= i < providers.len() ==> (#[trigger] providers[i]).built_as(
                        h.providers[i],
                        env,
                    )
            },
        }
    }
}

/// Once one of the first children has a fault, the composite has that
/// fault.
proof fn lemma_output_children_fault_stays(
    config: OutputGuardrailProviderConfig,
    env: Environment,
    k: nat,
)
    requires
        config matches OutputGuardrailProviderConfig::Composite { providers, .. } && k
            <= providers.len(),
        config.children_fault(env, k) is Some,
    ensures
        config.fault(env) == config.children_fault(env, k),
    decreases config->providers.len() - k,
{
    let n = config->providers.len() as nat;
    if k < n {
        lemma_output_children_fault_stays(config, env, k + 1);
    }
}

/// Builds the provider for content that a model produced that `config`
/// stands for, children before their composite and in their order. The
/// first fault met ends the construction.
pub fn create_output_guardrail_provider(
    config: &OutputGuardrailProviderConfig,
    env: &Environment,
) -> (r: Result<GuardrailProvider, CliError>)
    ensures
        match r {
            Ok(provider) => config.fault(*env) is None && config.built_as(provider, *env),
            Err(e) => config.fault(*env) == Some(e.deep_view()),
        },
    decreases config,
{
    match config {
        OutputGuardrailProviderConfig::Regex {
            max_length_bytes,
            check_safety,
            check_hallucination,
            check_format,
            min_quality_score,
            custom_patterns_file,
        } => {
            let source: Option<&String> = match custom_patterns_file {
                None => None,
                Some(path) => env.file(path.as_str()),
            };
            let output_config = OutputGuardrailConfig {
                max_length_bytes: *max_length_bytes,
                check_safety: *check_safety,
                check_hallucination: *check_hallucination,
                check_format: *check_format,
                min_quality_score: *min_quality_score,
                custom_patterns_file: custom_patterns_file.clone(),
            };
            let text: Option<&str> = match source {
                None => None,
                Some(s) => Some(s.as_str()),
            };
            assert(text.deep_view() == source_text(*custom_patterns_file, *env));
            Ok(GuardrailProvider::Output(OutputGuardrail::new(output_config, text)))
        },
        OutputGuardrailProviderConfig::LlamaGuard {
            api_url,
            model,
            timeout_secs,
            enabled_categories,
            api_key,
            api_key_name,
        } => {
            let resolved = match resolve_api_key(api_key, api_key_name, "LlamaGuard (output)", env) {
                Ok(key) => key,
                Err(e) => {
                    return Err(e);
                },
            };
            let categories = enabled_categories.clone();
            assert(categories@ =~= enabled_categories@);
            Ok(
                GuardrailProvider::LlamaGuard(
                    LlamaGuardProvider::new(
                        LlamaGuardConfig {
                            api_url: api_url.clone(),
                            model: model.clone(),
                            enabled_categories: categories,
                            timeout_secs: *timeout_secs,
                            api_key: resolved,
                        },
                    ),
                ),
            )
        },
        OutputGuardrailProviderConfig::GptOssSafeguard {
            api_url,
            model,
            policy,
            timeout_secs,
            api_key,
            api_key_name,
        } => {
            let resolved = match resolve_api_key(
                api_key,
                api_key_name,
                "GptOssSafeguard (output)",
                env,
            ) {
                Ok(key) => key,
                Err(e) => {
                    return Err(e);
                },
            };
            Ok(
                GuardrailProvider::GptOssSafeguard(
                    GptOssSafeguardProvider::new(
                        GptOssSafeguardConfig {
                            api_url: api_url.clone(),
                            model: model.clone(),
                            policy: policy.clone(),
                            timeout_secs: *timeout_secs,
                            api_key: resolved,
                        },
                    ),
                ),
            )
        },
        OutputGuardrailProviderConfig::Composite { providers, execution, aggregation } => {
            let mut built: Vec<GuardrailProvider> = Vec::new();
            let mut i: usize = 0;
            while i < providers.len()
                invariant
                    i <= providers.len(),
                    config matches OutputGuardrailProviderConfig::Composite { providers: p, .. }
                        && p == providers,
                    built.len() == i,
                    config.children_fault(*env, i as nat) is None,
                    forall|k: int|
                        0 <= k < i ==> (#[trigger] providers[k]).built_as(built[k], *env),
                decreases providers.len() - i,
            {
                match create_output_guardrail_provider(&providers[i], env) {
                    Ok(child) => {
                        built.push(child);
                    },
                    Err(e) => {
                        proof {
                            assert(config.children_fault(*env, (i + 1) as nat) == Some(
                                e.deep_view(),
                            ));
                            lemma_output_children_fault_stays(*config, *env, (i + 1) as nat);
                        }
                        return Err(e);
                    },
                }
                i += 1;
            }
            Ok(GuardrailProvider::Composite(HybridGuardrail::new(built, *execution, *aggregation)))
        },
    }
}

} // verus!
