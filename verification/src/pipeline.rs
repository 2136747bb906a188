//! The decisions of an evaluation run that do not depend on how anything is
//! fetched or sent: which guardrails are in force, where a prompt comes
//! from, what is said of a failed validation.

use vstd::prelude::*;
use vstd::string::StringExecFns;
use crate::client::ProviderType;
use crate::config::GuardrailProviderConfig;
use crate::error::{CliError, CliErrorView};
use crate::input::MAX_INPUT_BYTES;
use crate::provider::{Severity, Violation, ViolationView};
use crate::text::{append_decimal, decimal, is_text, to_chars, to_lowercase, unicode_lowercase};

verus! {

/// Where a prompt comes from.
#[derive(Debug)]
pub enum PromptSource {
    /// The file at this path holds the prompt.
    File(String),
    /// This text is the prompt.
    Text(String),
}

/// Decides where a prompt comes from. Exactly one of a file and a text must
/// be given.
pub fn prompt_source(file: Option<String>, text: Option<String>) -> (r: Result<
    PromptSource,
    CliError,
>)
    ensures
        match (file, text) {
            (Some(path), None) => r == Ok::<PromptSource, CliError>(PromptSource::File(path)),
            (None, Some(content)) => r == Ok::<PromptSource, CliError>(
                PromptSource::Text(content),
            ),
            (Some(_), Some(_)) => r matches Err(e) && e.deep_view()
                == CliErrorView::InvalidArguments(
                "Cannot provide both file and text for the same prompt"@,
            ),
            (None, None) => r matches Err(e) && e.deep_view() == CliErrorView::InvalidArguments(
                "Must provide either file or text for prompt"@,
            ),
        },
{
    match (file, text) {
        (Some(path), None) => Ok(PromptSource::File(path)),
        (None, Some(content)) => Ok(PromptSource::Text(content)),
        (Some(_), Some(_)) => Err(
            CliError::InvalidArguments(
                String::from_str("Cannot provide both file and text for the same prompt"),
            ),
        ),
        (None, None) => Err(
            CliError::InvalidArguments(
                String::from_str("Must provide either file or text for prompt"),
            ),
        ),
    }
}

/// Decides which input guardrails are in force. Validation that is asked
/// for on the command line wins: it is a pattern-match provider with the
/// built-in rules, the given ceiling on the length or the default one, and
/// only critical findings as violations. Otherwise the guardrails of the
/// configuration file are in force, if it has any.
pub fn configure_guardrails(
    enable_validation: bool,
    max_input_length: Option<usize>,
    file_guardrails: Option<GuardrailProviderConfig>,
) -> (r: Option<GuardrailProviderConfig>)
    ensures
        enable_validation ==> (r matches Some(
            GuardrailProviderConfig::Regex { max_length_bytes, patterns_file, severity_threshold },
        ) && max_length_bytes == (match max_input_length {
            Some(n) => n,
            None => MAX_INPUT_BYTES,
        }) && patterns_file is None && severity_threshold == Severity::Critical),
        !enable_validation ==> r == file_guardrails,
{
    if enable_validation {
        Some(
            GuardrailProviderConfig::Regex {
                max_length_bytes: match max_input_length {
                    Some(n) => n,
                    None => MAX_INPUT_BYTES,
                },
                patterns_file: None,
                severity_threshold: Severity::Critical,
            },
        )
    } else {
        file_guardrails
    }
}

/// The API format that a name in lower case stands for.
pub open spec fn provider_of_lower(lower: Seq<char>) -> Option<ProviderType> {
    if lower == "ollama"@ {
        Some(ProviderType::Ollama)
    } else if lower == "openai"@ {
        Some(ProviderType::OpenAI)
    } else {
        None
    }
}

/// The API format that a name stands for: that of its lower-case form.
pub open spec fn provider_named(name: Seq<char>) -> Option<ProviderType> {
    provider_of_lower(unicode_lowercase(name))
}

/// Reads the name of an API format that is in lower case already: `ollama`
/// or `openai`.
pub fn provider_from_lower(lower: &str) -> (r: Option<ProviderType>)
    ensures
        r == provider_of_lower(lower@),
{
    let n = to_chars(lower);
    if is_text(&n, "ollama") {
        Some(ProviderType::Ollama)
    } else if is_text(&n, "openai") {
        Some(ProviderType::OpenAI)
    } else {
        None
    }
}

/// Reads the name of an API format: `ollama` or `openai`, in any case.
pub fn parse_provider(name: &str) -> (r: Option<ProviderType>)
    ensures
        r == provider_named(name@),
{
    let lower = to_lowercase(name);
    provider_from_lower(lower.as_str())
}

/// One violation in a sentence: its rule, a colon, its message.
pub open spec fn violation_text(v: ViolationView) -> Seq<char> {
    v.rule + ": "@ + v.message
}

/// The violations in one sentence, in their order, with a semicolon between
/// two of them.
pub open spec fn summary_of(violations: Seq<ViolationView>) -> Seq<char>
    decreases violations.len(),
{
    if violations.len() == 0 {
        Seq::empty()
    } else if violations.len() == 1 {
        violation_text(violations[0])
    } else {
        summary_of(violations.drop_last()) + "; "@ + violation_text(violations.last())
    }
}

/// Says in one sentence which violations were found.
pub fn violation_summary(violations: &Vec<Violation>) -> (r: String)
    ensures
        r@ == summary_of(violations.deep_view()),
{
    let ghost all = violations.deep_view();
    let mut out = String::new();
    let mut i: usize = 0;
    assert(all.take(0) =~= Seq::<ViolationView>::empty());
    while i < violations.len()
        invariant
            i <= violations.len(),
            all == violations.deep_view(),
            out@ == summary_of(all.take(i as int)),
        decreases violations.len() - i,
    {
        proof {
            assert(all.take(i + 1).drop_last() =~= all.take(i as int));
            assert(all.take(i + 1).last() == violations@[i as int].deep_view());
            assert(all.take(i + 1)[0] == all[0]);
        }
        if i > 0 {
            out.append("; ");
        }
        out.append(violations[i].rule.as_str());
        out.append(": ");
        out.append(violations[i].message.as_str());
        i += 1;
        assert(out@ =~= summary_of(all.take(i as int)));
    }
    assert(all.take(violations.len() as int) =~= all);
    out
}

pub open spec fn context_fault(required: usize, limit: usize) -> Seq<char> {
    "Context requirement ("@ + decimal(required as nat) + " tokens) exceeds model limit ("@
        + decimal(limit as nat) + " tokens) by "@ + decimal((required - limit) as nat)
        + " tokens"@
}

/// What is said of a request that needs `required` tokens where the model
/// takes `limit`: nothing while it fits, and otherwise by how much it does
/// not.
pub fn context_limit_message(required: usize, limit: usize) -> (r: Option<String>)
    ensures
        required <= limit ==> r is None,
        required > limit ==> (r matches Some(m) && m@ == context_fault(required, limit)),
{
    if required > limit {
        let mut m = String::from_str("Context requirement (");
        append_decimal(&mut m, required as u64);
        m.append(" tokens) exceeds model limit (");
        append_decimal(&mut m, limit as u64);
        m.append(" tokens) by ");
        append_decimal(&mut m, (required - limit) as u64);
        m.append(" tokens");
        Some(m)
    } else {
        None
    }
}

/// Which of the ways of giving a credential and the prompts a
/// configuration file uses.
#[derive(Debug, Clone, Copy)]
pub struct ConfigSources {
    pub api_key: bool,
    pub api_key_name: bool,
    pub system_prompt: bool,
    pub system_prompt_file: bool,
    pub user_prompt: bool,
    pub user_prompt_file: bool,
    pub pdf_file: bool,
}

/// What is wrong with the sources of a configuration file, if anything: a
/// key together with the name of a variable, a system prompt together with a
/// file of one, no system prompt at all, or more than one source of the user
/// prompt. The first of these that holds is the fault.
pub open spec fn sources_fault(sources: ConfigSources) -> Option<Seq<char>> {
    if sources.api_key && sources.api_key_name {
        Some("Config file cannot specify both 'api_key' and 'api_key_name'"@)
    } else if sources.system_prompt && sources.system_prompt_file {
        Some("Config file cannot specify both 'system_prompt' and 'system_prompt_file'"@)
    } else if !sources.system_prompt && !sources.system_prompt_file {
        Some("Config file must specify either 'system_prompt' or 'system_prompt_file'"@)
    } else if (sources.user_prompt && sources.user_prompt_file) || (sources.user_prompt
        && sources.pdf_file) || (sources.user_prompt_file && sources.pdf_file) {
        Some(
            "Config file cannot specify more than one of: 'user_prompt', 'user_prompt_file', 'pdf_file'"@,
        )
    } else {
        None
    }
}

/// Checks that a configuration file gives its credential and each of its
/// prompts in one way only, and a system prompt at all.
pub fn check_config_sources(sources: ConfigSources) -> (r: Result<(), CliError>)
    ensures
        match r {
            Ok(_) => sources_fault(sources) is None,
            Err(e) => sources_fault(sources) matches Some(m) && e.deep_view()
                == CliErrorView::InvalidArguments(m),
        },
{
    if sources.api_key && sources.api_key_name {
        Err(
            CliError::InvalidArguments(
                String::from_str("Config file cannot specify both 'api_key' and 'api_key_name'"),
            ),
        )
    } else if sources.system_prompt && sources.system_prompt_file {
        Err(
            CliError::InvalidArguments(
                String::from_str(
                    "Config file cannot specify both 'system_prompt' and 'system_prompt_file'",
                ),
            ),
        )
    } else if !sources.system_prompt && !sources.system_prompt_file {
        Err(
            CliError::InvalidArguments(
                String::from_str(
                    "Config file must specify either 'system_prompt' or 'system_prompt_file'",
                ),
            ),
        )
    } else if (sources.user_prompt && sources.user_prompt_file) || (sources.user_prompt
        && sources.pdf_file) || (sources.user_prompt_file && sources.pdf_file) {
        Err(
            CliError::InvalidArguments(
                String::from_str(
                    "Config file cannot specify more than one of: 'user_prompt', 'user_prompt_file', 'pdf_file'",
                ),
            ),
        )
    } else {
        Ok(())
    }
}

/// The least number of tokens that a response may be limited to.
pub const MIN_TOKENS: u32 = 1;

/// The least number of seconds that a request may be given.
pub const MIN_TIMEOUT: u64 = 1;

/// The least size of a context window.
pub const MIN_CONTEXT_LIMIT: usize = 100;

pub open spec fn too_small_fault(name: Seq<char>, least: nat, got: nat) -> Seq<char> {
    name + " must be >= "@ + decimal(least) + ", got "@ + decimal(got)
}

/// What is wrong with the limits of a run, if anything: a maximum of tokens,
/// a timeout or a context window below its least value. The first of these
/// that holds is the fault.
pub open spec fn limits_fault(
    max_tokens: Option<u32>,
    timeout_secs: u64,
    context_limit: Option<usize>,
) -> Option<Seq<char>> {
    if max_tokens matches Some(n) && n < MIN_TOKENS {
        Some(too_small_fault("max_tokens"@, MIN_TOKENS as nat, max_tokens->Some_0 as nat))
    } else if timeout_secs < MIN_TIMEOUT {
        Some(too_small_fault("timeout_secs"@, MIN_TIMEOUT as nat, timeout_secs as nat))
    } else if context_limit matches Some(n) && n < MIN_CONTEXT_LIMIT {
        Some(
            too_small_fault(
                "context_limit"@,
                MIN_CONTEXT_LIMIT as nat,
                context_limit->Some_0 as nat,
            ),
        )
    } else {
        None
    }
}

fn too_small(name: &str, least: u64, got: u64) -> (e: CliError)
    ensures
        e.deep_view() == CliErrorView::InvalidArguments(
            too_small_fault(name@, least as nat, got as nat),
        ),
{
    let mut m = String::from_str(name);
    m.append(" must be >= ");
    append_decimal(&mut m, least);
    m.append(", got ");
    append_decimal(&mut m, got);
    CliError::InvalidArguments(m)
}

/// Checks the limits of a run against their least values.
pub fn check_limits(max_tokens: Option<u32>, timeout_secs: u64, context_limit: Option<usize>) -> (r:
    Result<(), CliError>)
    ensures
        match r {
            Ok(_) => limits_fault(max_tokens, timeout_secs, context_limit) is None,
            Err(e) => limits_fault(max_tokens, timeout_secs, context_limit) matches Some(m)
                && e.deep_view() == CliErrorView::InvalidArguments(m),
        },
{
    match max_tokens {
        Some(n) => {
            if n < MIN_TOKENS {
                return Err(too_small("max_tokens", MIN_TOKENS as u64, n as u64));
            }
        },
        None => {},
    }
    if timeout_secs < MIN_TIMEOUT {
        return Err(too_small("timeout_secs", MIN_TIMEOUT, timeout_secs));
    }
    match context_limit {
        Some(n) => {
            if n < MIN_CONTEXT_LIMIT {
                return Err(too_small("context_limit", MIN_CONTEXT_LIMIT as u64, n as u64));
            }
        },
        None => {},
    }
    Ok(())
}

} // verus!
