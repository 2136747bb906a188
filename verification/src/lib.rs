//! Guardrail validation engine: pattern rules, classifier response grammars
//! and the composite orchestrator, with machine-checked contracts.
//!
//! Text on its way to a model, and text that a model produced, is checked by
//! providers. A provider is a pattern-match provider, one of three
//! classifiers that delegate to a model, or a composite of providers. The
//! library never talks to a model itself: a classifier says what is to be
//! put to its model and reads what came back.

pub mod aggregation;
pub mod client;
pub mod config;
pub mod detection;
pub mod error;
pub mod factory;
pub mod gpt_oss_safeguard;
pub mod hybrid;
pub mod input;
pub mod json;
pub mod llama_guard;
pub mod llama_prompt_guard;
pub mod matcher;
pub mod output;
pub mod patterns;
pub mod pdf;
pub mod pipeline;
pub mod provider;
pub mod regex_guardrail;
pub mod scan;
pub mod score;
pub mod text;
pub mod transport;
pub mod validators;

pub use client::{InvokeParams, ModelGateway, ProviderType};
pub use config::{
    resolve_api_key, AggregationMode, Environment, ExecutionMode, GuardrailConfig,
    GuardrailProviderConfig, OutputGuardrailProviderConfig,
};
pub use detection::detect_provider_type;
pub use error::CliError;
pub use factory::{create_guardrail_provider, create_output_guardrail_provider};
pub use gpt_oss_safeguard::{
    GptOssSafeguardConfig, GptOssSafeguardProvider, GptOssSafeguardResponse,
};
pub use hybrid::{GuardrailProvider, HybridGuardrail};
pub use input::{InputGuardrail, InputGuardrailConfig};
pub use json::{JsonNumber, JsonValue};
pub use llama_guard::{LlamaGuardCategory, LlamaGuardConfig, LlamaGuardProvider};
pub use llama_prompt_guard::{LlamaPromptGuardConfig, LlamaPromptGuardProvider};
pub use matcher::Matcher;
pub use output::{OutputGuardrail, OutputGuardrailConfig};
pub use pdf::{to_markdown, ContentFormat, PdfContent};
pub use pipeline::{configure_guardrails, prompt_source, PromptSource};
pub use patterns::{parse_patterns, parse_scope, parse_severity, PatternDefinition, PatternScope};
pub use provider::{
    GptOssSafeguardResult, GuardrailResult, LlamaGuardResult, LlamaPromptGuardResult,
    ProviderSpecificResult, Score, Severity, Violation,
};
pub use regex_guardrail::{RegexGuardrail, RegexGuardrailConfig};
pub use validators::{
    validate_byte_size, validate_context_limit, validate_positive_u32, validate_positive_u64, validate_positive_usize,
};
