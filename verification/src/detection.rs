//! Telling from a URL which API format an endpoint speaks.

use vstd::prelude::*;
use crate::client::ProviderType;
use crate::text::{contains_chars, has_substring, to_chars};

verus! {

/// The format that the endpoint at `url` speaks. The path decides first:
/// `/api/generate` is Ollama, `/v1/chat/completions` is OpenAI. Then the
/// port: 11434 on the local host is Ollama. Everything else is OpenAI.
pub open spec fn detected_type(url: Seq<char>) -> ProviderType {
    if has_substring(url, "/api/generate"@) {
        ProviderType::Ollama
    } else if has_substring(url, "/v1/chat/completions"@) {
        ProviderType::OpenAI
    } else if has_substring(url, "localhost:11434"@) || has_substring(url, "127.0.0.1:11434"@) {
        ProviderType::Ollama
    } else {
        ProviderType::OpenAI
    }
}

/// Tells from `url` which API format the endpoint speaks.
pub fn detect_provider_type(url: &str) -> (r: ProviderType)
    ensures
        r == detected_type(url@),
{
    let chars = to_chars(url);
    if contains_chars(&chars, &to_chars("/api/generate")) {
        ProviderType::Ollama
    } else if contains_chars(&chars, &to_chars("/v1/chat/completions")) {
        ProviderType::OpenAI
    } else if contains_chars(&chars, &to_chars("localhost:11434")) || contains_chars(
        &chars,
        &to_chars("127.0.0.1:11434"),
    ) {
        ProviderType::Ollama
    } else {
        ProviderType::OpenAI
    }
}

} // verus!
