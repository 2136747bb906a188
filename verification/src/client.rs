//! The boundary to the models: what the engine hands over for one call, and
//! the capability it needs from whoever makes the call.

use vstd::prelude::*;
use crate::error::{CliError, CliErrorView};
use crate::provider::Score;

verus! {

/// What is handed to a model for one call.
#[derive(Debug, Clone, Copy)]
pub struct InvokeParams<'a> {
    /// The name of the model.
    pub model: &'a str,
    /// The instructions for the model.
    pub system_prompt: &'a str,
    /// The text that the model is asked about.
    pub user_prompt: &'a str,
    /// The sampling temperature; zero asks for a deterministic answer.
    pub temperature: Score,
    /// The most tokens that the answer may have.
    pub max_tokens: Option<u32>,
    /// A seed for reproducible sampling.
    pub seed: Option<u64>,
    /// The credential, where the endpoint wants one.
    pub api_key: Option<&'a str>,
    /// How long to wait for the answer, in seconds.
    pub timeout_secs: u64,
}

/// The API format that an endpoint speaks.
#[derive(Debug, Clone, Copy, PartialEq, Eq, Structural, Hash)]
pub enum ProviderType {
    /// The `/api/generate` format of local servers.
    Ollama,
    /// The `/v1/chat/completions` format.
    OpenAI,
}

/// Whoever can put a request to the model behind an endpoint and bring back
/// its raw answer. Nothing is promised of the answer.
pub trait ModelGateway {
    /// Puts the request to the model at `api_url`; the raw text of the
    /// answer, or the failure of the transport.
    fn invoke(&self, api_url: &str, params: InvokeParams<'_>) -> Result<String, CliError>;
}

/// The view of what came back from a model.
pub open spec fn reply_view(reply: Result<String, CliError>) -> Result<Seq<char>, CliErrorView> {
    match reply {
        Ok(text) => Ok(text@),
        Err(e) => Err(e.deep_view()),
    }
}

} // verus!
