//! The operational failures of the library: what went wrong when a check
//! could not be carried out at all.

use vstd::prelude::*;
use vstd::string::StringExecFns;
use crate::text::{append_decimal, decimal};

verus! {

/// An operational failure. A content violation is never one of these: it is
/// reported in a `GuardrailResult`.
#[derive(Debug)]
pub enum CliError {
    /// The token estimate of a request is above the model's window.
    ContextLimitExceeded { required: usize, limit: usize, excess: usize },
    /// The transport to a model failed.
    HttpError(String),
    /// A classifier or a rule source answered in a form that cannot be read.
    InvalidResponse(String),
    /// A file that was asked for is not there.
    FileNotFound(String),
    /// A configuration value or an argument is not acceptable.
    InvalidArguments(String),
    /// A credential was refused.
    AuthenticationFailed(String),
    /// A document could not be turned into text.
    PdfProcessingFailed(String),
}

/// What a `CliError` holds.
pub enum CliErrorView {
    ContextLimitExceeded { required: usize, limit: usize, excess: usize },
    HttpError(Seq<char>),
    InvalidResponse(Seq<char>),
    FileNotFound(Seq<char>),
    InvalidArguments(Seq<char>),
    AuthenticationFailed(Seq<char>),
    PdfProcessingFailed(Seq<char>),
}

impl DeepView for CliError {
    type V = CliErrorView;

    open spec fn deep_view(&self) -> CliErrorView {
        match self {
            CliError::ContextLimitExceeded { required, limit, excess } => {
                CliErrorView::ContextLimitExceeded {
                    required: *required,
                    limit: *limit,
                    excess: *excess,
                }
            },
            CliError::HttpError(m) => CliErrorView::HttpError(m@),
            CliError::InvalidResponse(m) => CliErrorView::InvalidResponse(m@),
            CliError::FileNotFound(m) => CliErrorView::FileNotFound(m@),
            CliError::InvalidArguments(m) => CliErrorView::InvalidArguments(m@),
            CliError::AuthenticationFailed(m) => CliErrorView::AuthenticationFailed(m@),
            CliError::PdfProcessingFailed(m) => CliErrorView::PdfProcessingFailed(m@),
        }
    }
}

impl Clone for CliError {
    fn clone(&self) -> (r: Self)
        ensures
            r == *self,
    {
        match self {
            CliError::ContextLimitExceeded { required, limit, excess } => {
                CliError::ContextLimitExceeded {
                    required: *required,
                    limit: *limit,
                    excess: *excess,
                }
            },
            CliError::HttpError(m) => CliError::HttpError(m.clone()),
            CliError::InvalidResponse(m) => CliError::InvalidResponse(m.clone()),
            CliError::FileNotFound(m) => CliError::FileNotFound(m.clone()),
            CliError::InvalidArguments(m) => CliError::InvalidArguments(m.clone()),
            CliError::AuthenticationFailed(m) => CliError::AuthenticationFailed(m.clone()),
            CliError::PdfProcessingFailed(m) => CliError::PdfProcessingFailed(m.clone()),
        }
    }
}

impl CliErrorView {
    /// The sentence that describes the failure.
    pub open spec fn message(self) -> Seq<char> {
        match self {
            CliErrorView::ContextLimitExceeded { required, limit, excess } => {
                "Context limit exceeded: required "@ + decimal(required as nat) + " tokens, limit "@
                    + decimal(limit as nat) + " tokens (excess: "@ + decimal(excess as nat)
                    + " tokens)"@
            },
            CliErrorView::HttpError(m) => "HTTP error: "@ + m,
            CliErrorView::InvalidResponse(m) => "Invalid response: "@ + m,
            CliErrorView::FileNotFound(m) => "File not found: "@ + m,
            CliErrorView::InvalidArguments(m) => "Invalid arguments: "@ + m,
            CliErrorView::AuthenticationFailed(m) => "Authentication failed: "@ + m,
            CliErrorView::PdfProcessingFailed(m) => "PDF processing failed: "@ + m,
        }
    }

    /// The process exit status that stands for the failure.
    pub open spec fn exit_code(self) -> i32 {
        match self {
            CliErrorView::ContextLimitExceeded { .. } => 2,
            CliErrorView::HttpError(_) => 3,
            CliErrorView::InvalidResponse(_) => 4,
            CliErrorView::FileNotFound(_) => 5,
            CliErrorView::InvalidArguments(_) => 6,
            CliErrorView::AuthenticationFailed(_) => 7,
            CliErrorView::PdfProcessingFailed(_) => 8,
        }
    }

    /// The stable name of the kind of failure.
    pub open spec fn code(self) -> Seq<char> {
        match self {
            CliErrorView::ContextLimitExceeded { .. } => "CONTEXT_LIMIT_EXCEEDED"@,
            CliErrorView::HttpError(_) => "HTTP_ERROR"@,
            CliErrorView::InvalidResponse(_) => "INVALID_RESPONSE"@,
            CliErrorView::FileNotFound(_) => "FILE_NOT_FOUND"@,
            CliErrorView::InvalidArguments(_) => "INVALID_ARGUMENTS"@,
            CliErrorView::AuthenticationFailed(_) => "AUTH_FAILED"@,
            CliErrorView::PdfProcessingFailed(_) => "PDF_PROCESSING_FAILED"@,
        }
    }
}

/// `prefix` followed by `detail`.
fn prefixed(prefix: &str, detail: &str) -> (r: String)
    ensures
        r@ == prefix@ + detail@,
{
    let mut out = String::from_str(prefix);
    out.append(detail);
    out
}

impl CliError {
    /// The sentence that describes the failure.
    pub fn to_string(&self) -> (r: String)
        ensures
            r@ == self.deep_view().message(),
    {
        match self {
            CliError::ContextLimitExceeded { required, limit, excess } => {
                let mut out = String::from_str("Context limit exceeded: required ");
                append_decimal(&mut out, *required as u64);
                out.append(" tokens, limit ");
                append_decimal(&mut out, *limit as u64);
                out.append(" tokens (excess: ");
                append_decimal(&mut out, *excess as u64);
                out.append(" tokens)");
                out
            },
            CliError::HttpError(m) => prefixed("HTTP error: ", m.as_str()),
            CliError::InvalidResponse(m) => prefixed("Invalid response: ", m.as_str()),
            CliError::FileNotFound(m) => prefixed("File not found: ", m.as_str()),
            CliError::InvalidArguments(m) => prefixed("Invalid arguments: ", m.as_str()),
            CliError::AuthenticationFailed(m) => prefixed("Authentication failed: ", m.as_str()),
            CliError::PdfProcessingFailed(m) => prefixed("PDF processing failed: ", m.as_str()),
        }
    }

    /// The process exit status that stands for the failure: distinct for each
    /// kind, and between 2 and 8.
    pub fn exit_code(&self) -> (r: i32)
        ensures
            r == self.deep_view().exit_code(),
            2 <= r <= 8,
    {
        match self {
            CliError::ContextLimitExceeded { .. } => 2,
            CliError::HttpError(_) => 3,
            CliError::InvalidResponse(_) => 4,
            CliError::FileNotFound(_) => 5,
            CliError::InvalidArguments(_) => 6,
            CliError::AuthenticationFailed(_) => 7,
            CliError::PdfProcessingFailed(_) => 8,
        }
    }

    /// The stable name of the kind of failure.
    pub fn code(&self) -> (r: &'static str)
        ensures
            r@ == self.deep_view().code(),
    {
        match self {
            CliError::ContextLimitExceeded { .. } => "CONTEXT_LIMIT_EXCEEDED",
            CliError::HttpError(_) => "HTTP_ERROR",
            CliError::InvalidResponse(_) => "INVALID_RESPONSE",
            CliError::FileNotFound(_) => "FILE_NOT_FOUND",
            CliError::InvalidArguments(_) => "INVALID_ARGUMENTS",
            CliError::AuthenticationFailed(_) => "AUTH_FAILED",
            CliError::PdfProcessingFailed(_) => "PDF_PROCESSING_FAILED",
        }
    }
}

/// The view of a result that may hold an operational failure.
pub open spec fn outcome<T: DeepView>(r: Result<T, CliError>) -> Result<T::V, CliErrorView> {
    match r {
        Ok(v) => Ok(v.deep_view()),
        Err(e) => Err(e.deep_view()),
    }
}

} // verus!
