//! Reading what an endpoint sent back: the failure that a status stands
//! for, and the text of the model's answer in the body.

use vstd::prelude::*;
use vstd::string::{StrSliceExecFns, StringExecFns};
use crate::client::ProviderType;
use crate::error::{CliError, CliErrorView};
use crate::json::{find_member, json_document, member, parse_json, JsonValue};
use crate::text::{append_decimal, decimal};

verus! {

pub open spec fn status_fault(status: u16, reason: Seq<char>) -> Seq<char> {
    "HTTP error: "@ + decimal(status as nat) + " "@ + reason
}

pub open spec fn detailed_status_fault(status: u16, reason: Seq<char>, body: Seq<char>) -> Seq<
    char,
> {
    "HTTP "@ + decimal(status as nat) + " error: "@ + reason + "\nResponse from API: "@ + (if body.len()
        == 0 {
        "No details provided"@
    } else {
        body
    })
}

/// The failure that an unsuccessful status stands for. An endpoint of the
/// OpenAI format that answers 401 has refused the credential; every other
/// status is an answer that cannot be used, and is reported with the reason
/// of the status and, in the OpenAI format, with the body.
pub open spec fn status_failure(
    format: ProviderType,
    status: u16,
    reason: Seq<char>,
    body: Seq<char>,
) -> CliErrorView {
    match format {
        ProviderType::Ollama => CliErrorView::InvalidResponse(status_fault(status, reason)),
        ProviderType::OpenAI => if status == 401 {
            CliErrorView::AuthenticationFailed("Invalid or missing API key"@)
        } else {
            CliErrorView::InvalidResponse(detailed_status_fault(status, reason, body))
        },
    }
}

/// The failure that an unsuccessful status stands for.
pub fn http_failure(format: ProviderType, status: u16, reason: &str, body: &str) -> (e: CliError)
    ensures
        e.deep_view() == status_failure(format, status, reason@, body@),
{
    match format {
        ProviderType::Ollama => {
            let mut m = String::from_str("HTTP error: ");
            append_decimal(&mut m, status as u64);
            m.append(" ");
            m.append(reason);
            CliError::InvalidResponse(m)
        },
        ProviderType::OpenAI => {
            if status == 401 {
                CliError::AuthenticationFailed(String::from_str("Invalid or missing API key"))
            } else {
                let mut m = String::from_str("HTTP ");
                append_decimal(&mut m, status as u64);
                m.append(" error: ");
                m.append(reason);
                m.append("\nResponse from API: ");
                if body.unicode_len() == 0 {
                    m.append("No details provided");
                } else {
                    m.append(body);
                }
                CliError::InvalidResponse(m)
            }
        },
    }
}

pub open spec fn unreadable_fault(reason: Seq<char>) -> Seq<char> {
    "Failed to parse response: "@ + reason
}

/// The text member `key` of an object, if the value is an object that has
/// one.
pub open spec fn text_member(value: JsonValue, key: Seq<char>) -> Option<Seq<char>> {
    match value {
        JsonValue::Object(members) => match member(members@, key) {
            Some(JsonValue::Text(s)) => Some(s@),
            _ => None,
        },
        _ => None,
    }
}

/// The member `key` of an object, if the value is an object that has one.
pub open spec fn object_member(value: JsonValue, key: Seq<char>) -> Option<JsonValue> {
    match value {
        JsonValue::Object(members) => member(members@, key),
        _ => None,
    }
}

/// The answer of the model in a body of the Ollama format: the text member
/// `response` of the object.
pub open spec fn ollama_answer(document: JsonValue) -> Result<Seq<char>, Seq<char>> {
    match text_member(document, "response"@) {
        Some(text) => Ok(text),
        None => Err(unreadable_fault("missing field `response`"@)),
    }
}

/// The answer of the model in a body of the OpenAI format: the text member
/// `content` of the member `message` of the first of the `choices`.
pub open spec fn openai_answer(document: JsonValue) -> Result<Seq<char>, Seq<char>> {
    match object_member(document, "choices"@) {
        Some(JsonValue::Array(choices)) => if choices.len() == 0 {
            Err("No choices in response"@)
        } else {
            match object_member(choices[0], "message"@) {
                Some(message) => match text_member(message, "content"@) {
                    Some(text) => Ok(text),
                    None => Err(unreadable_fault("missing field `content`"@)),
                },
                None => Err(unreadable_fault("missing field `message`"@)),
            }
        },
        _ => Err(unreadable_fault("missing field `choices`"@)),
    }
}

/// The answer of the model in a parsed body, or the failure to find one.
pub open spec fn answer_in(format: ProviderType, parsed: Result<JsonValue, Seq<char>>) -> Result<
    Seq<char>,
    CliErrorView,
> {
    match parsed {
        Err(reason) => Err(CliErrorView::InvalidResponse(unreadable_fault(reason))),
        Ok(document) => match (match format {
            ProviderType::Ollama => ollama_answer(document),
            ProviderType::OpenAI => openai_answer(document),
        }) {
            Ok(text) => Ok(text),
            Err(fault) => Err(CliErrorView::InvalidResponse(fault)),
        },
    }
}

fn unreadable(reason: &str) -> (e: CliError)
    ensures
        e.deep_view() == CliErrorView::InvalidResponse(unreadable_fault(reason@)),
{
    let mut m = String::from_str("Failed to parse response: ");
    m.append(reason);
    CliError::InvalidResponse(m)
}

fn get_member<'a>(value: &'a JsonValue, key: &str) -> (r: Option<&'a JsonValue>)
    ensures
        match r {
            Some(v) => object_member(*value, key@) == Some(*v),
            None => object_member(*value, key@) is None,
        },
{
    match value {
        JsonValue::Object(members) => find_member(members, key),
        _ => None,
    }
}

fn get_text(value: &JsonValue, key: &str) -> (r: Option<String>)
    ensures
        r.deep_view() == text_member(*value, key@),
{
    match get_member(value, key) {
        Some(JsonValue::Text(s)) => Some(s.clone()),
        _ => None,
    }
}

/// Finds the answer of the model in a parsed body.
pub fn answer_of_document(format: ProviderType, parsed: Result<JsonValue, String>) -> (r: Result<
    String,
    CliError,
>)
    ensures
        match r {
            Ok(text) => answer_in(
                format,
                match parsed {
                    Ok(d) => Ok(d),
                    Err(reason) => Err(reason@),
                },
            ) == Ok::<Seq<char>, CliErrorView>(text@),
            Err(e) => answer_in(
                format,
                match parsed {
                    Ok(d) => Ok(d),
                    Err(reason) => Err(reason@),
                },
            ) == Err::<Seq<char>, CliErrorView>(e.deep_view()),
        },
{
    let document = match parsed {
        Ok(document) => document,
        Err(reason) => {
            return Err(unreadable(reason.as_str()));
        },
    };
    match format {
        ProviderType::Ollama => match get_text(&document, "response") {
            Some(text) => Ok(text),
            None => Err(unreadable("missing field `response`")),
        },
        ProviderType::OpenAI => match get_member(&document, "choices") {
            Some(JsonValue::Array(choices)) => {
                if choices.len() == 0 {
                    return Err(
                        CliError::InvalidResponse(String::from_str("No choices in response")),
                    );
                }
                match get_member(&choices[0], "message") {
                    Some(message) => match get_text(message, "content") {
                        Some(text) => Ok(text),
                        None => Err(unreadable("missing field `content`")),
                    },
                    None => Err(unreadable("missing field `message`")),
                }
            },
            _ => Err(unreadable("missing field `choices`")),
        },
    }
}

/// Finds the answer of the model in the body that an endpoint sent back.
pub fn read_reply(format: ProviderType, body: &str) -> (r: Result<String, CliError>)
    ensures
        match r {
            Ok(text) => answer_in(format, json_document(body@)) == Ok::<Seq<char>, CliErrorView>(
                text@,
            ),
            Err(e) => answer_in(format, json_document(body@)) == Err::<Seq<char>, CliErrorView>(
                e.deep_view(),
            ),
        },
{
    answer_of_document(format, parse_json(body))
}

} // verus!
