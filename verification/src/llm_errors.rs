//! Maps vendor error replies onto the synthesis error taxonomy: the status
//! code decides the transient kinds, the decoded error body refines the
//! rest. Decoding the body is outside work; classification is verified
//! exactly, over the decoded parts.

use vstd::prelude::*;
use vstd::string::StringExecFns;

use crate::caps::LlmError;
use crate::jsonval::json_from_str;
use crate::jsonval::value_as_string;
use crate::jsonval::value_get;
use crate::strutil::find_str;
use crate::strutil::occurs_at;
use crate::strutil::str_eq;
use crate::strutil::u64_to_string;
use crate::strutil::decimal_digits;

verus! {

/// The error body the first vendor's API returns.
pub struct OpenAiError {
    pub message: String,
    pub error_type: String,
    pub code: Option<String>,
}

/// The error reply of the first vendor's API.
pub struct OpenAiErrorResponse {
    pub error: OpenAiError,
}

/// The error body the second vendor's API returns.
pub struct AnthropicError {
    pub error_type: String,
    pub message: String,
}

/// The error reply of the second vendor's API.
pub struct AnthropicErrorResponse {
    pub error_type: String,
    pub error: AnthropicError,
}

/// Decodes the first vendor's error reply shape: an `error` object with a
/// `message`, a `type` and an optional `code`.
fn decode_openai_error(v: &serde_json::Value) -> Option<OpenAiErrorResponse> {
    let err = match value_get(v, "error") {
        Some(e) => e,
        None => {
            return None;
        },
    };
    let message = match value_get(err, "message") {
        Some(m) => match value_as_string(m) {
            Some(s) => s,
            None => {
                return None;
            },
        },
        None => {
            return None;
        },
    };
    let error_type = match value_get(err, "type") {
        Some(t) => match value_as_string(t) {
            Some(s) => s,
            None => {
                return None;
            },
        },
        None => {
            return None;
        },
    };
    let code = match value_get(err, "code") {
        Some(c) => value_as_string(c),
        None => None,
    };
    Some(OpenAiErrorResponse { error: OpenAiError { message, error_type, code } })
}

/// Decodes the second vendor's error reply shape: a top-level `type` and an
/// `error` object with a `type` and a `message`.
fn decode_anthropic_error(v: &serde_json::Value) -> Option<AnthropicErrorResponse> {
    let outer_type = match value_get(v, "type") {
        Some(t) => match value_as_string(t) {
            Some(s) => s,
            None => {
                return None;
            },
        },
        None => {
            return None;
        },
    };
    let err = match value_get(v, "error") {
        Some(e) => e,
        None => {
            return None;
        },
    };
    let error_type = match value_get(err, "type") {
        Some(t) => match value_as_string(t) {
            Some(s) => s,
            None => {
                return None;
            },
        },
        None => {
            return None;
        },
    };
    let message = match value_get(err, "message") {
        Some(m) => match value_as_string(m) {
            Some(s) => s,
            None => {
                return None;
            },
        },
        None => {
            return None;
        },
    };
    Some(AnthropicErrorResponse { error_type: outer_type, error: AnthropicError { error_type, message } })
}

/// The error message for a status the classifier cannot refine.
pub open spec fn http_fallback_message(status: u16, body: Seq<char>) -> Seq<char> {
    "HTTP "@ + decimal_digits(status as nat) + ": "@ + body
}

/// The error message for an unavailable service.
pub open spec fn service_unavailable_message(status: u16) -> Seq<char> {
    "service unavailable: "@ + decimal_digits(status as nat)
}

/// How the first vendor's failure must be classified, from the status code,
/// the decoded error body and the raw body text: bad credentials and
/// unavailability are provider errors, 429 is rate-limiting, a 400 with the
/// context-length code is a context overflow, a 404 names the missing
/// model, and anything else carries the vendor's message through.
pub open spec fn openai_error_matches(
    status: u16,
    parsed: Option<OpenAiErrorResponse>,
    body: Seq<char>,
    e: LlmError,
) -> bool {
    if status == 401 {
        e matches LlmError::Provider(m) && m@ == "invalid API key"@
    } else if status == 429 {
        e is RateLimited
    } else if status == 400 {
        match parsed {
            Some(p) => if p.error.code matches Some(c) && c@ == "context_length_exceeded"@ {
                e == (LlmError::ContextLengthExceeded { max_tokens: 0, got_tokens: 0 })
            } else {
                e matches LlmError::Provider(m) && m@ == p.error.message@
            },
            None => e matches LlmError::Provider(m) && m@ == body,
        }
    } else if status == 404 {
        match parsed {
            Some(p) => e matches LlmError::ModelUnavailable { model } && model@
                == p.error.message@,
            None => e matches LlmError::ModelUnavailable { model } && model@ == "unknown"@,
        }
    } else if status == 503 || status == 502 || status == 504 {
        e matches LlmError::Provider(m) && m@ == service_unavailable_message(status)
    } else {
        match parsed {
            Some(p) => e matches LlmError::Provider(m) && m@ == p.error.message@,
            None => e matches LlmError::Provider(m) && m@ == http_fallback_message(status, body),
        }
    }
}

/// Classifies the first vendor's failure from the decoded parts.
pub fn openai_error_from_parts(status: u16, parsed: Option<OpenAiErrorResponse>, body: &str) -> (e:
    LlmError)
    ensures
        openai_error_matches(status, parsed, body@, e),
{
    if status == 401 {
        LlmError::Provider("invalid API key".to_owned())
    } else if status == 429 {
        LlmError::RateLimited
    } else if status == 400 {
        match parsed {
            Some(p) => {
                let context_code = match &p.error.code {
                    Some(c) => str_eq(c.as_str(), "context_length_exceeded"),
                    None => false,
                };
                if context_code {
                    LlmError::ContextLengthExceeded { max_tokens: 0, got_tokens: 0 }
                } else {
                    LlmError::Provider(p.error.message)
                }
            },
            None => LlmError::Provider(body.to_owned()),
        }
    } else if status == 404 {
        match parsed {
            Some(p) => LlmError::ModelUnavailable { model: p.error.message },
            None => LlmError::ModelUnavailable { model: "unknown".to_owned() },
        }
    } else if status == 503 || status == 502 || status == 504 {
        let mut m = "service unavailable: ".to_owned();
        m.append(u64_to_string(status as u64).as_str());
        LlmError::Provider(m)
    } else {
        match parsed {
            Some(p) => LlmError::Provider(p.error.message),
            None => {
                let mut m = "HTTP ".to_owned();
                m.append(u64_to_string(status as u64).as_str());
                m.append(": ");
                m.append(body);
                LlmError::Provider(m)
            },
        }
    }
}

/// Maps the first vendor's HTTP failure onto the error taxonomy; the body
/// is decoded by the JSON library, and the classification of the decoded
/// parts is exact.
pub fn map_openai_error(status: u16, body: &str) -> (e: LlmError)
    ensures
        exists|parsed: Option<OpenAiErrorResponse>|
            openai_error_matches(status, parsed, body@, e),
{
    let parsed: Option<OpenAiErrorResponse> = match json_from_str(body) {
        Ok(v) => decode_openai_error(&v),
        Err(_) => None,
    };
    let ghost snapshot = parsed;
    let e = openai_error_from_parts(status, parsed, body);
    proof {
        assert(openai_error_matches(status, snapshot, body@, e));
    }
    e
}

/// How the second vendor's failure must be classified: as for the first
/// vendor, except that a 400 whose message speaks of tokens is a context
/// overflow, and an overloaded service is rate-limiting.
pub open spec fn anthropic_error_matches(
    status: u16,
    parsed: Option<AnthropicErrorResponse>,
    body: Seq<char>,
    e: LlmError,
) -> bool {
    if status == 401 {
        e matches LlmError::Provider(m) && m@ == "invalid API key"@
    } else if status == 429 {
        e is RateLimited
    } else if status == 400 {
        match parsed {
            Some(p) => if p.error.error_type@ == "invalid_request_error"@ && (exists|i: int|
                occurs_at(p.error.message@, "token"@, i)) {
                e == (LlmError::ContextLengthExceeded { max_tokens: 0, got_tokens: 0 })
            } else {
                e matches LlmError::Provider(m) && m@ == p.error.message@
            },
            None => e matches LlmError::Provider(m) && m@ == body,
        }
    } else if status == 404 {
        match parsed {
            Some(p) => e matches LlmError::ModelUnavailable { model } && model@
                == p.error.message@,
            None => e matches LlmError::ModelUnavailable { model } && model@ == "unknown"@,
        }
    } else if status == 503 || status == 502 || status == 504 || status == 500 {
        match parsed {
            Some(p) => if p.error.error_type@ == "overloaded_error"@ {
                e is RateLimited
            } else {
                e matches LlmError::Provider(m) && m@ == service_unavailable_message(status)
            },
            None => e matches LlmError::Provider(m) && m@ == service_unavailable_message(status),
        }
    } else {
        match parsed {
            Some(p) => e matches LlmError::Provider(m) && m@ == p.error.message@,
            None => e matches LlmError::Provider(m) && m@ == http_fallback_message(status, body),
        }
    }
}

/// Classifies the second vendor's failure from the decoded parts.
pub fn anthropic_error_from_parts(
    status: u16,
    parsed: Option<AnthropicErrorResponse>,
    body: &str,
) -> (e: LlmError)
    ensures
        anthropic_error_matches(status, parsed, body@, e),
{
    if status == 401 {
        LlmError::Provider("invalid API key".to_owned())
    } else if status == 429 {
        LlmError::RateLimited
    } else if status == 400 {
        match parsed {
            Some(p) => {
                let token_talk = match find_str(p.error.message.as_str(), "token") {
                    Some(_) => true,
                    None => false,
                };
                if str_eq(p.error.error_type.as_str(), "invalid_request_error") && token_talk {
                    LlmError::ContextLengthExceeded { max_tokens: 0, got_tokens: 0 }
                } else {
                    LlmError::Provider(p.error.message)
                }
            },
            None => LlmError::Provider(body.to_owned()),
        }
    } else if status == 404 {
        match parsed {
            Some(p) => LlmError::ModelUnavailable { model: p.error.message },
            None => LlmError::ModelUnavailable { model: "unknown".to_owned() },
        }
    } else if status == 503 || status == 502 || status == 504 || status == 500 {
        let overloaded = match &parsed {
            Some(p) => str_eq(p.error.error_type.as_str(), "overloaded_error"),
            None => false,
        };
        if overloaded {
            LlmError::RateLimited
        } else {
            let mut m = "service unavailable: ".to_owned();
            m.append(u64_to_string(status as u64).as_str());
            LlmError::Provider(m)
        }
    } else {
        match parsed {
            Some(p) => LlmError::Provider(p.error.message),
            None => {
                let mut m = "HTTP ".to_owned();
                m.append(u64_to_string(status as u64).as_str());
                m.append(": ");
                m.append(body);
                LlmError::Provider(m)
            },
        }
    }
}

/// Maps the second vendor's HTTP failure onto the error taxonomy; the body
/// is decoded by the JSON library, and the classification of the decoded
/// parts is exact.
pub fn map_anthropic_error(status: u16, body: &str) -> (e: LlmError)
    ensures
        exists|parsed: Option<AnthropicErrorResponse>|
            anthropic_error_matches(status, parsed, body@, e),
{
    let parsed: Option<AnthropicErrorResponse> = match json_from_str(body) {
        Ok(v) => decode_anthropic_error(&v),
        Err(_) => None,
    };
    let ghost snapshot = parsed;
    let e = anthropic_error_from_parts(status, parsed, body);
    proof {
        assert(anthropic_error_matches(status, snapshot, body@, e));
    }
    e
}

/// Classifies a transport failure: a timeout, a connection failure or any
/// other network fault, with the transport's own words carried through.
pub fn llm_transport_error(timed_out: bool, connect_failed: bool, detail: &str) -> (e: LlmError)
    ensures
        timed_out ==> e == (LlmError::Timeout { timeout_secs: 0u64 }),
        !timed_out && connect_failed ==> (e matches LlmError::Network(m) && m@
            == "connection failed: "@ + detail@),
        !timed_out && !connect_failed ==> (e matches LlmError::Network(m) && m@ == detail@),
{
    if timed_out {
        LlmError::Timeout { timeout_secs: 0 }
    } else if connect_failed {
        let mut m = "connection failed: ".to_owned();
        m.append(detail);
        LlmError::Network(m)
    } else {
        LlmError::Network(detail.to_owned())
    }
}

} // verus!
