//! Error taxonomy for the client core.
//!
//! Every failure produced anywhere in the core is mapped into exactly one
//! variant of [`LLMRouterError`] before it crosses a component boundary.
//! The taxonomy carries the two pieces of metadata the retry machinery needs:
//! whether a kind is retryable, and an optional suggested delay.

use vstd::prelude::*;

verus! {

/// Closed set of error kinds for client operations.
///
/// Each variant carries a human-readable message and, where applicable, a
/// suggested retry delay (milliseconds) or a protocol status code.
#[derive(Debug, Clone)]
pub enum LLMRouterError {
    /// Network-level failures (connection refused, reset, DNS, ...).
    Network { message: String },
    /// The request exceeded its time budget.
    Timeout { message: String, timeout_ms: Option<u64> },
    /// The server asked the client to slow down.
    RateLimit { message: String, retry_after_ms: Option<u64> },
    /// Authentication or authorization was rejected.
    Authentication { message: String },
    /// The request was rejected before being sent.
    Validation { message: String, field: Option<String> },
    /// The requested model does not exist or is not available.
    ModelNotFound { model_id: String },
    /// The backend failed while computing the inference.
    Inference { message: String, model_id: Option<String> },
    /// The client was configured inconsistently.
    Configuration { message: String },
    /// A streaming response broke down after it had started.
    Streaming { message: String },
    /// A failure specific to the gRPC transport, with its status code.
    Grpc { message: String, status_code: Option<i32> },
    /// A failure specific to the WebSocket transport.
    WebSocket { message: String },
    /// A payload could not be encoded or decoded.
    Serialization { message: String },
    /// An HTTP response with a non-success status.
    Http { status: u16, message: String, body: Option<String> },
    /// Anything that fits no other kind.
    Other { message: String },
}

/// Retryability rule over the closed variant set.
///
/// `Network`, `Timeout` and `RateLimit` are always retryable; an HTTP status
/// is retryable exactly for 408, 429 and the 500-599 range; a gRPC status is
/// retryable exactly for the codes UNKNOWN (2), DEADLINE_EXCEEDED (4),
/// RESOURCE_EXHAUSTED (8) and UNAVAILABLE (14); nothing else is.
pub open spec fn spec_is_retryable(e: LLMRouterError) -> bool {
    match e {
        LLMRouterError::Network { .. } => true,
        LLMRouterError::Timeout { .. } => true,
        LLMRouterError::RateLimit { .. } => true,
        LLMRouterError::Http { status, .. } =>
            status == 408 || status == 429 || (500 <= status && status <= 599),
        LLMRouterError::Grpc { status_code, .. } =>
            status_code == Some(2i32) || status_code == Some(4i32)
            || status_code == Some(8i32) || status_code == Some(14i32),
        _ => false,
    }
}

/// Suggested retry delay in milliseconds: a `RateLimit` propagates the
/// server-supplied value, `Timeout` suggests a fixed two seconds, `Network`
/// a fixed one second, and every other kind defers to the backoff policy.
pub open spec fn spec_retry_delay(e: LLMRouterError) -> Option<u64> {
    match e {
        LLMRouterError::RateLimit { retry_after_ms, .. } => retry_after_ms,
        LLMRouterError::Timeout { .. } => Some(2000u64),
        LLMRouterError::Network { .. } => Some(1000u64),
        _ => None,
    }
}

impl LLMRouterError {
    /// Create a network error.
    pub fn network(message: &str) -> (r: Self)
        ensures
            r matches LLMRouterError::Network { message: m } && m@ == message@,
    {
        LLMRouterError::Network { message: String::from_str(message) }
    }

    /// Create a timeout error.
    pub fn timeout(message: &str, timeout_ms: Option<u64>) -> (r: Self)
        ensures
            (r matches LLMRouterError::Timeout { message: m, timeout_ms: t }
                && m@ == message@ && t == timeout_ms),
    {
        LLMRouterError::Timeout { message: String::from_str(message), timeout_ms }
    }

    /// Create a rate limit error.
    pub fn rate_limit(message: &str, retry_after_ms: Option<u64>) -> (r: Self)
        ensures
            (r matches LLMRouterError::RateLimit { message: m, retry_after_ms: t }
                && m@ == message@ && t == retry_after_ms),
    {
        LLMRouterError::RateLimit { message: String::from_str(message), retry_after_ms }
    }

    /// Create an authentication error.
    pub fn authentication(message: &str) -> (r: Self)
        ensures
            r matches LLMRouterError::Authentication { message: m } && m@ == message@,
    {
        LLMRouterError::Authentication { message: String::from_str(message) }
    }

    /// Create a validation error.
    pub fn validation(message: &str, field: Option<String>) -> (r: Self)
        ensures
            (r matches LLMRouterError::Validation { message: m, field: f }
                && m@ == message@ && f == field),
    {
        LLMRouterError::Validation { message: String::from_str(message), field }
    }

    /// Create a model not found error.
    pub fn model_not_found(model_id: &str) -> (r: Self)
        ensures
            r matches LLMRouterError::ModelNotFound { model_id: m } && m@ == model_id@,
    {
        LLMRouterError::ModelNotFound { model_id: String::from_str(model_id) }
    }

    /// Create an inference error.
    pub fn inference(message: &str, model_id: Option<String>) -> (r: Self)
        ensures
            (r matches LLMRouterError::Inference { message: m, model_id: i }
                && m@ == message@ && i == model_id),
    {
        LLMRouterError::Inference { message: String::from_str(message), model_id }
    }

    /// Create a configuration error.
    pub fn configuration(message: &str) -> (r: Self)
        ensures
            r matches LLMRouterError::Configuration { message: m } && m@ == message@,
    {
        LLMRouterError::Configuration { message: String::from_str(message) }
    }

    /// Create a streaming error.
    pub fn streaming(message: &str) -> (r: Self)
        ensures
            r matches LLMRouterError::Streaming { message: m } && m@ == message@,
    {
        LLMRouterError::Streaming { message: String::from_str(message) }
    }

    /// Create a gRPC error.
    pub fn grpc(message: &str, status_code: Option<i32>) -> (r: Self)
        ensures
            (r matches LLMRouterError::Grpc { message: m, status_code: c }
                && m@ == message@ && c == status_code),
    {
        LLMRouterError::Grpc { message: String::from_str(message), status_code }
    }

    /// Create a WebSocket error.
    pub fn websocket(message: &str) -> (r: Self)
        ensures
            r matches LLMRouterError::WebSocket { message: m } && m@ == message@,
    {
        LLMRouterError::WebSocket { message: String::from_str(message) }
    }

    /// Create a serialization error.
    pub fn serialization(message: &str) -> (r: Self)
        ensures
            r matches LLMRouterError::Serialization { message: m } && m@ == message@,
    {
        LLMRouterError::Serialization { message: String::from_str(message) }
    }

    /// Create an HTTP error.
    pub fn http(status: u16, message: &str, body: Option<String>) -> (r: Self)
        ensures
            (r matches LLMRouterError::Http { status: s, message: m, body: b }
                && s == status && m@ == message@ && b == body),
    {
        LLMRouterError::Http { status, message: String::from_str(message), body }
    }

    /// Create a generic error.
    pub fn other(message: &str) -> (r: Self)
        ensures
            r matches LLMRouterError::Other { message: m } && m@ == message@,
    {
        LLMRouterError::Other { message: String::from_str(message) }
    }

    /// Check whether the retry engine may try again after this error.
    pub fn is_retryable(&self) -> (r: bool)
        ensures
            r == spec_is_retryable(*self),
    {
        match self {
            LLMRouterError::Network { .. } => true,
            LLMRouterError::Timeout { .. } => true,
            LLMRouterError::RateLimit { .. } => true,
            LLMRouterError::Http { status, .. } => {
                let s: u16 = *status;
                s == 408 || s == 429 || (500 <= s && s <= 599)
            },
            LLMRouterError::Grpc { status_code, .. } => {
                match status_code {
                    Some(c) => *c == 2 || *c == 4 || *c == 8 || *c == 14,
                    None => false,
                }
            },
            _ => false,
        }
    }

    /// Suggested retry delay for this error, in milliseconds.
    pub fn retry_delay(&self) -> (r: Option<u64>)
        ensures
            r == spec_retry_delay(*self),
    {
        match self {
            LLMRouterError::RateLimit { retry_after_ms, .. } => *retry_after_ms,
            LLMRouterError::Timeout { .. } => Some(2000),
            LLMRouterError::Network { .. } => Some(1000),
            _ => None,
        }
    }
}

/// The decimal digit as text.
pub open spec fn sp_digit(d: nat) -> Seq<char> {
    if d == 0 {
        "0"@
    } else if d == 1 {
        "1"@
    } else if d == 2 {
        "2"@
    } else if d == 3 {
        "3"@
    } else if d == 4 {
        "4"@
    } else if d == 5 {
        "5"@
    } else if d == 6 {
        "6"@
    } else if d == 7 {
        "7"@
    } else if d == 8 {
        "8"@
    } else {
        "9"@
    }
}

/// The number in decimal notation.
pub open spec fn sp_dec(n: nat) -> Seq<char>
    decreases n,
{
    if n < 10 {
        sp_digit(n)
    } else {
        sp_dec(n / 10) + sp_digit(n % 10)
    }
}

/// The digit as a string slice.
fn digit_str(d: u16) -> (r: &'static str)
    requires
        d <= 9,
    ensures
        r@ == sp_digit(d as nat),
{
    match d {
        0 => "0",
        1 => "1",
        2 => "2",
        3 => "3",
        4 => "4",
        5 => "5",
        6 => "6",
        7 => "7",
        8 => "8",
        _ => "9",
    }
}

/// Render a number in decimal notation.
fn u16_decimal(n: u16) -> (r: String)
    ensures
        r@ == sp_dec(n as nat),
    decreases n,
{
    if n < 10 {
        String::from_str(digit_str(n))
    } else {
        let mut s = u16_decimal(n / 10);
        s.append(digit_str(n % 10));
        s
    }
}

/// The human-readable message of an error, its kind named in front.
pub open spec fn spec_message(e: LLMRouterError) -> Seq<char> {
    match e {
        LLMRouterError::Network { message } => "Network error: "@ + message@,
        LLMRouterError::Timeout { message, .. } => "Request timeout: "@ + message@,
        LLMRouterError::RateLimit { message, .. } => "Rate limit exceeded: "@ + message@,
        LLMRouterError::Authentication { message } => "Authentication error: "@ + message@,
        LLMRouterError::Validation { message, .. } => "Validation error: "@ + message@,
        LLMRouterError::ModelNotFound { model_id } => "Model not found: "@ + model_id@,
        LLMRouterError::Inference { message, .. } => "Inference error: "@ + message@,
        LLMRouterError::Configuration { message } => "Configuration error: "@ + message@,
        LLMRouterError::Streaming { message } => "Streaming error: "@ + message@,
        LLMRouterError::Grpc { message, .. } => "gRPC error: "@ + message@,
        LLMRouterError::WebSocket { message } => "WebSocket error: "@ + message@,
        LLMRouterError::Serialization { message } => "Serialization error: "@ + message@,
        LLMRouterError::Http { status, message, .. } => "HTTP error: "@ + sp_dec(status as nat)
            + " - "@ + message@,
        LLMRouterError::Other { message } => "Error: "@ + message@,
    }
}

impl LLMRouterError {
    /// Render the error as its human-readable message.
    pub fn to_message(&self) -> (r: String)
        ensures
            r@ == spec_message(*self),
    {
        match self {
            LLMRouterError::Network { message } => {
                let mut s = String::from_str("Network error: ");
                s.append(message.as_str());
                s
            },
            LLMRouterError::Timeout { message, .. } => {
                let mut s = String::from_str("Request timeout: ");
                s.append(message.as_str());
                s
            },
            LLMRouterError::RateLimit { message, .. } => {
                let mut s = String::from_str("Rate limit exceeded: ");
                s.append(message.as_str());
                s
            },
            LLMRouterError::Authentication { message } => {
                let mut s = String::from_str("Authentication error: ");
                s.append(message.as_str());
                s
            },
            LLMRouterError::Validation { message, .. } => {
                let mut s = String::from_str("Validation error: ");
                s.append(message.as_str());
                s
            },
            LLMRouterError::ModelNotFound { model_id } => {
                let mut s = String::from_str("Model not found: ");
                s.append(model_id.as_str());
                s
            },
            LLMRouterError::Inference { message, .. } => {
                let mut s = String::from_str("Inference error: ");
                s.append(message.as_str());
                s
            },
            LLMRouterError::Configuration { message } => {
                let mut s = String::from_str("Configuration error: ");
                s.append(message.as_str());
                s
            },
            LLMRouterError::Streaming { message } => {
                let mut s = String::from_str("Streaming error: ");
                s.append(message.as_str());
                s
            },
            LLMRouterError::Grpc { message, .. } => {
                let mut s = String::from_str("gRPC error: ");
                s.append(message.as_str());
                s
            },
            LLMRouterError::WebSocket { message } => {
                let mut s = String::from_str("WebSocket error: ");
                s.append(message.as_str());
                s
            },
            LLMRouterError::Serialization { message } => {
                let mut s = String::from_str("Serialization error: ");
                s.append(message.as_str());
                s
            },
            LLMRouterError::Http { status, message, .. } => {
                let mut s = String::from_str("HTTP error: ");
                let d = u16_decimal(*status);
                s.append(d.as_str());
                s.append(" - ");
                s.append(message.as_str());
                proof {
                    assert(s@ =~= "HTTP error: "@ + sp_dec(*status as nat) + " - "@
                        + message@);
                }
                s
            },
            LLMRouterError::Other { message } => {
                let mut s = String::from_str("Error: ");
                s.append(message.as_str());
                s
            },
        }
    }

    /// Classify a failed HTTP response by its status code: 401 and 403 are
    /// authentication failures, 404 means the model was not found, 408 is a
    /// timeout, 429 a rate limit, 400 a validation failure, the 500 range
    /// keeps its status as a retryable HTTP error, and anything else is a
    /// network failure.
    pub fn from_status(status: u16, message: &str) -> (r: Self)
        ensures
            (status == 401 || status == 403) ==> (r matches LLMRouterError::Authentication {
                message: m } && m@ == message@),
            status == 404 ==> (r matches LLMRouterError::ModelNotFound { model_id: m } && m@
                == "unknown"@),
            status == 408 ==> (r matches LLMRouterError::Timeout { message: m, timeout_ms: t }
                && m@ == message@ && t is None),
            status == 429 ==> (r matches LLMRouterError::RateLimit {
                message: m, retry_after_ms: t } && m@ == message@ && t is None),
            status == 400 ==> (r matches LLMRouterError::Validation { message: m, field: f }
                && m@ == message@ && f is None),
            (500 <= status && status <= 599) ==> (r matches LLMRouterError::Http {
                status: s, message: m, body: b } && s == status && m@ == message@ && b is None),
            !(status == 401 || status == 403 || status == 404 || status == 408 || status == 429
                || status == 400 || (500 <= status && status <= 599)) ==> (r matches
                LLMRouterError::Network { message: m } && m@ == message@),
    {
        if status == 401 || status == 403 {
            LLMRouterError::authentication(message)
        } else if status == 404 {
            LLMRouterError::model_not_found("unknown")
        } else if status == 408 {
            LLMRouterError::timeout(message, None)
        } else if status == 429 {
            LLMRouterError::rate_limit(message, None)
        } else if status == 400 {
            LLMRouterError::validation(message, None)
        } else if 500 <= status && status <= 599 {
            LLMRouterError::http(status, message, None)
        } else {
            LLMRouterError::network(message)
        }
    }

    /// Classify a gRPC failure by its status: the message is prefixed with
    /// the transport's name and the numeric code is kept for the
    /// retryability rule.
    pub fn from_grpc_status(code: i32, message: &str) -> (r: Self)
        ensures
            (r matches LLMRouterError::Grpc { message: m, status_code: c } && m@
                == "gRPC error: "@ + message@ && c == Some(code)),
    {
        let mut m = String::from_str("gRPC error: ");
        m.append(message);
        LLMRouterError::Grpc { message: m, status_code: Some(code) }
    }

    /// Classify a failed transport exchange by what the transport reports
    /// of it: a timed-out request is a timeout with the client's thirty
    /// second budget, a failed connection and any other transport failure
    /// are network errors, and a request the transport refused to send is
    /// a validation failure.
    pub fn from_transport_flags(is_timeout: bool, is_connect: bool, is_request: bool) -> (r:
        Self)
        ensures
            is_timeout ==> (r matches LLMRouterError::Timeout { message: m, timeout_ms: t }
                && m@ == "HTTP request timeout"@ && t == Some(30000u64)),
            !is_timeout && is_connect ==> (r matches LLMRouterError::Network { message: m }
                && m@ == "Connection failed"@),
            !is_timeout && !is_connect && is_request ==> (r matches
                LLMRouterError::Validation { message: m, field: f } && m@ == "Invalid request"@
                && f is None),
            !is_timeout && !is_connect && !is_request ==> (r matches LLMRouterError::Network {
                message: m } && m@ == "HTTP error"@),
    {
        if is_timeout {
            LLMRouterError::timeout("HTTP request timeout", Some(30000))
        } else if is_connect {
            LLMRouterError::network("Connection failed")
        } else if is_request {
            LLMRouterError::validation("Invalid request", None)
        } else {
            LLMRouterError::network("HTTP error")
        }
    }
}

} // verus!
