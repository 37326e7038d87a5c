//! The error taxonomy of the library, the classifier that maps an HTTP
//! status and best-effort error envelope to exactly one variant, and the
//! retryability predicate that drives the request engine's retry policy.

use vstd::prelude::*;
use crate::render::dec_digits;
use crate::render::u64_to_string;

verus! {

/// How a transport-level failure arose, as far as the retry policy cares:
/// connection failures, timeouts and request-construction failures may be
/// retried, anything else may not.
#[derive(Debug, Clone, Copy, PartialEq, Eq, Structural)]
pub enum TransportKind {
    /// The connection could not be established.
    Connect,
    /// The exchange timed out.
    Timeout,
    /// The request could not be constructed or sent.
    Request,
    /// Any other transport failure (e.g. a malformed response stream).
    Other,
}

/// The error type of the library: transport, serialization, URL and
/// configuration failures, one variant per canonical HTTP status class,
/// and a generic fallback for any other non-2xx status.
#[derive(Debug, Clone)]
pub enum Error {
    /// Transport failure: no HTTP status was obtained.
    Http { kind: TransportKind, message: String },
    /// A 2xx response body failed to parse into the expected shape.
    Json { message: String },
    /// A URL could not be parsed or resolved.
    Url { message: String },
    /// The configuration was rejected.
    Config { message: String },
    /// Any non-2xx status without a dedicated variant (1xx, 3xx, unmapped 4xx/5xx).
    Api { status: u16, message: String, code: Option<String>, details: Option<Vec<(String, String)>> },
    /// HTTP 401.
    Authentication { message: String, code: Option<String>, details: Option<Vec<(String, String)>> },
    /// HTTP 400.
    BadRequest { message: String, code: Option<String>, details: Option<Vec<(String, String)>> },
    /// HTTP 403.
    PermissionDenied { message: String, code: Option<String>, details: Option<Vec<(String, String)>> },
    /// HTTP 404.
    NotFound { message: String, code: Option<String>, details: Option<Vec<(String, String)>> },
    /// HTTP 409.
    Conflict { message: String, code: Option<String>, details: Option<Vec<(String, String)>> },
    /// HTTP 422.
    UnprocessableEntity { message: String, code: Option<String>, details: Option<Vec<(String, String)>> },
    /// HTTP 429.
    RateLimit { message: String, code: Option<String>, details: Option<Vec<(String, String)>> },
    /// HTTP 5xx.
    InternalServer { message: String, code: Option<String>, details: Option<Vec<(String, String)>> },
}

/// The best-effort error envelope a server may send with a non-2xx status:
/// `{error?, code?, details?}`. The application parses the raw body into
/// this shape; an unparsable body is passed as `None` and the classifier
/// falls back to the raw body text as the message.
#[derive(Debug, Clone)]
pub struct ErrorEnvelope {
    /// The server's human-readable message, when present.
    pub error: Option<String>,
    /// A machine-readable error code, when present.
    pub code: Option<String>,
    /// Additional key/value detail, when present.
    pub details: Option<Vec<(String, String)>>,
}

/// The message the classifier reports: the envelope's `error` field when
/// present, otherwise the raw body text.
pub open spec fn chosen_message(body: String, envelope: Option<ErrorEnvelope>) -> String {
    match envelope {
        Some(env) => match env.error {
            Some(m) => m,
            None => body,
        },
        None => body,
    }
}

/// The code the classifier reports: the envelope's, when any envelope parsed.
pub open spec fn envelope_code(envelope: Option<ErrorEnvelope>) -> Option<String> {
    match envelope {
        Some(env) => env.code,
        None => None,
    }
}

/// The details the classifier reports: the envelope's, when any envelope parsed.
pub open spec fn envelope_details(envelope: Option<ErrorEnvelope>) -> Option<Vec<(String, String)>> {
    match envelope {
        Some(env) => env.details,
        None => None,
    }
}

/// The status-to-variant table: a pure function of the status code and the
/// (already parsed) envelope. Total over all statuses; the engine only
/// consults it for non-2xx responses.
pub open spec fn spec_classify(status: u16, body: String, envelope: Option<ErrorEnvelope>) -> Error {
    let message = chosen_message(body, envelope);
    let code = envelope_code(envelope);
    let details = envelope_details(envelope);
    if status == 400 {
        Error::BadRequest { message, code, details }
    } else if status == 401 {
        Error::Authentication { message, code, details }
    } else if status == 403 {
        Error::PermissionDenied { message, code, details }
    } else if status == 404 {
        Error::NotFound { message, code, details }
    } else if status == 409 {
        Error::Conflict { message, code, details }
    } else if status == 422 {
        Error::UnprocessableEntity { message, code, details }
    } else if status == 429 {
        Error::RateLimit { message, code, details }
    } else if 500 <= status && status <= 599 {
        Error::InternalServer { message, code, details }
    } else {
        Error::Api { status, message, code, details }
    }
}

/// Classify a non-2xx (or any) HTTP response into exactly one error variant.
///
/// `body` is the raw response text; `envelope` is the body parsed as the
/// best-effort error envelope, or `None` when it did not parse.
pub fn classify(status: u16, body: String, envelope: Option<ErrorEnvelope>) -> (e: Error)
    ensures
        e == spec_classify(status, body, envelope),
{
    let (message, code, details) = match envelope {
        Some(env) => {
            let m = match env.error {
                Some(m) => m,
                None => body,
            };
            (m, env.code, env.details)
        },
        None => (body, None, None),
    };
    if status == 400 {
        Error::BadRequest { message, code, details }
    } else if status == 401 {
        Error::Authentication { message, code, details }
    } else if status == 403 {
        Error::PermissionDenied { message, code, details }
    } else if status == 404 {
        Error::NotFound { message, code, details }
    } else if status == 409 {
        Error::Conflict { message, code, details }
    } else if status == 422 {
        Error::UnprocessableEntity { message, code, details }
    } else if status == 429 {
        Error::RateLimit { message, code, details }
    } else if 500 <= status && status <= 599 {
        Error::InternalServer { message, code, details }
    } else {
        Error::Api { status, message, code, details }
    }
}

/// Retryability: transport connect/timeout/request-construction failures,
/// HTTP 409, 429 and 5xx, and a generic API error whose status is 408 or
/// at least 500. Everything else is terminal.
pub open spec fn spec_is_retryable(e: Error) -> bool {
    match e {
        Error::Http { kind, .. } => kind is Connect || kind is Timeout || kind is Request,
        Error::Conflict { .. } => true,
        Error::RateLimit { .. } => true,
        Error::InternalServer { .. } => true,
        Error::Api { status, .. } => status == 408 || status >= 500,
        _ => false,
    }
}

impl Error {
    /// Whether re-issuing the identical request may succeed without caller
    /// intervention.
    pub fn is_retryable(&self) -> (r: bool)
        ensures
            r == spec_is_retryable(*self),
    {
        match self {
            Error::Http { kind, .. } => match kind {
                TransportKind::Connect => true,
                TransportKind::Timeout => true,
                TransportKind::Request => true,
                TransportKind::Other => false,
            },
            Error::Conflict { .. } => true,
            Error::RateLimit { .. } => true,
            Error::InternalServer { .. } => true,
            Error::Api { status, .. } => *status == 408 || *status >= 500,
            _ => false,
        }
    }

    /// Build an authentication error with no code or details.
    pub fn authentication(message: String) -> (e: Error)
        ensures
            e == (Error::Authentication { message, code: None, details: None }),
    {
        Error::Authentication { message, code: None, details: None }
    }

    /// Build a configuration error.
    pub fn config(message: String) -> (e: Error)
        ensures
            e == (Error::Config { message }),
    {
        Error::Config { message }
    }

    /// The human-readable rendering of this error: a fixed prefix naming the
    /// variant, then the message (and the numeric status for the generic
    /// API variant).
    pub open spec fn spec_describe(self) -> Seq<char> {
        match self {
            Error::Http { message, .. } => "HTTP client error: "@ + message@,
            Error::Json { message } => "JSON error: "@ + message@,
            Error::Url { message } => "URL error: "@ + message@,
            Error::Config { message } => "Configuration error: "@ + message@,
            Error::Api { status, message, .. } => "API error "@ + dec_digits(status as nat) + ": "@
                + message@,
            Error::Authentication { message, .. } => "Authentication error: "@ + message@,
            Error::BadRequest { message, .. } => "Bad request: "@ + message@,
            Error::PermissionDenied { message, .. } => "Permission denied: "@ + message@,
            Error::NotFound { message, .. } => "Not found: "@ + message@,
            Error::Conflict { message, .. } => "Conflict: "@ + message@,
            Error::UnprocessableEntity { message, .. } => "Unprocessable entity: "@ + message@,
            Error::RateLimit { message, .. } => "Rate limited: "@ + message@,
            Error::InternalServer { message, .. } => "Internal server error: "@ + message@,
        }
    }

    /// Render this error as one line of text.
    pub fn describe(&self) -> (r: String)
        ensures
            r@ == self.spec_describe(),
    {
        let mut r = String::new();
        match self {
            Error::Http { message, .. } => {
                r.append("HTTP client error: ");
                r.append(message.as_str());
            },
            Error::Json { message } => {
                r.append("JSON error: ");
                r.append(message.as_str());
            },
            Error::Url { message } => {
                r.append("URL error: ");
                r.append(message.as_str());
            },
            Error::Config { message } => {
                r.append("Configuration error: ");
                r.append(message.as_str());
            },
            Error::Api { status, message, .. } => {
                r.append("API error ");
                r.append(u64_to_string(*status as u64).as_str());
                r.append(": ");
                r.append(message.as_str());
            },
            Error::Authentication { message, .. } => {
                r.append("Authentication error: ");
                r.append(message.as_str());
            },
            Error::BadRequest { message, .. } => {
                r.append("Bad request: ");
                r.append(message.as_str());
            },
            Error::PermissionDenied { message, .. } => {
                r.append("Permission denied: ");
                r.append(message.as_str());
            },
            Error::NotFound { message, .. } => {
                r.append("Not found: ");
                r.append(message.as_str());
            },
            Error::Conflict { message, .. } => {
                r.append("Conflict: ");
                r.append(message.as_str());
            },
            Error::UnprocessableEntity { message, .. } => {
                r.append("Unprocessable entity: ");
                r.append(message.as_str());
            },
            Error::RateLimit { message, .. } => {
                r.append("Rate limited: ");
                r.append(message.as_str());
            },
            Error::InternalServer { message, .. } => {
                r.append("Internal server error: ");
                r.append(message.as_str());
            },
        }
        r
    }
}

/// The retryability predicate, variant by variant: `Conflict`, `RateLimit`
/// and `InternalServer` are retryable, as are transport connect, timeout
/// and request-construction failures and a generic API error with status
/// 408 or >= 500; every other variant is terminal.
pub proof fn lemma_retryable_variants(e: Error)
    ensures
        e matches Error::Conflict { .. } ==> spec_is_retryable(e),
        e matches Error::RateLimit { .. } ==> spec_is_retryable(e),
        e matches Error::InternalServer { .. } ==> spec_is_retryable(e),
        e matches Error::Http { kind, .. } ==> (spec_is_retryable(e) <==> (kind is Connect
            || kind is Timeout || kind is Request)),
        e matches Error::Api { status, .. } ==> (spec_is_retryable(e) <==> (status == 408 || status
            >= 500)),
        e matches Error::BadRequest { .. } ==> !spec_is_retryable(e),
        e matches Error::Authentication { .. } ==> !spec_is_retryable(e),
        e matches Error::PermissionDenied { .. } ==> !spec_is_retryable(e),
        e matches Error::NotFound { .. } ==> !spec_is_retryable(e),
        e matches Error::UnprocessableEntity { .. } ==> !spec_is_retryable(e),
        e matches Error::Config { .. } ==> !spec_is_retryable(e),
        e matches Error::Json { .. } ==> !spec_is_retryable(e),
        e matches Error::Url { .. } ==> !spec_is_retryable(e),
{
}

/// The classifier is total and exact: each explicitly mapped status yields
/// its named variant, any 5xx yields `InternalServer`, and every other
/// status yields the generic `Api` variant carrying that status; in every
/// case the message is the envelope's `error` field when present, else the
/// raw body.
pub proof fn lemma_classify_total(status: u16, body: String, envelope: Option<ErrorEnvelope>)
    ensures
        status == 400 ==> spec_classify(status, body, envelope) matches Error::BadRequest { .. },
        status == 401 ==> spec_classify(status, body, envelope) matches Error::Authentication {
            .. },
        status == 403 ==> spec_classify(status, body, envelope) matches Error::PermissionDenied {
            .. },
        status == 404 ==> spec_classify(status, body, envelope) matches Error::NotFound { .. },
        status == 409 ==> spec_classify(status, body, envelope) matches Error::Conflict { .. },
        status == 422 ==> spec_classify(status, body, envelope) matches Error::UnprocessableEntity {
            .. },
        status == 429 ==> spec_classify(status, body, envelope) matches Error::RateLimit { .. },
        500 <= status <= 599 ==> spec_classify(status, body, envelope)
            matches Error::InternalServer { .. },
        !(status == 400 || status == 401 || status == 403 || status == 404 || status == 409
            || status == 422 || status == 429 || (500 <= status <= 599)) ==> (spec_classify(
            status,
            body,
            envelope,
        ) matches Error::Api { status: s, .. } && s == status),
        envelope matches Some(env) ==> (env.error matches Some(m) ==> error_message(
            spec_classify(status, body, envelope),
        ) == m) && (env.error is None ==> error_message(spec_classify(status, body, envelope))
            == body),
        envelope is None ==> error_message(spec_classify(status, body, envelope)) == body,
{
    assert(error_message(spec_classify(status, body, envelope)) == chosen_message(
        body,
        envelope,
    ));
}

/// The message field of any error variant.
pub open spec fn error_message(e: Error) -> String {
    match e {
        Error::Http { message, .. } => message,
        Error::Json { message } => message,
        Error::Url { message } => message,
        Error::Config { message } => message,
        Error::Api { message, .. } => message,
        Error::Authentication { message, .. } => message,
        Error::BadRequest { message, .. } => message,
        Error::PermissionDenied { message, .. } => message,
        Error::NotFound { message, .. } => message,
        Error::Conflict { message, .. } => message,
        Error::UnprocessableEntity { message, .. } => message,
        Error::RateLimit { message, .. } => message,
        Error::InternalServer { message, .. } => message,
    }
}

} // verus!
