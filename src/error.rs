//! The closed set of failures that every other component reports.
use vstd::prelude::*;

use crate::text::{decimal, decimal_string, join};

verus! {

/// A failure of any operation of the library, with its human-readable detail.
#[derive(Debug, Clone)]
pub enum AppError {
    /// A transport-level failure: timeout, refused connection, name lookup.
    Network(String),
    /// A non-2xx response that has no kind of its own.
    Http { status: u16, message: String },
    /// An invalid or expired credential, or a missing permission.
    Auth(String),
    /// A body that could not be decoded or encoded.
    Json(String),
    /// A failure of the credential store or of a local file.
    Storage(String),
    /// Too many requests.
    RateLimit,
    /// Anything else, such as a visibility name that is not one of the three.
    Unknown(String),
}

/// What an `AppError` says: its kind and the characters of its detail.
pub enum ErrorView {
    Network(Seq<char>),
    Http { status: u16, message: Seq<char> },
    Auth(Seq<char>),
    Json(Seq<char>),
    Storage(Seq<char>),
    RateLimit,
    Unknown(Seq<char>),
}

impl View for AppError {
    type V = ErrorView;

    open spec fn view(&self) -> ErrorView {
        match self {
            AppError::Network(d) => ErrorView::Network(d@),
            AppError::Http { status, message } => ErrorView::Http { status: *status, message: message@ },
            AppError::Auth(d) => ErrorView::Auth(d@),
            AppError::Json(d) => ErrorView::Json(d@),
            AppError::Storage(d) => ErrorView::Storage(d@),
            AppError::RateLimit => ErrorView::RateLimit,
            AppError::Unknown(d) => ErrorView::Unknown(d@),
        }
    }
}

/// The display text of an error, as it is handed across the command boundary.
pub open spec fn error_text(e: ErrorView) -> Seq<char> {
    match e {
        ErrorView::Network(d) => "Network error: "@ + d,
        ErrorView::Http { status, message } => "HTTP error: status "@ + decimal(status as nat)
            + ", message: "@ + message,
        ErrorView::Auth(d) => "Authentication failed: "@ + d,
        ErrorView::Json(d) => "JSON serialization/deserialization error: "@ + d,
        ErrorView::Storage(d) => "Storage error: "@ + d,
        ErrorView::RateLimit => "Rate limit exceeded"@,
        ErrorView::Unknown(d) => "Unknown error: "@ + d,
    }
}

/// The detail of a transport failure, by what the transport reports of it.
pub open spec fn transport_detail(timeout: bool, connect: bool, text: Seq<char>) -> Seq<char> {
    if timeout {
        "Request timeout"@
    } else if connect {
        "Connection failed"@
    } else {
        text
    }
}

impl AppError {
    /// The display text of this error.
    pub fn message(&self) -> (r: String)
        ensures
            r@ == error_text(self@),
    {
        match self {
            AppError::Network(d) => join("Network error: ", d.as_str()),
            AppError::Http { status, message } => {
                let mut s = join("HTTP error: status ", decimal_string(*status).as_str());
                s.append(", message: ");
                s.append(message.as_str());
                s
            },
            AppError::Auth(d) => join("Authentication failed: ", d.as_str()),
            AppError::Json(d) => join("JSON serialization/deserialization error: ", d.as_str()),
            AppError::Storage(d) => join("Storage error: ", d.as_str()),
            AppError::RateLimit => String::from_str("Rate limit exceeded"),
            AppError::Unknown(d) => join("Unknown error: ", d.as_str()),
        }
    }

    /// The `Network` error for a transport failure: a timeout and a failed
    /// connection get fixed details, anything else keeps the transport's text.
    pub fn from_transport(timeout: bool, connect: bool, text: String) -> (r: AppError)
        ensures
            r@ == ErrorView::Network(transport_detail(timeout, connect, text@)),
    {
        if timeout {
            AppError::Network(String::from_str("Request timeout"))
        } else if connect {
            AppError::Network(String::from_str("Connection failed"))
        } else {
            AppError::Network(text)
        }
    }

    /// The `Network` error for a failure that the HTTP client reported.
    pub fn from_reqwest(e: &reqwest::Error) -> (r: AppError)
        ensures
            r@ == ErrorView::Network(
                transport_detail(timed_out(*e), connect_failed(*e), reqwest_display(*e)),
            ),
    {
        AppError::from_transport(reqwest_is_timeout(e), reqwest_is_connect(e), reqwest_text(e))
    }
}

#[verifier::external_type_specification]
#[verifier::external_body]
pub struct ExReqwestError(reqwest::Error);

/// Whether the HTTP client's error `e` reports a timeout.
pub uninterp spec fn timed_out(e: reqwest::Error) -> bool;

/// Whether the HTTP client's error `e` reports a failed connection.
pub uninterp spec fn connect_failed(e: reqwest::Error) -> bool;

/// The display text of the HTTP client's error `e`.
pub uninterp spec fn reqwest_display(e: reqwest::Error) -> Seq<char>;

/// Relies on reqwest::Error::is_timeout: whether the request timed out,
/// which depends on the error alone.
#[verifier::external_body]
fn reqwest_is_timeout(e: &reqwest::Error) -> (r: bool)
    ensures
        r == timed_out(*e),
{
    e.is_timeout()
}

/// Relies on reqwest::Error::is_connect: whether connecting failed, which
/// depends on the error alone.
#[verifier::external_body]
fn reqwest_is_connect(e: &reqwest::Error) -> (r: bool)
    ensures
        r == connect_failed(*e),
{
    e.is_connect()
}

/// Relies on reqwest::Error's `Display`: the error's text, which depends on
/// the error alone.
#[verifier::external_body]
fn reqwest_text(e: &reqwest::Error) -> (r: String)
    ensures
        r@ == reqwest_display(*e),
{
    e.to_string()
}

} // verus!
