//! Error taxonomy of the library.

use vstd::prelude::*;

use crate::text::{decimal, push_decimal, push_str, string_from_chars};

verus! {

/// Error taxonomy, modelled on `yfinance`'s exception hierarchy.
///
/// Errors raised by the transport, the JSON parser, the filesystem or UTF-8
/// decoding carry the message of the underlying error.
#[derive(Debug)]
pub enum YfError {
    /// Network/transport failure from the HTTP client.
    Http(String),
    /// Yahoo returned a non-success status code.
    Status { status: u16, body: String },
    /// Yahoo rate-limited the request (HTTP 429).
    RateLimited,
    /// JSON (de)serialization failure.
    Parse(String),
    /// Response body was not valid UTF-8.
    Utf8(String),
    /// The requested ticker could not be found / resolved.
    TickerMissing(String),
    /// Invalid period / interval / range combination.
    InvalidPeriod(String),
    /// Expected data was missing from the response.
    DataMissing(String),
    /// The requested feature is not supported.
    NotSupported(String),
    /// Local cache failure.
    Cache(String),
    /// Filesystem / IO failure.
    Io(String),
    /// Generic message error.
    Msg(String),
}

/// The human-readable message of an error.
pub open spec fn error_message(e: YfError) -> Seq<char> {
    match e {
        YfError::Http(m) => "HTTP request failed: "@ + m@,
        YfError::Status { status, body } => "Yahoo returned HTTP "@ + decimal(status as nat)
            + ": "@ + body@,
        YfError::RateLimited => "rate limited by Yahoo (HTTP 429)"@,
        YfError::Parse(m) => "failed to parse response: "@ + m@,
        YfError::Utf8(m) => "invalid UTF-8 in response: "@ + m@,
        YfError::TickerMissing(m) => "ticker not found: "@ + m@,
        YfError::InvalidPeriod(m) => "invalid period or interval: "@ + m@,
        YfError::DataMissing(m) => "missing data: "@ + m@,
        YfError::NotSupported(m) => "not supported: "@ + m@,
        YfError::Cache(m) => "cache error: "@ + m@,
        YfError::Io(m) => "io error: "@ + m@,
        YfError::Msg(m) => m@,
    }
}

impl YfError {
    /// The human-readable message of this error (what `Display` prints).
    pub fn message(&self) -> (s: String)
        ensures
            s@ == error_message(*self),
    {
        let mut v: Vec<char> = Vec::new();
        match self {
            YfError::Http(m) => {
                push_str(&mut v, "HTTP request failed: ");
                push_str(&mut v, m.as_str());
            },
            YfError::Status { status, body } => {
                push_str(&mut v, "Yahoo returned HTTP ");
                push_decimal(&mut v, *status as u64);
                push_str(&mut v, ": ");
                push_str(&mut v, body.as_str());
            },
            YfError::RateLimited => {
                push_str(&mut v, "rate limited by Yahoo (HTTP 429)");
            },
            YfError::Parse(m) => {
                push_str(&mut v, "failed to parse response: ");
                push_str(&mut v, m.as_str());
            },
            YfError::Utf8(m) => {
                push_str(&mut v, "invalid UTF-8 in response: ");
                push_str(&mut v, m.as_str());
            },
            YfError::TickerMissing(m) => {
                push_str(&mut v, "ticker not found: ");
                push_str(&mut v, m.as_str());
            },
            YfError::InvalidPeriod(m) => {
                push_str(&mut v, "invalid period or interval: ");
                push_str(&mut v, m.as_str());
            },
            YfError::DataMissing(m) => {
                push_str(&mut v, "missing data: ");
                push_str(&mut v, m.as_str());
            },
            YfError::NotSupported(m) => {
                push_str(&mut v, "not supported: ");
                push_str(&mut v, m.as_str());
            },
            YfError::Cache(m) => {
                push_str(&mut v, "cache error: ");
                push_str(&mut v, m.as_str());
            },
            YfError::Io(m) => {
                push_str(&mut v, "io error: ");
                push_str(&mut v, m.as_str());
            },
            YfError::Msg(m) => {
                push_str(&mut v, m.as_str());
            },
        }
        string_from_chars(v.as_slice())
    }

    /// A plain message error.
    pub fn msg(s: &str) -> (e: YfError)
        ensures
            e matches YfError::Msg(m) && m@ == s@,
    {
        YfError::Msg(s.to_owned())
    }
}

} // verus!
