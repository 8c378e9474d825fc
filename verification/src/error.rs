//! The error taxonomy: how upstream failures map to client-facing outcomes.

use vstd::prelude::*;
use vstd::string::StringExecFns;

verus! {

/// Failure of an outbound HTTP call at the transport level: the call never
/// yielded an HTTP response. Each variant carries the HTTP client's
/// human-readable detail.
#[derive(Debug, Clone, PartialEq, Eq)]
pub enum TransportError {
    /// The call exceeded its deadline.
    TimedOut(String),
    /// The connection could not be established.
    ConnectionFailed(String),
    /// Any other transport failure.
    Other(String),
}

impl TransportError {
    /// The client's detail text, whatever the failure kind.
    pub open spec fn detail(self) -> Seq<char> {
        match self {
            TransportError::TimedOut(d) => d@,
            TransportError::ConnectionFailed(d) => d@,
            TransportError::Other(d) => d@,
        }
    }
}

/// A failed lookup, as surfaced to the caller. Each variant carries a
/// human-readable message.
#[derive(Debug, Clone, PartialEq, Eq)]
pub enum AppError {
    /// The requested entity is absent upstream.
    NotFound(String),
    /// An upstream protocol, status or parse failure.
    ExternalApi(String),
    /// A local invariant violation, such as a bind failure at startup.
    Internal(String),
    /// An outbound call exceeded its deadline.
    Timeout(String),
}

impl AppError {
    /// The HTTP status equivalent of each error kind.
    pub fn status_code(&self) -> (s: u16)
        ensures
            s == match *self {
                AppError::NotFound(_) => 404u16,
                AppError::ExternalApi(_) => 502u16,
                AppError::Internal(_) => 500u16,
                AppError::Timeout(_) => 504u16,
            },
    {
        match self {
            AppError::NotFound(_) => 404,
            AppError::ExternalApi(_) => 502,
            AppError::Internal(_) => 500,
            AppError::Timeout(_) => 504,
        }
    }

    /// The human-readable message: the kind, then the detail.
    pub fn message(&self) -> (m: String)
        ensures
            m@ == match *self {
                AppError::NotFound(d) => "Not found: "@ + d@,
                AppError::ExternalApi(d) => "External API error: "@ + d@,
                AppError::Internal(d) => "Internal error: "@ + d@,
                AppError::Timeout(d) => "Timeout: "@ + d@,
            },
    {
        match self {
            AppError::NotFound(d) => {
                let mut m = "Not found: ".to_owned();
                m.append(d.as_str());
                m
            },
            AppError::ExternalApi(d) => {
                let mut m = "External API error: ".to_owned();
                m.append(d.as_str());
                m
            },
            AppError::Internal(d) => {
                let mut m = "Internal error: ".to_owned();
                m.append(d.as_str());
                m
            },
            AppError::Timeout(d) => {
                let mut m = "Timeout: ".to_owned();
                m.append(d.as_str());
                m
            },
        }
    }
}

} // verus!
