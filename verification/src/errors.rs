//! Error taxonomy of the core: each variant names one way an authentication
//! attempt, a token exchange, or a paginated export can fail.

use vstd::prelude::*;

verus! {

/// A malformed or forged redirect: always fatal to the in-flight
/// authentication attempt.
#[derive(Clone, Copy, Debug, PartialEq, Eq, Structural)]
pub enum ProtocolError {
    /// The redirect's `state` parameter differs from the session's nonce.
    StateMismatch,
    /// The finalize request carries no query string.
    MissingQuery,
    /// A required query parameter is absent or has no value.
    MissingParameter,
    /// A numeric parameter does not parse as a decimal integer.
    MalformedNumber,
}

impl ProtocolError {
    /// A human-readable description for the caller's diagnostics.
    pub fn message(&self) -> &'static str {
        match self {
            ProtocolError::StateMismatch => "state parameter does not match the session nonce",
            ProtocolError::MissingQuery => "finalize request carries no query string",
            ProtocolError::MissingParameter => "a required query parameter is missing",
            ProtocolError::MalformedNumber => "a numeric query parameter is malformed",
        }
    }
}

/// A failed token exchange or refresh: fatal to the current call, but does
/// not invalidate an already-valid session.
#[derive(Clone, Copy, Debug, PartialEq, Eq, Structural)]
pub enum ExchangeError {
    /// The token endpoint answered with a non-success HTTP status.
    HttpStatus,
    /// The response body is not the expected JSON shape.
    MalformedJson,
    /// A required field such as `access_token` is empty in the response.
    MissingField,
    /// An exchange that must issue a refresh token did not.
    MissingRefreshToken,
    /// The transport failed before any response arrived.
    Network,
}

impl ExchangeError {
    /// A human-readable description for the caller's diagnostics.
    pub fn message(&self) -> &'static str {
        match self {
            ExchangeError::HttpStatus => "token endpoint returned a non-success status",
            ExchangeError::MalformedJson => "token response is not well-formed JSON",
            ExchangeError::MissingField => "token response lacks a required field",
            ExchangeError::MissingRefreshToken => "exchange response carries no refresh token",
            ExchangeError::Network => "transport failure during token exchange",
        }
    }
}

/// A failed page fetch: fatal to that resource type's export only.
#[derive(Clone, Copy, Debug, PartialEq, Eq, Structural)]
pub enum FetchError {
    /// The resource endpoint answered with a non-success HTTP status.
    HttpStatus,
    /// The page body is not the expected JSON envelope.
    MalformedJson,
    /// The transport failed before any response arrived.
    Network,
}

impl FetchError {
    /// A human-readable description for the caller's diagnostics.
    pub fn message(&self) -> &'static str {
        match self {
            FetchError::HttpStatus => "resource endpoint returned a non-success status",
            FetchError::MalformedJson => "page response is not the expected JSON envelope",
            FetchError::Network => "transport failure during a page fetch",
        }
    }
}

/// A page boundary condition under which the pagination engine cannot make
/// progress: fatal to that resource type's export only.
#[derive(Clone, Copy, Debug, PartialEq, Eq, Structural)]
pub enum PaginationError {
    /// A page yielded zero new items while fewer than `total` are accumulated.
    NoProgress,
    /// A response arrived although the collection was already complete.
    AlreadyComplete,
}

impl PaginationError {
    /// A human-readable description for the caller's diagnostics.
    pub fn message(&self) -> &'static str {
        match self {
            PaginationError::NoProgress => "page yielded no new items before the declared total",
            PaginationError::AlreadyComplete => "page received after the collection was complete",
        }
    }
}

} // verus!
