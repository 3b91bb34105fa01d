//! Verified core of a music-library exporter: OAuth2 grant finalization,
//! token lifecycle management, and a generic pagination engine.
//!
//! The surrounding process (CLI, sockets, HTTP transport, file output) is
//! unverified plumbing that hands this library plain values and performs the
//! actions it decides on.

pub mod auth;
pub mod credential;
pub mod decimal;
pub mod errors;
pub mod finalize;
pub mod lifecycle;
pub mod pagination;
pub mod provider_json;
pub mod query;
pub mod request;
pub mod textscan;
pub mod urls;

pub use errors::ExchangeError;
pub use errors::FetchError;
pub use errors::PaginationError;
pub use errors::ProtocolError;
