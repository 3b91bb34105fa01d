//! The grant finalizer: given the finalize request's target and the
//! session's anti-forgery nonce, validate the `state` parameter and extract
//! either the implicit grant's credential fields or the authorization code.
//! The state check always comes first: a forged or replayed redirect fails
//! before anything is read out of it.

use vstd::prelude::*;
use vstd::string::{StrSliceExecFns, StringExecFns};

use crate::credential::Credential;
use crate::decimal::{dec_value_of, is_dec_digits, parse_u64};
use crate::errors::ProtocolError;
use crate::query::{check_state, last_value_for, lookup_last, parse_query, query_pairs,
    state_matches};
use crate::textscan::{split_on, split_str};

verus! {

/// The query part of a request target: the part between the first `?` and
/// the second `?` or the end; a target without `?` has none.
pub open spec fn query_of_target(url: Seq<char>) -> Option<Seq<char>> {
    if split_on(url, '?').len() >= 2 {
        Some(split_on(url, '?')[1])
    } else {
        None
    }
}

/// Executable form of [`query_of_target`].
pub fn target_query(url: &str) -> (r: Option<String>)
    ensures
        match r {
            Some(q) => query_of_target(url@) == Some(q@),
            None => query_of_target(url@) is None,
        },
{
    let segs = split_str(url, '?');
    if segs.len() >= 2 {
        Some(segs[1].clone())
    } else {
        None
    }
}

/// The fields an implicit-grant redirect carries, at the specification
/// level.
pub struct ImplicitGrant {
    pub access_token: Seq<char>,
    pub token_type: Seq<char>,
    pub expires_in: u64,
}

/// What finalizing an implicit-grant redirect yields: the state check comes
/// first; then the last occurrence of each recognized parameter wins, every
/// unrecognized parameter is ignored, a missing or empty required parameter
/// is rejected, and `expires_in` must be a decimal number that fits.
pub open spec fn spec_finalize_implicit(url: Seq<char>, expected: Seq<char>) -> Result<
    ImplicitGrant,
    ProtocolError,
> {
    match query_of_target(url) {
        None => Err(ProtocolError::MissingQuery),
        Some(q) => {
            let pairs = query_pairs(q);
            if !state_matches(pairs, expected) {
                Err(ProtocolError::StateMismatch)
            } else {
                match (
                    last_value_for(pairs, "access_token"@),
                    last_value_for(pairs, "token_type"@),
                    last_value_for(pairs, "expires_in"@),
                ) {
                    (Some(Some(at)), Some(Some(tt)), Some(Some(exp))) => {
                        if at.len() == 0 || tt.len() == 0 {
                            Err(ProtocolError::MissingParameter)
                        } else if !(is_dec_digits(exp) && dec_value_of(exp) <= u64::MAX) {
                            Err(ProtocolError::MalformedNumber)
                        } else {
                            Ok(
                                ImplicitGrant {
                                    access_token: at,
                                    token_type: tt,
                                    expires_in: dec_value_of(exp) as u64,
                                },
                            )
                        }
                    },
                    _ => Err(ProtocolError::MissingParameter),
                }
            }
        },
    }
}

/// Finalize an implicit-grant redirect: on success the credential mirrors
/// the redirect parameters, is stamped with `now`, and carries no refresh
/// token (the implicit grant never refreshes).
pub fn finalize_implicit(url: &str, expected_state: &str, now: u64) -> (r: Result<
    Credential,
    ProtocolError,
>)
    ensures
        match spec_finalize_implicit(url@, expected_state@) {
            Ok(g) => r is Ok && {
                let c = r->Ok_0;
                &&& c.access_token@ == g.access_token
                &&& c.token_type@ == g.token_type
                &&& c.expires_in == g.expires_in
                &&& c.issued_at == now
                &&& c.refresh_token@ == Seq::<char>::empty()
                &&& c.valid()
            },
            Err(e) => r == Err::<Credential, ProtocolError>(e),
        },
{
    let q = match target_query(url) {
        Some(q) => q,
        None => {
            return Err(ProtocolError::MissingQuery);
        },
    };
    let pairs = parse_query(q.as_str());
    if !check_state(&pairs, expected_state) {
        return Err(ProtocolError::StateMismatch);
    }
    let access_token = match lookup_last(&pairs, "access_token") {
        Some(Some(v)) => v,
        _ => {
            return Err(ProtocolError::MissingParameter);
        },
    };
    let token_type = match lookup_last(&pairs, "token_type") {
        Some(Some(v)) => v,
        _ => {
            return Err(ProtocolError::MissingParameter);
        },
    };
    let expires_raw = match lookup_last(&pairs, "expires_in") {
        Some(Some(v)) => v,
        _ => {
            return Err(ProtocolError::MissingParameter);
        },
    };
    if access_token.as_str().is_empty() || token_type.as_str().is_empty() {
        return Err(ProtocolError::MissingParameter);
    }
    let expires_in = match parse_u64(expires_raw.as_str()) {
        Some(v) => v,
        None => {
            return Err(ProtocolError::MalformedNumber);
        },
    };
    Ok(
        Credential {
            access_token,
            token_type,
            refresh_token: String::new(),
            expires_in,
            issued_at: now,
        },
    )
}

/// What finalizing an authorization-code redirect yields before the
/// exchange: the state check comes first, then the last `code` parameter,
/// which must be present and non-empty.
pub open spec fn spec_extract_code(url: Seq<char>, expected: Seq<char>) -> Result<
    Seq<char>,
    ProtocolError,
> {
    match query_of_target(url) {
        None => Err(ProtocolError::MissingQuery),
        Some(q) => {
            let pairs = query_pairs(q);
            if !state_matches(pairs, expected) {
                Err(ProtocolError::StateMismatch)
            } else {
                match last_value_for(pairs, "code"@) {
                    Some(Some(code)) => {
                        if code.len() == 0 {
                            Err(ProtocolError::MissingParameter)
                        } else {
                            Ok(code)
                        }
                    },
                    _ => Err(ProtocolError::MissingParameter),
                }
            }
        },
    }
}

/// Extract the authorization code from a finalize redirect, validating the
/// anti-forgery nonce first.
pub fn extract_auth_code(url: &str, expected_state: &str) -> (r: Result<String, ProtocolError>)
    ensures
        match spec_extract_code(url@, expected_state@) {
            Ok(code) => r is Ok && r->Ok_0@ == code,
            Err(e) => r == Err::<String, ProtocolError>(e),
        },
{
    let q = match target_query(url) {
        Some(q) => q,
        None => {
            return Err(ProtocolError::MissingQuery);
        },
    };
    let pairs = parse_query(q.as_str());
    if !check_state(&pairs, expected_state) {
        return Err(ProtocolError::StateMismatch);
    }
    let code = match lookup_last(&pairs, "code") {
        Some(Some(v)) => v,
        _ => {
            return Err(ProtocolError::MissingParameter);
        },
    };
    if code.as_str().is_empty() {
        return Err(ProtocolError::MissingParameter);
    }
    Ok(code)
}

/// Law: a finalize request whose `state` parameter differs from the
/// session's nonce always yields the state-mismatch protocol error, for
/// either grant variant, so no credential and no code ever comes out of it.
pub proof fn lemma_state_mismatch_rejected(url: Seq<char>, expected: Seq<char>)
    requires
        query_of_target(url) is Some,
        !state_matches(query_pairs(query_of_target(url)->Some_0), expected),
    ensures
        spec_finalize_implicit(url, expected) == Err::<ImplicitGrant, ProtocolError>(
            ProtocolError::StateMismatch,
        ),
        spec_extract_code(url, expected) == Err::<Seq<char>, ProtocolError>(
            ProtocolError::StateMismatch,
        ),
{
}

} // verus!
