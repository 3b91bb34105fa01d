//! The credential record owned by the token lifecycle manager, and the raw
//! field set a token endpoint response carries.

use vstd::prelude::*;

verus! {

/// Number of seconds before the declared expiry at which a credential is
/// already treated as stale, so a refresh happens with time to spare.
pub const REFRESH_MARGIN_SECS: u64 = 300;

/// An access credential as issued by the provider. `refresh_token` is empty
/// for the implicit grant, which can never be refreshed. `issued_at` is the
/// wall-clock second (Unix time) at which the fields were obtained.
pub struct Credential {
    pub access_token: String,
    pub token_type: String,
    pub refresh_token: String,
    pub expires_in: u64,
    pub issued_at: u64,
}

impl Credential {
    /// A usable credential carries a non-empty access token and token type.
    pub open spec fn valid(self) -> bool {
        self.access_token@.len() > 0 && self.token_type@.len() > 0
    }

    /// Staleness policy: refresh once the time left before the declared
    /// expiry is within the safety margin.
    pub open spec fn stale_at(self, now: u64) -> bool {
        now + REFRESH_MARGIN_SECS >= self.issued_at + self.expires_in
    }

    /// Executable staleness test; the additions are carried out wide enough
    /// that they cannot overflow.
    pub fn is_stale(&self, now: u64) -> (r: bool)
        ensures
            r == self.stale_at(now),
    {
        now as u128 + REFRESH_MARGIN_SECS as u128 >= self.issued_at as u128
            + self.expires_in as u128
    }

    /// A field-for-field copy.
    pub fn snapshot(&self) -> (r: Self)
        ensures
            r == *self,
    {
        Credential {
            access_token: self.access_token.clone(),
            token_type: self.token_type.clone(),
            refresh_token: self.refresh_token.clone(),
            expires_in: self.expires_in,
            issued_at: self.issued_at,
        }
    }
}

/// The fields of one token endpoint response, already decoded from JSON:
/// the provider may omit `refresh_token` on a refresh exchange.
pub struct TokenFields {
    pub access_token: String,
    pub token_type: String,
    pub refresh_token: Option<String>,
    pub expires_in: u64,
}

impl TokenFields {
    /// A response is usable when the fields the credential invariant needs
    /// are non-empty.
    pub open spec fn usable(self) -> bool {
        self.access_token@.len() > 0 && self.token_type@.len() > 0
    }

    /// Executable form of [`TokenFields::usable`].
    pub fn is_usable(&self) -> (r: bool)
        ensures
            r == self.usable(),
    {
        !self.access_token.as_str().is_empty() && !self.token_type.as_str().is_empty()
    }
}

} // verus!
