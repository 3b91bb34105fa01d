//! The token lifecycle manager: it owns the credential, decides when a
//! refresh is due, serializes refresh attempts, and says what must be
//! persisted. The transport layer performs the exchanges it plans and feeds
//! the decoded outcome back.

use vstd::prelude::*;
use vstd::string::StringExecFns;

use crate::auth::{
    basic_auth_header, basic_auth_of, refresh_exchange_request, code_exchange_request,
    is_refresh_exchange, is_code_exchange, ExchangeRequest, FlowType,
};
use crate::credential::{Credential, TokenFields, REFRESH_MARGIN_SECS};
use crate::errors::ExchangeError;

verus! {

/// What a caller that needs a fresh credential must do next.
pub enum FreshPlan {
    /// The credential on hand is usable: read it off the manager.
    UseCurrent,
    /// Perform this exchange, then report back through
    /// [`TokenManager::ensure_fresh_finish`].
    Refresh(ExchangeRequest),
    /// Another worker's refresh is in flight: wait for it to finish, then
    /// ask again.
    Busy,
    /// No credential and no refresh token on hand: only a browser-driven
    /// authorization can help.
    Interactive,
}

impl FreshPlan {
    /// Whether this plan starts an exchange.
    pub open spec fn is_refresh(self) -> bool {
        self is Refresh
    }
}

/// The single owner of the credential. Exactly one refresh exchange is in
/// flight at any time: `refresh_busy` is set while one is, and a second
/// staleness observation then yields [`FreshPlan::Busy`] instead of a second
/// exchange.
pub struct TokenManager {
    pub flow: FlowType,
    pub client_id: String,
    pub client_secret: String,
    pub auth_header: String,
    pub credential: Option<Credential>,
    pub refresh_token: Option<String>,
    pub refresh_busy: bool,
}

impl TokenManager {
    /// Internal consistency: the precomputed auth header matches the client
    /// credentials, implicit-grant sessions never hold refresh state, and an
    /// authorization-code credential always has a refresh token beside it.
    pub open spec fn wf(self) -> bool {
        &&& self.auth_header@ == basic_auth_of(self.client_id@, self.client_secret@)
        &&& (self.flow == FlowType::Implicit ==> self.refresh_token is None && !self.refresh_busy)
        &&& (self.flow == FlowType::AuthorizationCode && self.credential is Some
            ==> self.refresh_token is Some)
        &&& (self.refresh_busy ==> self.refresh_token is Some)
        &&& (self.credential is Some ==> self.credential->Some_0.valid())
    }

    /// Whether a call for a fresh credential must run a refresh exchange
    /// now: only the authorization-code flow refreshes, either because the
    /// credential on hand is stale or because only a persisted refresh token
    /// is on hand.
    pub open spec fn wants_refresh(self, now: u64) -> bool {
        self.flow == FlowType::AuthorizationCode && match self.credential {
            Some(c) => c.stale_at(now),
            None => self.refresh_token is Some,
        }
    }

    /// Everything but the credential, refresh token, and busy flag.
    pub open spec fn same_session(self, other: TokenManager) -> bool {
        &&& self.flow == other.flow
        &&& self.client_id == other.client_id
        &&& self.client_secret == other.client_secret
        &&& self.auth_header == other.auth_header
    }

    /// A fresh manager for one configured client: no credential, no refresh
    /// token, nothing in flight.
    pub fn new(flow: FlowType, client_id: String, client_secret: String) -> (r: Self)
        requires
            client_id@.len() + client_secret@.len() <= 0x0800_0000,
        ensures
            r.wf(),
            r.flow == flow,
            r.client_id == client_id,
            r.client_secret == client_secret,
            r.credential is None,
            r.refresh_token is None,
            !r.refresh_busy,
    {
        let auth_header = basic_auth_header(client_id.as_str(), client_secret.as_str());
        TokenManager {
            flow,
            client_id,
            client_secret,
            auth_header,
            credential: None,
            refresh_token: None,
            refresh_busy: false,
        }
    }

    /// Adopt the refresh token read from durable storage at process start,
    /// before any credential exists, so the first freshness check attempts a
    /// silent refresh instead of the interactive flow.
    pub fn adopt_persisted_refresh(&mut self, token: String)
        requires
            old(self).wf(),
            old(self).flow == FlowType::AuthorizationCode,
            old(self).credential is None,
            token@.len() > 0,
        ensures
            final(self).wf(),
            *final(self) == (TokenManager { refresh_token: Some(token), ..*old(self) }),
    {
        self.refresh_token = Some(token);
    }

    /// Install the credential assembled from an implicit-grant redirect: it
    /// carries no refresh token and is never refreshed.
    pub fn adopt_implicit_credential(&mut self, cred: Credential)
        requires
            old(self).wf(),
            old(self).flow == FlowType::Implicit,
            cred.valid(),
        ensures
            final(self).wf(),
            *final(self) == (TokenManager { credential: Some(cred), ..*old(self) }),
    {
        self.credential = Some(cred);
    }

    /// One freshness check. Decides among the four plans and, when it
    /// returns a refresh exchange, marks it in flight so a concurrent check
    /// observing the same stale credential is told to wait instead of
    /// starting a second one.
    pub fn ensure_fresh_begin(&mut self, now: u64) -> (r: FreshPlan)
        requires
            old(self).wf(),
        ensures
            final(self).wf(),
            old(self).same_session(*final(self)),
            final(self).credential == old(self).credential,
            final(self).refresh_token == old(self).refresh_token,
            final(self).refresh_busy == (old(self).refresh_busy || old(self).wants_refresh(now)),
            r is UseCurrent <==> old(self).credential is Some && !old(self).wants_refresh(now),
            r is Interactive <==> old(self).credential is None && !old(self).wants_refresh(now),
            r is Busy <==> old(self).wants_refresh(now) && old(self).refresh_busy,
            r is Refresh <==> old(self).wants_refresh(now) && !old(self).refresh_busy,
            match r {
                FreshPlan::Refresh(req) => is_refresh_exchange(
                    req,
                    old(self).client_id@,
                    old(self).client_secret@,
                    old(self).refresh_token->Some_0@,
                ),
                _ => true,
            },
    {
        let stale_now = match (&self.flow, &self.credential) {
            (FlowType::AuthorizationCode, Some(c)) => c.is_stale(now),
            (FlowType::AuthorizationCode, None) => self.refresh_token.is_some(),
            (FlowType::Implicit, _) => false,
        };
        if !stale_now {
            if self.credential.is_some() {
                FreshPlan::UseCurrent
            } else {
                FreshPlan::Interactive
            }
        } else if self.refresh_busy {
            FreshPlan::Busy
        } else {
            let token = match &self.refresh_token {
                Some(t) => t.clone(),
                None => String::new(),  // unreachable: a refresh is only wanted with a token on hand
            };
            self.refresh_busy = true;
            FreshPlan::Refresh(refresh_exchange_request(&self.auth_header, token.as_str()))
        }
    }

    /// Report the outcome of the refresh exchange that
    /// [`TokenManager::ensure_fresh_begin`] planned. On success the
    /// credential mirrors the response fields exactly, stamped with `now`; a
    /// refresh token in the response replaces the one on hand and must be
    /// persisted (the `Ok` value), while a response without one keeps the
    /// existing token. Any failure before a credential ever existed falls
    /// back to the interactive flow by dropping the refresh token; a failure
    /// beside an existing credential leaves the session as it was.
    pub fn ensure_fresh_finish(
        &mut self,
        outcome: Result<TokenFields, ExchangeError>,
        now: u64,
    ) -> (r: Result<Option<String>, ExchangeError>)
        requires
            old(self).wf(),
            old(self).refresh_busy,
        ensures
            final(self).wf(),
            old(self).same_session(*final(self)),
            !final(self).refresh_busy,
            match outcome {
                Ok(fields) => {
                    if fields.usable() {
                        &&& r is Ok
                        &&& r->Ok_0 == fields.refresh_token
                        &&& final(self).credential is Some
                        &&& {
                            let c = final(self).credential->Some_0;
                            &&& c.access_token == fields.access_token
                            &&& c.token_type == fields.token_type
                            &&& c.expires_in == fields.expires_in
                            &&& c.issued_at == now
                            &&& c.refresh_token@ == (match fields.refresh_token {
                                Some(t) => t@,
                                None => old(self).refresh_token->Some_0@,
                            })
                        }
                        &&& final(self).refresh_token == (if fields.refresh_token is Some {
                            fields.refresh_token
                        } else {
                            old(self).refresh_token
                        })
                    } else {
                        &&& r == Err::<Option<String>, ExchangeError>(ExchangeError::MissingField)
                        &&& final(self).credential == old(self).credential
                        &&& (old(self).credential is Some ==> final(self).refresh_token == old(
                            self,
                        ).refresh_token)
                        &&& (old(self).credential is None ==> final(self).refresh_token is None)
                    }
                },
                Err(e) => {
                    &&& r == Err::<Option<String>, ExchangeError>(e)
                    &&& final(self).credential == old(self).credential
                    &&& (old(self).credential is Some ==> final(self).refresh_token == old(
                        self,
                    ).refresh_token)
                    &&& (old(self).credential is None ==> final(self).refresh_token is None)
                },
            },
    {
        self.refresh_busy = false;
        let fields = match outcome {
            Ok(fields) => fields,
            Err(e) => {
                if self.credential.is_none() {
                    self.refresh_token = None;
                }
                return Err(e);
            },
        };
        if !fields.is_usable() {
            if self.credential.is_none() {
                self.refresh_token = None;
            }
            return Err(ExchangeError::MissingField);
        }
        let TokenFields { access_token, token_type, refresh_token, expires_in } = fields;
        let kept_refresh: String = match (&refresh_token, &self.refresh_token) {
            (Some(t), _) => t.clone(),
            (None, Some(t)) => t.clone(),
            (None, None) => String::new(),  // unreachable: a refresh is only begun with a token on hand
        };
        self.credential = Some(
            Credential {
                access_token,
                token_type,
                refresh_token: kept_refresh,
                expires_in,
                issued_at: now,
            },
        );
        match refresh_token {
            Some(t) => {
                self.refresh_token = Some(t.clone());
                Ok(Some(t))
            },
            None => Ok(None),
        }
    }

    /// The exchange that finalizing an authorization-code redirect must
    /// perform for the extracted code.
    pub fn code_exchange(&self, code: &str) -> (r: ExchangeRequest)
        requires
            self.wf(),
        ensures
            is_code_exchange(r, self.client_id@, self.client_secret@, code@),
    {
        code_exchange_request(&self.auth_header, code)
    }

    /// Install the outcome of an authorization-code exchange. Such an
    /// exchange must carry all four fields; the credential then mirrors them
    /// exactly, stamped with `now`, and the returned refresh token must be
    /// written to durable storage verbatim.
    pub fn apply_exchange(&mut self, fields: TokenFields, now: u64) -> (r: Result<
        String,
        ExchangeError,
    >)
        requires
            old(self).wf(),
            old(self).flow == FlowType::AuthorizationCode,
        ensures
            final(self).wf(),
            old(self).same_session(*final(self)),
            final(self).refresh_busy == old(self).refresh_busy,
            r is Err ==> *final(self) == *old(self),
            (r == Err::<String, ExchangeError>(ExchangeError::MissingField) <==> !fields.usable()),
            (r == Err::<String, ExchangeError>(ExchangeError::MissingRefreshToken) <==> fields.usable()
                && fields.refresh_token is None),
            (r is Ok <==> fields.usable() && fields.refresh_token is Some),
            r is Ok ==> {
                &&& r->Ok_0@ == fields.refresh_token->Some_0@
                &&& final(self).refresh_token is Some
                &&& final(self).refresh_token->Some_0@ == fields.refresh_token->Some_0@
                &&& final(self).credential is Some
                &&& {
                    let c = final(self).credential->Some_0;
                    &&& c.access_token == fields.access_token
                    &&& c.token_type == fields.token_type
                    &&& c.expires_in == fields.expires_in
                    &&& c.issued_at == now
                    &&& c.refresh_token@ == fields.refresh_token->Some_0@
                }
            },
    {
        if !fields.is_usable() {
            return Err(ExchangeError::MissingField);
        }
        let TokenFields { access_token, token_type, refresh_token, expires_in } = fields;
        let token = match refresh_token {
            Some(t) => t,
            None => {
                return Err(ExchangeError::MissingRefreshToken);
            },
        };
        self.credential = Some(
            Credential {
                access_token,
                token_type,
                refresh_token: token.clone(),
                expires_in,
                issued_at: now,
            },
        );
        self.refresh_token = Some(token.clone());
        Ok(token)
    }

    /// The `Authorization` header value for a resource request made with the
    /// current credential.
    pub fn resource_auth_header(&self) -> (r: Option<String>)
        requires
            self.wf(),
        ensures
            r is Some <==> self.credential is Some,
            match r {
                Some(h) => h@ == self.credential->Some_0.token_type@ + " "@
                    + self.credential->Some_0.access_token@,
                None => true,
            },
    {
        match &self.credential {
            Some(c) => Some(
                c.token_type.clone().concat(" ").concat(c.access_token.as_str()),
            ),
            None => None,
        }
    }
}

/// Law: refresh exchanges are serialized. Once one freshness check has
/// started an exchange — the manager is marked busy — any further check that
/// observes the same stale state is told to wait, so it never starts a
/// second exchange.
pub proof fn lemma_refresh_serialized(before: TokenManager, during: TokenManager, now: u64)
    requires
        before.wf(),
        before.wants_refresh(now),
        !before.refresh_busy,
        during == (TokenManager { refresh_busy: true, ..before }),
    ensures
        during.wants_refresh(now) && during.refresh_busy,
{
}

/// Law: a refresh that just succeeded leaves nothing more to refresh, as
/// long as the granted lifetime exceeds the safety margin: a worker that
/// waited out a concurrent refresh then simply uses the new credential.
pub proof fn lemma_fresh_after_refresh(m: TokenManager, now: u64)
    requires
        m.wf(),
        m.credential is Some,
        m.credential->Some_0.issued_at == now,
        m.credential->Some_0.expires_in > REFRESH_MARGIN_SECS,
    ensures
        !m.wants_refresh(now),
{
}

/// Law: a manager restarted in authorization-code mode that adopted a
/// persisted refresh token plans a silent refresh — not the interactive
/// browser flow — at its first freshness check.
pub proof fn lemma_persisted_token_resumes(m: TokenManager, now: u64)
    requires
        m.wf(),
        m.flow == FlowType::AuthorizationCode,
        m.credential is None,
        m.refresh_token is Some,
    ensures
        m.wants_refresh(now),
{
}

} // verus!
