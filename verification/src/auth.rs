//! Builders for everything the OAuth2 flows send: the browser authorization
//! URL, the Basic-auth header, and the form bodies of the two token-endpoint
//! exchanges. The outside pieces — base64 and the random nonce — sit behind
//! trusted wrappers; everything assembled from them is verified exactly.

use vstd::prelude::*;
use vstd::string::StringExecFns;

use rand::Rng;

verus! {

/// Length of the single-use anti-forgery nonce sent as `state`.
pub const AUTH_STATE_LEN: usize = 16;

/// The two supported grant variants, named by the `response_type` value the
/// provider expects for each.
#[derive(Clone, Copy, Debug, PartialEq, Eq, Structural)]
pub enum FlowType {
    /// Implicit grant: token arrives in the redirect fragment, no refresh.
    Implicit,
    /// Authorization-code grant: a code is exchanged for token + refresh.
    AuthorizationCode,
}

impl FlowType {
    /// The `response_type` query value for this grant variant.
    pub open spec fn spec_response_type(self) -> Seq<char> {
        match self {
            FlowType::Implicit => "token"@,
            FlowType::AuthorizationCode => "code"@,
        }
    }

    /// Executable form of [`FlowType::spec_response_type`].
    pub fn response_type(&self) -> (r: &'static str)
        ensures
            r@ == self.spec_response_type(),
    {
        match self {
            FlowType::Implicit => "token",
            FlowType::AuthorizationCode => "code",
        }
    }
}

/// What the encoding of a byte sequence under the standard base64 alphabet
/// with padding is: a function of the input bytes alone.
pub uninterp spec fn base64_standard_of(b: Seq<u8>) -> Seq<char>;

/// Relies on base64's `Engine::encode` with the `STANDARD` engine (standard
/// alphabet, padded): the output is a function of the input bytes alone, four
/// characters for every three input bytes rounded up, and the call panics
/// only when that length overflows `usize`.
#[verifier::external_body]
fn base64_encode(b: &[u8]) -> (r: String)
    requires
        b@.len() <= 0x4000_0000,
    ensures
        r@ == base64_standard_of(b@),
        r@.len() == 4 * ((b@.len() + 2) / 3),
{
    base64::Engine::encode(&base64::prelude::BASE64_STANDARD, b)
}

/// Whether `c` is an ASCII letter or digit.
pub open spec fn is_ascii_alphanumeric_char(c: char) -> bool {
    ||| 48 <= c as int <= 57
    ||| 65 <= c as int <= 90
    ||| 97 <= c as int <= 122
}

/// Relies on rand's thread-local generator sampling the `Alphanumeric`
/// distribution, which yields only ASCII letters and digits; nothing else is
/// assumed of the outcome.
#[verifier::external_body]
fn random_alphanumeric_nonce() -> (r: String)
    ensures
        r@.len() == AUTH_STATE_LEN,
        forall|i: int| 0 <= i < r@.len() ==> is_ascii_alphanumeric_char(r@[i]),
{
    rand::thread_rng()
        .sample_iter(&rand::distributions::Alphanumeric)
        .take(AUTH_STATE_LEN)
        .map(char::from)
        .collect()
}

/// The fixed loopback redirect target registered with the provider.
pub open spec fn spec_redirect_uri() -> Seq<char> {
    "http://localhost:8000/callback"@
}

/// Executable form of [`spec_redirect_uri`].
pub fn redirect_uri() -> (r: &'static str)
    ensures
        r@ == spec_redirect_uri(),
{
    "http://localhost:8000/callback"
}

/// The provider's token endpoint.
pub open spec fn spec_token_endpoint() -> Seq<char> {
    "https://accounts.spotify.com/api/token"@
}

/// Executable form of [`spec_token_endpoint`].
pub fn token_endpoint() -> (r: &'static str)
    ensures
        r@ == spec_token_endpoint(),
{
    "https://accounts.spotify.com/api/token"
}

/// The scopes the export needs.
pub open spec fn spec_scopes() -> Seq<char> {
    "user-library-read user-read-playback-position playlist-read-private user-follow-read"@
}

/// The full browser authorization URL for one attempt.
pub open spec fn authorize_url_of(flow: FlowType, client_id: Seq<char>, state: Seq<char>) -> Seq<
    char,
> {
    "https://accounts.spotify.com/authorize?response_type="@ + flow.spec_response_type()
        + "&client_id="@ + client_id + "&scope="@ + spec_scopes() + "&redirect_uri="@
        + spec_redirect_uri() + "&state="@ + state
}

/// The Basic-auth header value for the token endpoint: the base64 encoding
/// of `client_id:client_secret` under the standard padded alphabet.
pub open spec fn basic_auth_of(client_id: Seq<char>, client_secret: Seq<char>) -> Seq<char> {
    "Basic "@ + base64_standard_of(vstd::utf8::encode_utf8(client_id + ":"@ + client_secret))
}

/// A UTF-8 encoding takes at most four bytes per character.
proof fn lemma_encode_utf8_len(chars: Seq<char>)
    ensures
        vstd::utf8::encode_utf8(chars).len() <= 4 * chars.len(),
    decreases chars.len(),
{
    if chars.len() > 0 {
        lemma_encode_utf8_len(chars.drop_first());
        assert(vstd::utf8::encode_scalar(chars[0] as u32).len() <= 4);
    }
}

/// Build the Basic-auth header value from the client credentials.
pub fn basic_auth_header(client_id: &str, client_secret: &str) -> (r: String)
    requires
        client_id@.len() + client_secret@.len() <= 0x0800_0000,
    ensures
        r@ == basic_auth_of(client_id@, client_secret@),
{
    let joined = String::from_str(client_id).concat(":").concat(client_secret);
    proof {
        reveal_strlit(":");
        lemma_encode_utf8_len(joined@);
    }
    let encoded = base64_encode(joined.as_str().as_bytes());
    String::from_str("Basic ").concat(encoded.as_str())
}

/// One fresh authorization attempt: the nonce to validate the redirect
/// against, and the URL the browser must be pointed at.
pub struct AuthAttempt {
    pub state: String,
    pub url: String,
}

/// Start an authorization attempt: draw a fresh 16-character nonce and
/// assemble the browser URL that carries it.
pub fn begin_auth_attempt(flow: FlowType, client_id: &str) -> (r: AuthAttempt)
    ensures
        r.state@.len() == AUTH_STATE_LEN,
        forall|i: int| 0 <= i < r.state@.len() ==> is_ascii_alphanumeric_char(r.state@[i]),
        r.url@ == authorize_url_of(flow, client_id@, r.state@),
{
    let state = random_alphanumeric_nonce();
    let url = String::from_str("https://accounts.spotify.com/authorize?response_type=").concat(
        flow.response_type(),
    ).concat("&client_id=").concat(client_id).concat("&scope=").concat(
        "user-library-read user-read-playback-position playlist-read-private user-follow-read",
    ).concat("&redirect_uri=").concat(redirect_uri()).concat("&state=").concat(state.as_str());
    AuthAttempt { state, url }
}

/// One token-endpoint exchange for the transport layer to perform: the URL
/// to POST to, the Authorization header value, and the form parameters.
pub struct ExchangeRequest {
    pub url: String,
    pub auth_header: String,
    pub params: Vec<(String, String)>,
}

/// The exact shape of a refresh-token exchange for the given client
/// credentials and refresh token.
pub open spec fn is_refresh_exchange(
    req: ExchangeRequest,
    client_id: Seq<char>,
    client_secret: Seq<char>,
    refresh_token: Seq<char>,
) -> bool {
    &&& req.url@ == spec_token_endpoint()
    &&& req.auth_header@ == basic_auth_of(client_id, client_secret)
    &&& req.params@.len() == 2
    &&& req.params@[0].0@ == "grant_type"@
    &&& req.params@[0].1@ == "refresh_token"@
    &&& req.params@[1].0@ == "refresh_token"@
    &&& req.params@[1].1@ == refresh_token
}

/// The exact shape of an authorization-code exchange for the given client
/// credentials and code.
pub open spec fn is_code_exchange(
    req: ExchangeRequest,
    client_id: Seq<char>,
    client_secret: Seq<char>,
    code: Seq<char>,
) -> bool {
    &&& req.url@ == spec_token_endpoint()
    &&& req.auth_header@ == basic_auth_of(client_id, client_secret)
    &&& req.params@.len() == 3
    &&& req.params@[0].0@ == "grant_type"@
    &&& req.params@[0].1@ == "authorization_code"@
    &&& req.params@[1].0@ == "code"@
    &&& req.params@[1].1@ == code
    &&& req.params@[2].0@ == "redirect_uri"@
    &&& req.params@[2].1@ == spec_redirect_uri()
}

/// Assemble a refresh-token exchange from an already-built auth header.
pub fn refresh_exchange_request(auth_header: &String, refresh_token: &str) -> (r: ExchangeRequest)
    ensures
        r.url@ == spec_token_endpoint(),
        r.auth_header@ == auth_header@,
        r.params@.len() == 2,
        r.params@[0].0@ == "grant_type"@,
        r.params@[0].1@ == "refresh_token"@,
        r.params@[1].0@ == "refresh_token"@,
        r.params@[1].1@ == refresh_token@,
{
    let mut params: Vec<(String, String)> = Vec::new();
    params.push((String::from_str("grant_type"), String::from_str("refresh_token")));
    params.push((String::from_str("refresh_token"), String::from_str(refresh_token)));
    ExchangeRequest {
        url: String::from_str(token_endpoint()),
        auth_header: auth_header.clone(),
        params,
    }
}

/// Assemble an authorization-code exchange from an already-built auth
/// header: the body carries the code and the exact redirect URI used in the
/// authorization URL.
pub fn code_exchange_request(auth_header: &String, code: &str) -> (r: ExchangeRequest)
    ensures
        r.url@ == spec_token_endpoint(),
        r.auth_header@ == auth_header@,
        r.params@.len() == 3,
        r.params@[0].0@ == "grant_type"@,
        r.params@[0].1@ == "authorization_code"@,
        r.params@[1].0@ == "code"@,
        r.params@[1].1@ == code@,
        r.params@[2].0@ == "redirect_uri"@,
        r.params@[2].1@ == spec_redirect_uri(),
{
    let mut params: Vec<(String, String)> = Vec::new();
    params.push((String::from_str("grant_type"), String::from_str("authorization_code")));
    params.push((String::from_str("code"), String::from_str(code)));
    params.push((String::from_str("redirect_uri"), String::from_str(redirect_uri())));
    ExchangeRequest {
        url: String::from_str(token_endpoint()),
        auth_header: auth_header.clone(),
        params,
    }
}

} // verus!
