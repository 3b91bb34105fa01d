//! Decoding of the provider's JSON bodies into plain values. The JSON work
//! itself is serde_json's, behind trusted wrappers whose results are named:
//! each decoding is a function of the body text alone. Everything that acts
//! on the decoded values is verified against those names.

use vstd::prelude::*;

use crate::credential::TokenFields;
use crate::errors::{ExchangeError, FetchError};
use crate::pagination::PageResponse;
use crate::query::opt_view;
use crate::textscan::views_of;

verus! {

/// Whether an HTTP status reports success.
pub open spec fn http_success(status: u16) -> bool {
    200 <= status < 300
}

/// What decoding a token-endpoint body yields: the four token fields when
/// the body is a JSON object carrying `access_token`, `token_type` and
/// `expires_in` (with `refresh_token` optional), and nothing otherwise.
pub uninterp spec fn token_fields_of(body: Seq<char>) -> Option<TokenFields>;

/// Relies on serde_json::from_str and serde_json::Value's accessors
/// (`as_str`, `as_u64`): the decoding is a function of the body text alone.
#[verifier::external_body]
fn parse_token_json(body: &str) -> (r: Option<TokenFields>)
    ensures
        r == token_fields_of(body@),
{
    let v: serde_json::Value = serde_json::from_str(body).ok()?;
    let access_token = v["access_token"].as_str()?.to_string();
    let token_type = v["token_type"].as_str()?.to_string();
    let expires_in = v["expires_in"].as_u64()?;
    let refresh_token = v["refresh_token"].as_str().map(|s| s.to_string());
    Some(TokenFields { access_token, token_type, refresh_token, expires_in })
}

/// Decode one token-endpoint response: a non-success status or a body
/// without the expected fields is rejected, with the exact error for each.
pub fn parse_token_response(status: u16, body: &str) -> (r: Result<TokenFields, ExchangeError>)
    ensures
        !http_success(status) ==> r == Err::<TokenFields, ExchangeError>(ExchangeError::HttpStatus),
        http_success(status) ==> match token_fields_of(body@) {
            None => r == Err::<TokenFields, ExchangeError>(ExchangeError::MalformedJson),
            Some(f) => r is Ok && r->Ok_0 == f,
        },
{
    if !(200 <= status && status < 300) {
        return Err(ExchangeError::HttpStatus);
    }
    match parse_token_json(body) {
        Some(f) => Ok(f),
        None => Err(ExchangeError::MalformedJson),
    }
}

/// What decoding an offset-mode page body yields: the `items` records
/// re-serialized one by one in order, and the declared `total`; such an
/// envelope carries no cursor.
pub uninterp spec fn page_envelope_of(body: Seq<char>) -> Option<PageResponse>;

/// Relies on serde_json::from_str, Value::as_array, Value::as_u64 and
/// serde_json::to_string: the decoding is a function of the body text alone.
#[verifier::external_body]
fn parse_page_json(body: &str) -> (r: Option<PageResponse>)
    ensures
        r == page_envelope_of(body@),
{
    let v: serde_json::Value = serde_json::from_str(body).ok()?;
    let total = v["total"].as_u64()?;
    let items = v["items"].as_array()?.iter().map(|it| serde_json::to_string(it).ok()).collect::<
        Option<Vec<String>>,
    >()?;
    Some(PageResponse { items, total, after: None })
}

/// Decode one offset-mode page response.
pub fn parse_page_response(status: u16, body: &str) -> (r: Result<PageResponse, FetchError>)
    ensures
        !http_success(status) ==> r == Err::<PageResponse, FetchError>(FetchError::HttpStatus),
        http_success(status) ==> match page_envelope_of(body@) {
            None => r == Err::<PageResponse, FetchError>(FetchError::MalformedJson),
            Some(p) => r is Ok && r->Ok_0 == p,
        },
{
    if !(200 <= status && status < 300) {
        return Err(FetchError::HttpStatus);
    }
    match parse_page_json(body) {
        Some(p) => Ok(p),
        None => Err(FetchError::MalformedJson),
    }
}

/// What decoding a followed-artists page body yields: the same envelope,
/// nested under `artists`, with the next cursor at `cursors.after` when the
/// server supplies one.
pub uninterp spec fn artists_envelope_of(body: Seq<char>) -> Option<PageResponse>;

/// Relies on serde_json::from_str, Value::as_array, Value::as_u64,
/// Value::as_str and serde_json::to_string: the decoding is a function of
/// the body text alone.
#[verifier::external_body]
fn parse_artists_page_json(body: &str) -> (r: Option<PageResponse>)
    ensures
        r == artists_envelope_of(body@),
{
    let v: serde_json::Value = serde_json::from_str(body).ok()?;
    let envelope = &v["artists"];
    let total = envelope["total"].as_u64()?;
    let after = envelope["cursors"]["after"].as_str().map(|s| s.to_string());
    let items = envelope["items"].as_array()?.iter().map(
        |it| serde_json::to_string(it).ok(),
    ).collect::<Option<Vec<String>>>()?;
    Some(PageResponse { items, total, after })
}

/// Decode one followed-artists page response.
pub fn parse_artists_page_response(status: u16, body: &str) -> (r: Result<
    PageResponse,
    FetchError,
>)
    ensures
        !http_success(status) ==> r == Err::<PageResponse, FetchError>(FetchError::HttpStatus),
        http_success(status) ==> match artists_envelope_of(body@) {
            None => r == Err::<PageResponse, FetchError>(FetchError::MalformedJson),
            Some(p) => r is Ok && r->Ok_0 == p,
        },
{
    if !(200 <= status && status < 300) {
        return Err(FetchError::HttpStatus);
    }
    match parse_artists_page_json(body) {
        Some(p) => Ok(p),
        None => Err(FetchError::MalformedJson),
    }
}

/// What the `id` field of one playlist record is, when the record is a JSON
/// object with a string `id`.
pub uninterp spec fn playlist_id_of(item: Seq<char>) -> Option<Seq<char>>;

/// Relies on serde_json::from_str and Value::as_str: the `id` of a playlist
/// record is a function of the record text alone.
#[verifier::external_body]
fn playlist_id_json(item: &str) -> (r: Option<String>)
    ensures
        opt_view(r) == playlist_id_of(item@),
{
    let v: serde_json::Value = serde_json::from_str(item).ok()?;
    Some(v["id"].as_str()?.to_string())
}

/// The `id` of one playlist record, needed to fetch its tracks.
pub fn playlist_id(item: &str) -> (r: Result<String, FetchError>)
    ensures
        match playlist_id_of(item@) {
            Some(id) => r is Ok && r->Ok_0@ == id,
            None => r == Err::<String, FetchError>(FetchError::MalformedJson),
        },
{
    match playlist_id_json(item) {
        Some(id) => Ok(id),
        None => Err(FetchError::MalformedJson),
    }
}

/// What attaching the given track records to a playlist record yields: the
/// record re-serialized with its `tracks` field replaced by the array of
/// track records, when everything parses.
pub uninterp spec fn with_tracks_of(item: Seq<char>, tracks: Seq<Seq<char>>) -> Option<Seq<char>>;

/// Relies on serde_json::from_str, Value::as_object_mut, Map::insert and
/// serde_json::to_string: the enriched record is a function of the arguments
/// alone, and a record that is not a JSON object yields nothing.
#[verifier::external_body]
fn attach_tracks_json(item: &str, tracks: &Vec<String>) -> (r: Option<String>)
    ensures
        opt_view(r) == with_tracks_of(item@, views_of(tracks@)),
{
    let mut v: serde_json::Value = serde_json::from_str(item).ok()?;
    let parsed = tracks.iter().map(|t| serde_json::from_str(t.as_str()).ok()).collect::<
        Option<Vec<serde_json::Value>>,
    >()?;
    v.as_object_mut()?.insert("tracks".to_string(), serde_json::Value::Array(parsed));
    serde_json::to_string(&v).ok()
}

/// Attach the constituent tracks fetched for one playlist to its record
/// before it joins the collection.
pub fn enrich_playlist(item: &str, tracks: &Vec<String>) -> (r: Result<String, FetchError>)
    ensures
        match with_tracks_of(item@, views_of(tracks@)) {
            Some(s) => r is Ok && r->Ok_0@ == s,
            None => r == Err::<String, FetchError>(FetchError::MalformedJson),
        },
{
    match attach_tracks_json(item, tracks) {
        Some(s) => Ok(s),
        None => Err(FetchError::MalformedJson),
    }
}

} // verus!
