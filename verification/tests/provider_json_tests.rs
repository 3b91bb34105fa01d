use spotify_export::errors::{ExchangeError, FetchError};
use spotify_export::provider_json::{enrich_playlist, parse_artists_page_response,
    parse_page_response, parse_token_response, playlist_id};

#[test]
fn token_response_decodes_all_fields() {
    let body = r#"{"access_token":"at","token_type":"Bearer","expires_in":3600,"refresh_token":"rt"}"#;
    let fields = parse_token_response(200, body).expect("well-formed response must decode");
    assert_eq!(fields.access_token, "at");
    assert_eq!(fields.token_type, "Bearer");
    assert_eq!(fields.expires_in, 3600);
    assert_eq!(fields.refresh_token.as_deref(), Some("rt"));
}

#[test]
fn token_response_without_refresh_token_decodes() {
    let body = r#"{"access_token":"at","token_type":"Bearer","expires_in":60}"#;
    let fields = parse_token_response(204, body).expect("refresh_token is optional");
    assert_eq!(fields.refresh_token, None);
}

#[test]
fn token_response_with_error_status_is_rejected() {
    let body = r#"{"access_token":"at","token_type":"Bearer","expires_in":60}"#;
    assert_eq!(parse_token_response(401, body).err(), Some(ExchangeError::HttpStatus));
    assert_eq!(parse_token_response(301, body).err(), Some(ExchangeError::HttpStatus));
    assert_eq!(parse_token_response(199, body).err(), Some(ExchangeError::HttpStatus));
}

#[test]
fn token_response_missing_access_token_is_rejected() {
    let body = r#"{"token_type":"Bearer","expires_in":60}"#;
    assert_eq!(parse_token_response(200, body).err(), Some(ExchangeError::MalformedJson));
}

#[test]
fn token_response_with_garbage_body_is_rejected() {
    assert_eq!(parse_token_response(200, "not json").err(), Some(ExchangeError::MalformedJson));
}

#[test]
fn page_envelope_decodes_items_in_order_with_total() {
    let body = r#"{"items":["a","b","c"],"total":7}"#;
    let page = parse_page_response(200, body).expect("envelope must decode");
    assert_eq!(page.items, vec![r#""a""#, r#""b""#, r#""c""#]);
    assert_eq!(page.total, 7);
    assert_eq!(page.after, None);
}

#[test]
fn page_envelope_reserializes_object_items() {
    let body = r#"{"items":[{"name":"x"}],"total":1}"#;
    let page = parse_page_response(200, body).expect("envelope must decode");
    assert_eq!(page.items, vec![r#"{"name":"x"}"#]);
}

#[test]
fn page_envelope_without_items_is_rejected() {
    assert_eq!(
        parse_page_response(200, r#"{"total":1}"#).err(),
        Some(FetchError::MalformedJson)
    );
    assert_eq!(parse_page_response(500, r#"{}"#).err(), Some(FetchError::HttpStatus));
}

#[test]
fn artists_envelope_decodes_nested_fields() {
    let body = r#"{"artists":{"items":["x","y"],"total":5,"cursors":{"after":"cur9"}}}"#;
    let page = parse_artists_page_response(200, body).expect("envelope must decode");
    assert_eq!(page.items.len(), 2);
    assert_eq!(page.total, 5);
    assert_eq!(page.after.as_deref(), Some("cur9"));
}

#[test]
fn artists_envelope_with_omitted_cursor() {
    let body = r#"{"artists":{"items":["x"],"total":5,"cursors":{"after":null}}}"#;
    let page = parse_artists_page_response(200, body).expect("envelope must decode");
    assert_eq!(page.after, None);
}

#[test]
fn playlist_id_reads_the_id_field() {
    assert_eq!(playlist_id(r#"{"id":"pl1","name":"mine"}"#).unwrap(), "pl1");
    assert_eq!(playlist_id(r#"{"name":"no id"}"#).err(), Some(FetchError::MalformedJson));
}

#[test]
fn enrich_playlist_attaches_tracks() {
    let enriched = enrich_playlist(
        r#"{"id":"p"}"#,
        &vec![r#"{"t":1}"#.to_string(), r#"{"t":2}"#.to_string()],
    )
    .expect("attachable records must enrich");
    assert_eq!(enriched, r#"{"id":"p","tracks":[{"t":1},{"t":2}]}"#);
}

#[test]
fn enrich_playlist_rejects_garbage() {
    assert_eq!(
        enrich_playlist("not json", &Vec::new()).err(),
        Some(FetchError::MalformedJson)
    );
    // Valid JSON that is not an object cannot carry a tracks field.
    assert_eq!(
        enrich_playlist("5", &Vec::new()).err(),
        Some(FetchError::MalformedJson)
    );
    // A track record that is not JSON spoils the attachment.
    assert_eq!(
        enrich_playlist(r#"{"id":"p"}"#, &vec!["not json".to_string()]).err(),
        Some(FetchError::MalformedJson)
    );
}
