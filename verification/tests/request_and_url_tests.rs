use spotify_export::decimal::{parse_u64, u64_to_string};
use spotify_export::pagination::PageRequest;
use spotify_export::request::{classify_request, first_line, listener_step, page_response,
    request_target, ConnectionAction, ListenerPhase};
use spotify_export::urls::{followed_artists_url, offset_page_url, playlist_tracks_url,
    ResourceKind};

fn req(offset: u64, after: Option<&str>, limit: u64) -> PageRequest {
    PageRequest { offset, after: after.map(|s| s.to_string()), limit }
}

#[test]
fn redirect_request_is_served_the_callback_page() {
    let raw = "GET /callback?code=abc HTTP/1.1\r\nHost: localhost:8000\r\n\r\n";
    assert!(matches!(classify_request(raw), ConnectionAction::ServePage));
}

#[test]
fn finalize_request_carries_its_target() {
    let raw = "GET /finalizeAuthentication?code=abc&state=s HTTP/1.1\r\nHost: x\r\n";
    match classify_request(raw) {
        ConnectionAction::Finalize(target) => {
            assert_eq!(target, "/finalizeAuthentication?code=abc&state=s");
        },
        _ => panic!("the finalize call must reach the finalizer"),
    }
}

#[test]
fn unreadable_request_is_ignored() {
    assert!(matches!(classify_request(""), ConnectionAction::Ignore));
    assert!(matches!(classify_request("GET\r\n"), ConnectionAction::Ignore));
}

#[test]
fn first_line_stops_at_line_break() {
    assert_eq!(first_line("GET / HTTP/1.1\r\nHost: x"), "GET / HTTP/1.1");
    assert_eq!(first_line("one\ntwo"), "one");
    assert_eq!(first_line("bare"), "bare");
}

#[test]
fn request_target_is_second_token() {
    assert_eq!(request_target("GET /path HTTP/1.1").as_deref(), Some("/path"));
    assert_eq!(request_target("GET  /path  HTTP/1.1").as_deref(), Some("/path"));
    assert_eq!(request_target("GET").as_deref(), None);
    assert_eq!(request_target("").as_deref(), None);
}

#[test]
fn finalize_ends_listening_from_every_phase() {
    let action = ConnectionAction::Finalize("/finalizeAuthentication?x=1".to_string());
    assert_eq!(listener_step(ListenerPhase::AwaitingRedirect, &action), ListenerPhase::Done);
    assert_eq!(listener_step(ListenerPhase::AwaitingFinalize, &action), ListenerPhase::Done);
    assert_eq!(listener_step(ListenerPhase::Done, &action), ListenerPhase::Done);
}

#[test]
fn serving_the_page_advances_to_awaiting_finalize() {
    assert_eq!(
        listener_step(ListenerPhase::AwaitingRedirect, &ConnectionAction::ServePage),
        ListenerPhase::AwaitingFinalize
    );
    assert_eq!(
        listener_step(ListenerPhase::AwaitingFinalize, &ConnectionAction::Ignore),
        ListenerPhase::AwaitingFinalize
    );
}

#[test]
fn page_response_wraps_the_document() {
    assert_eq!(
        page_response("<html>hi</html>"),
        "HTTP/1.1 200 OK\r\nContent-Type: text/html\r\n\r\n<html>hi</html>"
    );
}

#[test]
fn offset_urls_follow_the_template() {
    assert_eq!(
        offset_page_url(&ResourceKind::SavedTracks, &req(0, None, 50)),
        "https://api.spotify.com/v1/me/tracks?offset=0&limit=50"
    );
    assert_eq!(
        offset_page_url(&ResourceKind::SavedAlbums, &req(120, None, 50)),
        "https://api.spotify.com/v1/me/albums?offset=120&limit=50"
    );
    assert_eq!(
        offset_page_url(&ResourceKind::SavedShows, &req(3, None, 7)),
        "https://api.spotify.com/v1/me/shows?offset=3&limit=7"
    );
}

#[test]
fn playlist_tracks_url_carries_id_and_fields() {
    let url = playlist_tracks_url("pl42", &req(10, None, 50));
    assert_eq!(
        url,
        "https://api.spotify.com/v1/playlists/pl42/tracks?fields=items(added_by.id,added_at,track(id,name,album(album_type,name,release_date,artists(id,name)),artists(id,name)))&offset=10&limit=50"
    );
}

#[test]
fn followed_artists_url_with_and_without_cursor() {
    assert_eq!(
        followed_artists_url(&req(0, None, 50)),
        "https://api.spotify.com/v1/me/following?type=artist&limit=50"
    );
    assert_eq!(
        followed_artists_url(&req(0, Some("cur1"), 50)),
        "https://api.spotify.com/v1/me/following?type=artist&after=cur1&limit=50"
    );
}

#[test]
fn decimal_rendering_is_canonical() {
    assert_eq!(u64_to_string(0), "0");
    assert_eq!(u64_to_string(7), "7");
    assert_eq!(u64_to_string(120), "120");
    assert_eq!(u64_to_string(u64::MAX), "18446744073709551615");
}

#[test]
fn decimal_parsing_accepts_exactly_fitting_digit_strings() {
    assert_eq!(parse_u64("0"), Some(0));
    assert_eq!(parse_u64("3600"), Some(3600));
    assert_eq!(parse_u64("007"), Some(7));
    assert_eq!(parse_u64("18446744073709551615"), Some(u64::MAX));
    assert_eq!(parse_u64("18446744073709551616"), None);
    assert_eq!(parse_u64(""), None);
    assert_eq!(parse_u64("12a"), None);
    assert_eq!(parse_u64("-1"), None);
    assert_eq!(parse_u64(" 1"), None);
}
