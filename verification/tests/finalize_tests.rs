use spotify_export::errors::ProtocolError;
use spotify_export::finalize::{extract_auth_code, finalize_implicit, target_query};

const STATE: &str = "AbCdEf1234567890";

#[test]
fn implicit_grant_mirrors_redirect_parameters() {
    let url = format!(
        "/finalizeAuthentication?access_token=tok123&token_type=Bearer&expires_in=3600&state={}",
        STATE
    );
    let cred = finalize_implicit(&url, STATE, 42).expect("valid redirect must finalize");
    assert_eq!(cred.access_token, "tok123");
    assert_eq!(cred.token_type, "Bearer");
    assert_eq!(cred.expires_in, 3600);
    assert_eq!(cred.issued_at, 42);
    assert_eq!(cred.refresh_token, "");
}

#[test]
fn implicit_grant_state_mismatch_is_fatal() {
    let url = "/finalizeAuthentication?access_token=tok123&token_type=Bearer&expires_in=3600&state=WRONGWRONGWRONG1";
    let outcome = finalize_implicit(url, STATE, 0);
    assert_eq!(outcome.err(), Some(ProtocolError::StateMismatch));
}

#[test]
fn code_grant_state_mismatch_is_fatal() {
    let url = format!("/finalizeAuthentication?code=abc&state=WRONGWRONGWRONG1");
    let outcome = extract_auth_code(&url, STATE);
    assert_eq!(outcome.err(), Some(ProtocolError::StateMismatch));
}

#[test]
fn state_checked_before_parameters() {
    // Even with every required parameter missing, a wrong state is the error
    // that comes out.
    let url = "/finalizeAuthentication?state=WRONGWRONGWRONG1";
    assert_eq!(finalize_implicit(url, STATE, 0).err(), Some(ProtocolError::StateMismatch));
    assert_eq!(extract_auth_code(url, STATE).err(), Some(ProtocolError::StateMismatch));
}

#[test]
fn code_grant_extracts_code() {
    let url = format!("/finalizeAuthentication?code=AQD-xyz_123&state={}", STATE);
    let code = extract_auth_code(&url, STATE).expect("valid redirect must yield the code");
    assert_eq!(code, "AQD-xyz_123");
}

#[test]
fn missing_code_is_a_protocol_error() {
    let url = format!("/finalizeAuthentication?state={}", STATE);
    assert_eq!(extract_auth_code(&url, STATE).err(), Some(ProtocolError::MissingParameter));
}

#[test]
fn missing_query_is_a_protocol_error() {
    assert_eq!(
        finalize_implicit("/finalizeAuthentication", STATE, 0).err(),
        Some(ProtocolError::MissingQuery)
    );
    assert_eq!(
        extract_auth_code("/finalizeAuthentication", STATE).err(),
        Some(ProtocolError::MissingQuery)
    );
}

#[test]
fn malformed_expires_in_is_rejected() {
    let url = format!(
        "/finalizeAuthentication?access_token=t&token_type=Bearer&expires_in=soon&state={}",
        STATE
    );
    assert_eq!(finalize_implicit(&url, STATE, 0).err(), Some(ProtocolError::MalformedNumber));
}

#[test]
fn missing_access_token_is_rejected() {
    let url = format!("/finalizeAuthentication?token_type=Bearer&expires_in=10&state={}", STATE);
    assert_eq!(finalize_implicit(&url, STATE, 0).err(), Some(ProtocolError::MissingParameter));
}

#[test]
fn empty_access_token_is_rejected() {
    let url = format!(
        "/finalizeAuthentication?access_token=&token_type=Bearer&expires_in=10&state={}",
        STATE
    );
    assert_eq!(finalize_implicit(&url, STATE, 0).err(), Some(ProtocolError::MissingParameter));
}

#[test]
fn unknown_parameters_are_ignored() {
    let url = format!(
        "/finalizeAuthentication?foo=bar&access_token=t1&token_type=Bearer&later=keys&expires_in=1&state={}",
        STATE
    );
    let cred = finalize_implicit(&url, STATE, 0).expect("unknown keys must not matter");
    assert_eq!(cred.access_token, "t1");
}

#[test]
fn last_occurrence_of_a_key_wins() {
    let url = format!(
        "/finalizeAuthentication?access_token=first&access_token=second&token_type=Bearer&expires_in=1&state={}",
        STATE
    );
    let cred = finalize_implicit(&url, STATE, 0).expect("must finalize");
    assert_eq!(cred.access_token, "second");
}

#[test]
fn value_runs_to_the_second_equals_sign() {
    let url = format!(
        "/finalizeAuthentication?access_token=a=b&token_type=Bearer&expires_in=1&state={}",
        STATE
    );
    let cred = finalize_implicit(&url, STATE, 0).expect("must finalize");
    assert_eq!(cred.access_token, "a");
}

#[test]
fn absent_state_parameter_passes_the_check() {
    let url = "/finalizeAuthentication?access_token=t&token_type=Bearer&expires_in=9";
    let cred = finalize_implicit(url, STATE, 0).expect("absent state is not a mismatch");
    assert_eq!(cred.expires_in, 9);
}

#[test]
fn query_is_the_part_between_question_marks() {
    assert_eq!(target_query("/path?a=1&b=2").as_deref(), Some("a=1&b=2"));
    assert_eq!(target_query("/path?a=1?tail").as_deref(), Some("a=1"));
    assert_eq!(target_query("/path"), None);
}
