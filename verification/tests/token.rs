use yournal_core::errors::BackupError;
use yournal_core::oauth::{auth_state_from_fields, interpret_token_response, token_request_form, AuthState};

#[test]
fn provider_error_wins_whatever_the_status_was() {
    let r = interpret_token_response("{\"error\": \"invalid_grant\"}");
    match r {
        Err(BackupError::Provider { message }) => assert_eq!(message, "\"invalid_grant\""),
        other => panic!("expected a provider failure, got {:?}", other),
    }
}

#[test]
fn provider_error_wins_even_beside_an_access_token() {
    let r = interpret_token_response("{\"access_token\":\"t1\",\"error\":{\"kind\":\"bad\"}}");
    assert!(matches!(r, Err(BackupError::Provider { .. })));
}

#[test]
fn tokens_are_taken_opportunistically() {
    let r = interpret_token_response("{\"access_token\":\"t1\",\"expires_in\":3600}");
    assert_eq!(
        r,
        Ok(AuthState {
            access_token: Some("t1".to_string()),
            refresh_token: None,
            expires_in: Some(3600),
        })
    );
}

#[test]
fn all_fields_absent_is_still_a_success() {
    let r = interpret_token_response("{}");
    assert_eq!(
        r,
        Ok(AuthState { access_token: None, refresh_token: None, expires_in: None })
    );
}

#[test]
fn malformed_body_is_a_parse_failure() {
    assert_eq!(interpret_token_response("not json"), Err(BackupError::ResponseParse));
}

#[test]
fn mistyped_fields_are_dropped_not_fatal() {
    let r = interpret_token_response("{\"access_token\":7,\"expires_in\":\"soon\"}");
    assert_eq!(
        r,
        Ok(AuthState { access_token: None, refresh_token: None, expires_in: None })
    );
}

#[test]
fn token_form_holds_the_five_fields() {
    let form = token_request_form("id1", "sec1", "code1").unwrap();
    assert_eq!(
        form,
        vec![
            ("client_id".to_string(), "id1".to_string()),
            ("client_secret".to_string(), "sec1".to_string()),
            ("code".to_string(), "code1".to_string()),
            ("grant_type".to_string(), "authorization_code".to_string()),
            ("redirect_uri".to_string(), "http://localhost:8484/callback".to_string()),
        ]
    );
}

#[test]
fn missing_credentials_are_a_configuration_error() {
    assert_eq!(token_request_form("", "sec", "c"), Err(BackupError::Configuration));
    assert_eq!(token_request_form("id", "", "c"), Err(BackupError::Configuration));
    assert!(token_request_form("id", "sec", "").is_ok());
}

#[test]
fn field_rule_is_exact() {
    let r = auth_state_from_fields(Some("boom".to_string()), Some("t".to_string()), None, None);
    assert_eq!(r, Err(BackupError::Provider { message: "boom".to_string() }));
    let ok = auth_state_from_fields(None, None, Some("r1".to_string()), Some(5));
    assert_eq!(
        ok,
        Ok(AuthState { access_token: None, refresh_token: Some("r1".to_string()), expires_in: Some(5) })
    );
}
