use yournal_core::errors::{error_message, u16_to_decimal, BackupError};

#[test]
fn status_codes_render_in_decimal() {
    assert_eq!(u16_to_decimal(0), "0");
    assert_eq!(u16_to_decimal(7), "7");
    assert_eq!(u16_to_decimal(42), "42");
    assert_eq!(u16_to_decimal(500), "500");
    assert_eq!(u16_to_decimal(65535), "65535");
}

#[test]
fn each_failure_kind_has_its_line() {
    assert_eq!(
        error_message(&BackupError::Configuration),
        "Google Client ID is required."
    );
    assert_eq!(
        error_message(&BackupError::Transport { message: "refused".to_string() }),
        "Request failed: refused"
    );
    assert_eq!(
        error_message(&BackupError::Provider { message: "\"invalid_grant\"".to_string() }),
        "Token exchange failed: \"invalid_grant\""
    );
    assert_eq!(
        error_message(&BackupError::RemoteApi { status: 403, body: None }),
        "Google API error: 403"
    );
    assert_eq!(
        error_message(&BackupError::RemoteApi { status: 500, body: Some("quota".to_string()) }),
        "Upload failed: quota"
    );
    assert_eq!(error_message(&BackupError::ResponseParse), "Failed to parse JSON");
    assert_eq!(
        error_message(&BackupError::LocalIo { message: "denied".to_string() }),
        "Failed to read DB file: denied"
    );
    assert_eq!(error_message(&BackupError::NotFound), "Database file not found");
}
