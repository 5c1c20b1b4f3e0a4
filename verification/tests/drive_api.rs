use yournal_core::drive::{
    bearer_header_value, create_folder_metadata, files_endpoint, first_folder,
    interpret_create_response, interpret_search_response, interpret_upload_response,
    parse_folder_list, search_url, token_endpoint, upload_endpoint, upload_metadata, RemoteFolder,
};
use yournal_core::errors::BackupError;

#[test]
fn search_url_matches_the_encoder_crate() {
    let query = "mimeType='application/vnd.google-apps.folder' and name='Yournal Backups' and trashed=false";
    let expected = format!(
        "https://www.googleapis.com/drive/v3/files?q={}&spaces=drive",
        urlencoding::encode(query)
    );
    assert_eq!(search_url(), expected);
}

#[test]
fn endpoints_are_fixed() {
    assert_eq!(files_endpoint(), "https://www.googleapis.com/drive/v3/files");
    assert_eq!(
        upload_endpoint(),
        "https://www.googleapis.com/upload/drive/v3/files?uploadType=multipart"
    );
    assert_eq!(token_endpoint(), "https://oauth2.googleapis.com/token");
}

#[test]
fn bearer_header_prefixes_the_token() {
    assert_eq!(bearer_header_value("tok123"), "Bearer tok123");
}

#[test]
fn create_metadata_names_the_reserved_folder() {
    let v: serde_json::Value = serde_json::from_str(create_folder_metadata()).unwrap();
    assert_eq!(v.get("name").unwrap().as_str(), Some("Yournal Backups"));
    assert_eq!(
        v.get("mimeType").unwrap().as_str(),
        Some("application/vnd.google-apps.folder")
    );
}

#[test]
fn search_reply_with_a_folder_resolves_to_its_identifier() {
    let body = "{\"files\":[{\"id\":\"F9\",\"name\":\"Yournal Backups\"}]}";
    assert_eq!(interpret_search_response(200, body), Ok(Some("F9".to_string())));
}

#[test]
fn search_reply_uses_the_first_folder_only() {
    let body = "{\"files\":[{\"id\":\"F1\",\"name\":\"Yournal Backups\"},{\"id\":\"F2\",\"name\":\"Yournal Backups\"}]}";
    assert_eq!(interpret_search_response(200, body), Ok(Some("F1".to_string())));
}

#[test]
fn empty_search_reply_asks_for_creation() {
    assert_eq!(interpret_search_response(200, "{\"files\":[]}"), Ok(None));
}

#[test]
fn search_failure_status_carries_the_status() {
    assert_eq!(
        interpret_search_response(403, "ignored"),
        Err(BackupError::RemoteApi { status: 403, body: None })
    );
}

#[test]
fn malformed_search_reply_is_a_parse_failure() {
    assert_eq!(interpret_search_response(200, "oops"), Err(BackupError::ResponseParse));
    assert_eq!(interpret_search_response(200, "{}"), Err(BackupError::ResponseParse));
    assert_eq!(
        interpret_search_response(200, "{\"files\":[{\"name\":\"no id\"}]}"),
        Err(BackupError::ResponseParse)
    );
}

#[test]
fn success_statuses_are_exactly_the_2xx_range() {
    assert_eq!(interpret_search_response(299, "{\"files\":[]}"), Ok(None));
    assert_eq!(
        interpret_search_response(300, "{\"files\":[]}"),
        Err(BackupError::RemoteApi { status: 300, body: None })
    );
    assert_eq!(
        interpret_search_response(199, "{\"files\":[]}"),
        Err(BackupError::RemoteApi { status: 199, body: None })
    );
}

#[test]
fn folder_list_parsing_and_first_pick() {
    let body = "{\"files\":[{\"id\":\"A\",\"name\":\"x\"},{\"id\":\"B\",\"name\":\"y\"}]}";
    let folders = parse_folder_list(body).unwrap();
    assert_eq!(
        folders,
        vec![
            RemoteFolder { id: "A".to_string(), name: "x".to_string() },
            RemoteFolder { id: "B".to_string(), name: "y".to_string() },
        ]
    );
    assert_eq!(first_folder(&folders), Some("A".to_string()));
    assert_eq!(first_folder(&Vec::new()), None);
}

#[test]
fn create_reply_success_yields_the_new_identifier() {
    let body = "{\"id\":\"F1\",\"name\":\"Yournal Backups\"}";
    assert_eq!(interpret_create_response(200, body), Ok("F1".to_string()));
}

#[test]
fn create_reply_failure_carries_the_status() {
    assert_eq!(
        interpret_create_response(500, "whatever"),
        Err(BackupError::RemoteApi { status: 500, body: None })
    );
}

#[test]
fn create_reply_without_identifier_is_a_parse_failure() {
    assert_eq!(interpret_create_response(200, "{}"), Err(BackupError::ResponseParse));
}

#[test]
fn upload_reply_success_yields_the_file_identifier() {
    let body = "{\"id\":\"U1\",\"name\":\"yournal.sqlite\"}";
    assert_eq!(interpret_upload_response(200, body), Ok("U1".to_string()));
}

#[test]
fn upload_reply_failure_keeps_the_body_for_diagnostics() {
    assert_eq!(
        interpret_upload_response(403, "quota exceeded"),
        Err(BackupError::RemoteApi { status: 403, body: Some("quota exceeded".to_string()) })
    );
}

#[test]
fn malformed_upload_reply_is_a_parse_failure() {
    assert_eq!(interpret_upload_response(200, "<html>"), Err(BackupError::ResponseParse));
}

#[test]
fn upload_metadata_names_file_and_parent() {
    assert_eq!(
        upload_metadata("F1"),
        "{\"name\":\"yournal.sqlite\",\"parents\":[\"F1\"]}"
    );
}

#[test]
fn upload_metadata_escapes_like_a_json_writer() {
    let odd = "F\"1\\x\n\u{1}tail";
    let text = upload_metadata(odd);
    let v: serde_json::Value = serde_json::from_str(&text).unwrap();
    assert_eq!(v.get("name").unwrap().as_str(), Some("yournal.sqlite"));
    let parents = v.get("parents").unwrap().as_array().unwrap();
    assert_eq!(parents.len(), 1);
    assert_eq!(parents[0].as_str(), Some(odd));
    let direct = serde_json::to_string(&serde_json::Value::String(odd.to_string())).unwrap();
    assert!(text.contains(direct.trim_matches('"')));
}
