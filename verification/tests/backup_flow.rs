use yournal_core::backup::{backup_step, BackupAction, BackupEvent, BackupState};
use yournal_core::drive::{interpret_create_response, interpret_search_response, interpret_upload_response, upload_metadata};
use yournal_core::errors::BackupError;

#[test]
fn missing_local_file_fails_before_any_network_step() {
    let (state, action) = backup_step(BackupState::Idle, BackupEvent::Start { db_exists: false });
    assert_eq!(state, BackupState::Failed { error: BackupError::NotFound });
    assert_eq!(action, BackupAction::Stop);
}

#[test]
fn end_to_end_backup_with_folder_creation() {
    // The local file exists: the orchestrator asks for the search.
    let (state, action) = backup_step(BackupState::Idle, BackupEvent::Start { db_exists: true });
    assert_eq!(state, BackupState::Searching);
    assert_eq!(action, BackupAction::RunSearch);

    // The search finds no folder.
    let search = interpret_search_response(200, "{\"files\":[]}");
    let (state, action) = backup_step(state, BackupEvent::SearchDone { result: search });
    assert_eq!(state, BackupState::Creating);
    assert_eq!(action, BackupAction::RunCreate);

    // The folder is created as F1.
    let created = interpret_create_response(200, "{\"id\":\"F1\",\"name\":\"Yournal Backups\"}");
    let (state, action) = backup_step(state, BackupEvent::CreateDone { result: created });
    assert_eq!(state, BackupState::Uploading { folder_id: "F1".to_string() });
    assert_eq!(action, BackupAction::RunUpload { folder_id: "F1".to_string() });

    // The upload lands as U1 and the run ends with that identifier.
    let uploaded = interpret_upload_response(200, "{\"id\":\"U1\",\"name\":\"yournal.sqlite\"}");
    let (state, action) = backup_step(state, BackupEvent::UploadDone { result: uploaded });
    assert_eq!(state, BackupState::Done { file_id: "U1".to_string() });
    assert_eq!(action, BackupAction::Stop);
}

#[test]
fn existing_folder_skips_creation() {
    let (state, _) = backup_step(BackupState::Idle, BackupEvent::Start { db_exists: true });
    let search = interpret_search_response(200, "{\"files\":[{\"id\":\"F7\",\"name\":\"Yournal Backups\"}]}");
    let (state, action) = backup_step(state, BackupEvent::SearchDone { result: search });
    assert_eq!(state, BackupState::Uploading { folder_id: "F7".to_string() });
    assert_eq!(action, BackupAction::RunUpload { folder_id: "F7".to_string() });
}

#[test]
fn resolving_twice_over_the_same_search_result_agrees() {
    let body = "{\"files\":[{\"id\":\"F7\",\"name\":\"Yournal Backups\"}]}";
    let first = interpret_search_response(200, body);
    let second = interpret_search_response(200, body);
    assert_eq!(first, Ok(Some("F7".to_string())));
    assert_eq!(first, second);
    // Neither resolution asks for the create step.
    let (_, action) = backup_step(BackupState::Searching, BackupEvent::SearchDone { result: first });
    assert_ne!(action, BackupAction::RunCreate);
    let (_, action) = backup_step(BackupState::Searching, BackupEvent::SearchDone { result: second });
    assert_ne!(action, BackupAction::RunCreate);
}

#[test]
fn search_failure_reaches_the_terminal_state_untouched() {
    let search = interpret_search_response(500, "ignored");
    let (state, action) = backup_step(BackupState::Searching, BackupEvent::SearchDone { result: search });
    assert_eq!(
        state,
        BackupState::Failed { error: BackupError::RemoteApi { status: 500, body: None } }
    );
    assert_eq!(action, BackupAction::Stop);
}

#[test]
fn failing_create_surfaces_the_status() {
    let created = interpret_create_response(500, "server error");
    let (state, action) = backup_step(BackupState::Creating, BackupEvent::CreateDone { result: created });
    assert_eq!(
        state,
        BackupState::Failed { error: BackupError::RemoteApi { status: 500, body: None } }
    );
    assert_eq!(action, BackupAction::Stop);
}

#[test]
fn repeated_uploads_duplicate_rather_than_overwrite() {
    // Identical inputs build byte-identical requests with no idempotency
    // key, so a stub service answering each call with a fresh identifier
    // yields two distinct remote files.
    let first_request = upload_metadata("F1");
    let second_request = upload_metadata("F1");
    assert_eq!(first_request, second_request);

    let first = interpret_upload_response(200, "{\"id\":\"U1\",\"name\":\"yournal.sqlite\"}");
    let second = interpret_upload_response(200, "{\"id\":\"U2\",\"name\":\"yournal.sqlite\"}");
    assert_eq!(first, Ok("U1".to_string()));
    assert_eq!(second, Ok("U2".to_string()));
    assert_ne!(first, second);
}
