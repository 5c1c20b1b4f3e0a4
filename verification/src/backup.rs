//! The backup orchestrator: a straight-line state machine that checks the
//! local file, resolves the destination folder — searching first, creating
//! only on an empty search — and then uploads, surfacing the first failure
//! untouched.

use crate::drive::{first_folder_id, RemoteFolder};
use crate::errors::BackupError;
use vstd::prelude::*;

verus! {

/// Where a backup run stands. Every run starts at `Idle`; nothing is kept
/// between runs.
#[derive(Debug, PartialEq, Eq)]
pub enum BackupState {
    Idle,
    Searching,
    Creating,
    Uploading { folder_id: String },
    Done { file_id: String },
    Failed { error: BackupError },
}

/// What the world reports back to the orchestrator.
#[derive(Debug, PartialEq, Eq)]
pub enum BackupEvent {
    /// Whether the local database file exists — checked before any network
    /// activity.
    Start { db_exists: bool },
    /// The folder search's outcome: a resolved identifier, word that no
    /// folder exists yet, or a failure.
    SearchDone { result: Result<Option<String>, BackupError> },
    /// The folder creation's outcome.
    CreateDone { result: Result<String, BackupError> },
    /// The upload's outcome.
    UploadDone { result: Result<String, BackupError> },
}

/// What the orchestrator asks for next. `Stop` ends the run — the final
/// state then carries the file identifier or the failure.
#[derive(Debug, PartialEq, Eq)]
pub enum BackupAction {
    RunSearch,
    RunCreate,
    RunUpload { folder_id: String },
    Stop,
}

/// The orchestrator's transition relation. An event that does not belong to
/// the current state leaves the state unchanged and stops.
pub open spec fn backup_transition(s: BackupState, e: BackupEvent) -> (BackupState, BackupAction) {
    match (s, e) {
        (BackupState::Idle, BackupEvent::Start { db_exists }) => {
            if db_exists {
                (BackupState::Searching, BackupAction::RunSearch)
            } else {
                ((BackupState::Failed { error: BackupError::NotFound }), BackupAction::Stop)
            }
        },
        (BackupState::Searching, BackupEvent::SearchDone { result }) => match result {
            Ok(Some(folder_id)) => (
                (BackupState::Uploading { folder_id }),
                (BackupAction::RunUpload { folder_id }),
            ),
            Ok(None) => (BackupState::Creating, BackupAction::RunCreate),
            Err(error) => ((BackupState::Failed { error }), BackupAction::Stop),
        },
        (BackupState::Creating, BackupEvent::CreateDone { result }) => match result {
            Ok(folder_id) => (
                (BackupState::Uploading { folder_id }),
                (BackupAction::RunUpload { folder_id }),
            ),
            Err(error) => ((BackupState::Failed { error }), BackupAction::Stop),
        },
        (BackupState::Uploading { folder_id: _ }, BackupEvent::UploadDone { result }) => match result {
            Ok(file_id) => ((BackupState::Done { file_id }), BackupAction::Stop),
            Err(error) => ((BackupState::Failed { error }), BackupAction::Stop),
        },
        (other, _) => (other, BackupAction::Stop),
    }
}

/// Advances one step of a backup run, exactly as [`backup_transition`]
/// says.
pub fn backup_step(state: BackupState, event: BackupEvent) -> (r: (BackupState, BackupAction))
    ensures
        r == backup_transition(state, event),
{
    match (state, event) {
        (BackupState::Idle, BackupEvent::Start { db_exists }) => {
            if db_exists {
                (BackupState::Searching, BackupAction::RunSearch)
            } else {
                (BackupState::Failed { error: BackupError::NotFound }, BackupAction::Stop)
            }
        },
        (BackupState::Searching, BackupEvent::SearchDone { result }) => match result {
            Ok(Some(folder_id)) => {
                let upload_id = folder_id.clone();
                (
                    BackupState::Uploading { folder_id },
                    BackupAction::RunUpload { folder_id: upload_id },
                )
            },
            Ok(None) => (BackupState::Creating, BackupAction::RunCreate),
            Err(error) => (BackupState::Failed { error }, BackupAction::Stop),
        },
        (BackupState::Creating, BackupEvent::CreateDone { result }) => match result {
            Ok(folder_id) => {
                let upload_id = folder_id.clone();
                (
                    BackupState::Uploading { folder_id },
                    BackupAction::RunUpload { folder_id: upload_id },
                )
            },
            Err(error) => (BackupState::Failed { error }, BackupAction::Stop),
        },
        (BackupState::Uploading { folder_id: _ }, BackupEvent::UploadDone { result }) => match result {
            Ok(file_id) => (BackupState::Done { file_id }, BackupAction::Stop),
            Err(error) => (BackupState::Failed { error }, BackupAction::Stop),
        },
        (other, _) => (other, BackupAction::Stop),
    }
}

/// Law: a search that reports at least one folder resolves to that first
/// folder's identifier. The decision is a function of the search result
/// alone, so two resolutions over the same result name the same folder, and
/// the orchestrator moves straight to the upload — the create step is never
/// taken.
pub proof fn lemma_folder_resolution_idempotent(folders: Seq<RemoteFolder>, resolved: String)
    requires
        folders.len() > 0,
        resolved@ == folders[0].id@,
    ensures
        first_folder_id(folders) == Some(folders[0].id@),
        backup_transition(
            BackupState::Searching,
            (BackupEvent::SearchDone { result: Ok(Some(resolved)) }),
        ) == ((BackupState::Uploading { folder_id: resolved }), (BackupAction::RunUpload {
            folder_id: resolved,
        })),
        !(backup_transition(
            BackupState::Searching,
            (BackupEvent::SearchDone { result: Ok(Some(resolved)) }),
        ).1 is RunCreate),
{
}

/// Law: the straight-line run — local file present, empty search, folder
/// created, upload accepted — walks `Idle`, `Searching`, `Creating`,
/// `Uploading`, `Done`, asking for search, create and upload in that order,
/// and ends carrying exactly the upload reply's identifier.
pub proof fn lemma_backup_happy_path(created: String, uploaded: String)
    ensures
        backup_transition(BackupState::Idle, (BackupEvent::Start { db_exists: true })) == (
            BackupState::Searching,
            BackupAction::RunSearch,
        ),
        backup_transition(BackupState::Searching, (BackupEvent::SearchDone { result: Ok(None) }))
            == (BackupState::Creating, BackupAction::RunCreate),
        backup_transition(BackupState::Creating, (BackupEvent::CreateDone { result: Ok(created) }))
            == ((BackupState::Uploading { folder_id: created }), (BackupAction::RunUpload {
            folder_id: created,
        })),
        backup_transition(
            (BackupState::Uploading { folder_id: created }),
            (BackupEvent::UploadDone { result: Ok(uploaded) }),
        ) == ((BackupState::Done { file_id: uploaded }), BackupAction::Stop),
        backup_transition(BackupState::Idle, (BackupEvent::Start { db_exists: false })) == (
            (BackupState::Failed { error: BackupError::NotFound }),
            BackupAction::Stop,
        ),
{
}

/// Law: `Done` and `Failed` are terminal — no further event moves the
/// orchestrator out of them or asks for more work.
pub proof fn lemma_terminal_states(s: BackupState, e: BackupEvent)
    requires
        s is Done || s is Failed,
    ensures
        backup_transition(s, e).0 == s,
        backup_transition(s, e).1 is Stop,
{
}

/// Law: an empty search result sends the orchestrator to the create step;
/// a successful creation's identifier is exactly the one handed on to the
/// uploader; and a failed creation carries its error to the terminal state
/// untouched.
pub proof fn lemma_folder_creation_fallback(
    folders: Seq<RemoteFolder>,
    created: String,
    failure: BackupError,
)
    requires
        folders.len() == 0,
    ensures
        first_folder_id(folders) is None,
        backup_transition(BackupState::Searching, (BackupEvent::SearchDone { result: Ok(None) }))
            == (BackupState::Creating, BackupAction::RunCreate),
        backup_transition(BackupState::Creating, (BackupEvent::CreateDone { result: Ok(created) }))
            == ((BackupState::Uploading { folder_id: created }), (BackupAction::RunUpload {
            folder_id: created,
        })),
        backup_transition(
            BackupState::Creating,
            (BackupEvent::CreateDone { result: Err(failure) }),
        ) == ((BackupState::Failed { error: failure }), BackupAction::Stop),
{
}

} // verus!
