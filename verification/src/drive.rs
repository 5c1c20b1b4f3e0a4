//! The remote-storage side of the pipeline: the folder search and creation
//! requests, the upload request's metadata, and the rules that read each
//! reply.

use crate::errors::{chars_to_string, is_success_status, status_success, BackupError};
use crate::jsonio::{file_id_of, file_shape_ok, folders_of, read_file_id, read_folder_entries, search_shape_ok};
use vstd::prelude::*;

verus! {

/// A folder as the storage service reports it.
#[derive(Debug, Clone, PartialEq, Eq)]
pub struct RemoteFolder {
    pub id: String,
    pub name: String,
}

/// The search for the canonical backup folder: folder type, the reserved
/// name `Yournal Backups`, trashed entries excluded. The query stands here
/// already percent-encoded.
pub open spec fn search_url_chars() -> Seq<char> {
    "https://www.googleapis.com/drive/v3/files?q="@
        + "mimeType%3D%27application%2Fvnd.google-apps.folder%27%20and%20name%3D%27Yournal%20Backups%27%20and%20trashed%3Dfalse"@
        + "&spaces=drive"@
}

/// The URL of the folder search.
pub fn search_url() -> (r: String)
    ensures
        r@ == search_url_chars(),
{
    let mut url = String::from_str("https://www.googleapis.com/drive/v3/files?q=");
    url.append(
        "mimeType%3D%27application%2Fvnd.google-apps.folder%27%20and%20name%3D%27Yournal%20Backups%27%20and%20trashed%3Dfalse",
    );
    url.append("&spaces=drive");
    url
}

/// The endpoint folder-create requests are posted to.
pub fn files_endpoint() -> (r: &'static str)
    ensures
        r@ == "https://www.googleapis.com/drive/v3/files"@,
{
    "https://www.googleapis.com/drive/v3/files"
}

/// The endpoint multipart uploads are posted to.
pub fn upload_endpoint() -> (r: &'static str)
    ensures
        r@ == "https://www.googleapis.com/upload/drive/v3/files?uploadType=multipart"@,
{
    "https://www.googleapis.com/upload/drive/v3/files?uploadType=multipart"
}

/// The endpoint the authorization code is exchanged at.
pub fn token_endpoint() -> (r: &'static str)
    ensures
        r@ == "https://oauth2.googleapis.com/token"@,
{
    "https://oauth2.googleapis.com/token"
}

/// The `Authorization` header value for an access token.
pub fn bearer_header_value(access_token: &str) -> (r: String)
    ensures
        r@ == "Bearer "@ + access_token@,
{
    let mut h = String::from_str("Bearer ");
    h.append(access_token);
    h
}

/// The body of the folder-create request: the reserved name and the folder
/// type, a fixed document.
pub fn create_folder_metadata() -> (r: &'static str)
    ensures
        r@ == "{\"name\":\"Yournal Backups\",\"mimeType\":\"application/vnd.google-apps.folder\"}"@,
{
    "{\"name\":\"Yournal Backups\",\"mimeType\":\"application/vnd.google-apps.folder\"}"
}

/// The lower-case hexadecimal digit for a value below 16.
pub open spec fn lower_hex_digit(n: u8) -> char {
    if n < 10 {
        (n + 0x30) as char
    } else {
        (n + 0x57) as char
    }
}

/// How one character is rendered inside a JSON string literal: `"` and `\`
/// get a backslash, the named control characters their short escapes, every
/// other control character a `\u00` escape, and everything else stands for
/// itself.
pub open spec fn json_escaped_char(c: char) -> Seq<char> {
    if c == '"' {
        seq!['\\', '"']
    } else if c == '\\' {
        seq!['\\', '\\']
    } else if c as u32 == 8 {
        seq!['\\', 'b']
    } else if c as u32 == 9 {
        seq!['\\', 't']
    } else if c as u32 == 10 {
        seq!['\\', 'n']
    } else if c as u32 == 12 {
        seq!['\\', 'f']
    } else if c as u32 == 13 {
        seq!['\\', 'r']
    } else if (c as u32) < 32 {
        seq!['\\', 'u', '0', '0', lower_hex_digit((c as u32 / 16) as u8), lower_hex_digit((c as u32 % 16) as u8)]
    } else {
        seq![c]
    }
}

/// A whole text rendered inside a JSON string literal.
pub open spec fn json_escaped(s: Seq<char>) -> Seq<char>
    decreases s.len(),
{
    if s.len() == 0 {
        Seq::empty()
    } else {
        json_escaped(s.drop_last()) + json_escaped_char(s.last())
    }
}

/// Escapes a text for use inside a JSON string literal.
fn json_escape(s: &str) -> (r: Vec<char>)
    ensures
        r@ == json_escaped(s@),
{
    let n = s.unicode_len();
    let mut out: Vec<char> = Vec::new();
    let mut i: usize = 0;
    proof {
        assert(s@.subrange(0, 0) =~= Seq::<char>::empty());
    }
    while i < n
        invariant
            n == s@.len(),
            i <= n,
            out@ == json_escaped(s@.subrange(0, i as int)),
        decreases n - i,
    {
        let ghost old_out = out@;
        let c = s.get_char(i);
        if c == '"' {
            out.push('\\');
            out.push('"');
        } else if c == '\\' {
            out.push('\\');
            out.push('\\');
        } else if (c as u32) == 8 {
            out.push('\\');
            out.push('b');
        } else if (c as u32) == 9 {
            out.push('\\');
            out.push('t');
        } else if (c as u32) == 10 {
            out.push('\\');
            out.push('n');
        } else if (c as u32) == 12 {
            out.push('\\');
            out.push('f');
        } else if (c as u32) == 13 {
            out.push('\\');
            out.push('r');
        } else if (c as u32) < 32 {
            out.push('\\');
            out.push('u');
            out.push('0');
            out.push('0');
            let hi = (c as u32 / 16) as u8;
            let lo = (c as u32 % 16) as u8;
            let hi_digit: u8 = if hi < 10 {
                hi + 0x30
            } else {
                hi + 0x57
            };
            let lo_digit: u8 = if lo < 10 {
                lo + 0x30
            } else {
                lo + 0x57
            };
            out.push(hi_digit as char);
            out.push(lo_digit as char);
        } else {
            out.push(c);
        }
        i += 1;
        proof {
            let prefix = s@.subrange(0, i as int);
            assert(prefix.drop_last() =~= s@.subrange(0, i as int - 1));
            assert(prefix.last() == s@[i as int - 1]);
            assert(out@ =~= old_out + json_escaped_char(s@[i as int - 1]));
        }
    }
    proof {
        assert(s@.subrange(0, n as int) =~= s@);
    }
    out
}

/// The upload request's metadata part: the fixed target filename and the
/// destination folder as sole parent, the folder identifier escaped as JSON
/// requires.
pub open spec fn upload_metadata_chars(folder_id: Seq<char>) -> Seq<char> {
    "{\"name\":\"yournal.sqlite\",\"parents\":[\""@ + json_escaped(folder_id) + "\"]}"@
}

/// Builds the upload request's metadata part.
pub fn upload_metadata(folder_id: &str) -> (r: String)
    ensures
        r@ == upload_metadata_chars(folder_id@),
{
    let mut out = String::from_str("{\"name\":\"yournal.sqlite\",\"parents\":[\"");
    let escaped = chars_to_string(&json_escape(folder_id));
    out.append(escaped.as_str());
    out.append("\"]}");
    out
}

/// Law: the upload request is a function of its inputs alone — repeated
/// uploads to the same folder send byte-identical metadata and carry no
/// idempotency key, so the storage service treats every call as a fresh
/// file, and each call's result is whatever identifier that call's reply
/// names.
pub proof fn lemma_upload_request_deterministic(folder_id_1: Seq<char>, folder_id_2: Seq<char>)
    requires
        folder_id_1 == folder_id_2,
    ensures
        upload_metadata_chars(folder_id_1) == upload_metadata_chars(folder_id_2),
{
}


/// Reads a folder-search reply body. The reply must carry a `files` array
/// whose entries each hold string `id` and `name` fields — anything else,
/// malformed JSON included, is a parse failure; a well-shaped reply yields
/// exactly the `(id, name)` pairs named by [`folders_of`].
pub fn parse_folder_list(body: &str) -> (r: Result<Vec<RemoteFolder>, BackupError>)
    ensures
        !search_shape_ok(body@) ==> r == Err::<Vec<RemoteFolder>, BackupError>(
            BackupError::ResponseParse,
        ),
        r is Err ==> r == Err::<Vec<RemoteFolder>, BackupError>(BackupError::ResponseParse),
        search_shape_ok(body@) ==> (r matches Ok(fs) && {
            &&& fs@.len() == folders_of(body@).len()
            &&& forall|i: int|
                0 <= i < fs@.len() ==> (#[trigger] fs@[i]).id@ == folders_of(body@)[i].0
            &&& forall|i: int|
                0 <= i < fs@.len() ==> (#[trigger] fs@[i]).name@ == folders_of(body@)[i].1
        }),
{
    let pairs = match read_folder_entries(body) {
        Some(p) => p,
        None => {
            return Err(BackupError::ResponseParse);
        },
    };
    let mut folders: Vec<RemoteFolder> = Vec::new();
    let mut i: usize = 0;
    while i < pairs.len()
        invariant
            search_shape_ok(body@),
            pairs@.len() == folders_of(body@).len(),
            forall|k: int| 0 <= k < pairs@.len() ==> (#[trigger] pairs@[k]).0@ == folders_of(body@)[k].0,
            forall|k: int| 0 <= k < pairs@.len() ==> (#[trigger] pairs@[k]).1@ == folders_of(body@)[k].1,
            i <= pairs@.len(),
            folders@.len() == i,
            forall|k: int| 0 <= k < i ==> (#[trigger] folders@[k]).id@ == folders_of(body@)[k].0,
            forall|k: int| 0 <= k < i ==> (#[trigger] folders@[k]).name@ == folders_of(body@)[k].1,
        decreases pairs@.len() - i,
    {
        let id = pairs[i].0.clone();
        let name = pairs[i].1.clone();
        folders.push(RemoteFolder { id, name });
        i += 1;
    }
    Ok(folders)
}

/// The resolver's decision on a search result: the first reported folder is
/// canonical; an empty result means the folder must be created.
pub open spec fn first_folder_id(folders: Seq<RemoteFolder>) -> Option<Seq<char>> {
    if folders.len() > 0 {
        Some(folders[0].id@)
    } else {
        None
    }
}

/// The same decision taken on a reply's named `(id, name)` pairs.
pub open spec fn first_entry_id(entries: Seq<(Seq<char>, Seq<char>)>) -> Option<Seq<char>> {
    if entries.len() > 0 {
        Some(entries[0].0)
    } else {
        None
    }
}

/// Picks the canonical folder out of a search result, exactly as
/// [`first_folder_id`] says: the first entry when there is one — duplicates
/// are neither merged nor deduplicated — and nothing on an empty result.
pub fn first_folder(folders: &Vec<RemoteFolder>) -> (r: Option<String>)
    ensures
        r matches Some(id) ==> first_folder_id(folders@) == Some(id@),
        r is None ==> first_folder_id(folders@) is None,
{
    if folders.len() > 0 {
        Some(folders[0].id.clone())
    } else {
        None
    }
}

/// Interprets the folder-search reply: a non-success status is a storage
/// failure carrying that status and no body; on a success status the only
/// possible failure is the parse failure, owed exactly when the body is not
/// a well-shaped search reply; and a well-shaped reply resolves to
/// [`first_entry_id`] of its named folders — `Some` names the resolved
/// folder, `None` says it must be created.
pub fn interpret_search_response(status: u16, body: &str) -> (r: Result<
    Option<String>,
    BackupError,
>)
    ensures
        !status_success(status) ==> r == Err::<Option<String>, BackupError>(
            BackupError::RemoteApi { status, body: None },
        ),
        status_success(status) && !search_shape_ok(body@) ==> r == Err::<
            Option<String>,
            BackupError,
        >(BackupError::ResponseParse),
        status_success(status) && search_shape_ok(body@) ==> (r matches Ok(opt)
            && opt.deep_view() == first_entry_id(folders_of(body@))),
        status_success(status) && r is Err ==> r == Err::<Option<String>, BackupError>(
            BackupError::ResponseParse,
        ),
        r is Ok ==> status_success(status),
{
    if !is_success_status(status) {
        return Err(BackupError::RemoteApi { status, body: None });
    }
    let folders = match parse_folder_list(body) {
        Ok(f) => f,
        Err(e) => {
            return Err(e);
        },
    };
    Ok(first_folder(&folders))
}

/// Interprets the folder-create reply: a non-success status is a storage
/// failure carrying that status and no body; on a success status the only
/// possible failure is the parse failure, owed exactly when the body does
/// not name string `id` and `name` fields; and a well-shaped reply yields
/// exactly the named identifier.
pub fn interpret_create_response(status: u16, body: &str) -> (r: Result<String, BackupError>)
    ensures
        !status_success(status) ==> r == Err::<String, BackupError>(
            BackupError::RemoteApi { status, body: None },
        ),
        status_success(status) && !file_shape_ok(body@) ==> r == Err::<String, BackupError>(
            BackupError::ResponseParse,
        ),
        status_success(status) && file_shape_ok(body@) ==> (r matches Ok(id) && id@ == file_id_of(
            body@,
        )),
        status_success(status) && r is Err ==> r == Err::<String, BackupError>(
            BackupError::ResponseParse,
        ),
        r is Ok ==> status_success(status),
{
    if !is_success_status(status) {
        return Err(BackupError::RemoteApi { status, body: None });
    }
    match read_file_id(body) {
        Some(id) => Ok(id),
        None => Err(BackupError::ResponseParse),
    }
}

/// Interprets the upload reply: a non-success status is a storage failure
/// that keeps the reply body for diagnostics; on a success status the only
/// possible failure is the parse failure, owed exactly when the body does
/// not name string `id` and `name` fields; and a well-shaped reply yields
/// exactly the named identifier of the new remote file.
pub fn interpret_upload_response(status: u16, body: &str) -> (r: Result<String, BackupError>)
    ensures
        !status_success(status) ==> {
            &&& r matches Err(e)
            &&& e matches BackupError::RemoteApi { status: s, body: b }
            &&& s == status
            &&& b matches Some(t)
            &&& t@ == body@
        },
        status_success(status) && !file_shape_ok(body@) ==> r == Err::<String, BackupError>(
            BackupError::ResponseParse,
        ),
        status_success(status) && file_shape_ok(body@) ==> (r matches Ok(id) && id@ == file_id_of(
            body@,
        )),
        status_success(status) && r is Err ==> r == Err::<String, BackupError>(
            BackupError::ResponseParse,
        ),
        r is Ok ==> status_success(status),
{
    if !is_success_status(status) {
        return Err(BackupError::RemoteApi { status, body: Some(body.to_owned()) });
    }
    match read_file_id(body) {
        Some(id) => Ok(id),
        None => Err(BackupError::ResponseParse),
    }
}

} // verus!
