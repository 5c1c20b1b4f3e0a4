//! The crate's window onto `serde_json`. Every reading of a reply body is a
//! deterministic function of the text alone, so each reader's result is
//! named by an uninterpreted spec function over that text; the verified
//! interpreters then owe their callers exactly those named values.

use vstd::prelude::*;

verus! {

/// Whether a text is one well-formed JSON document — the condition under
/// which `serde_json::from_str::<Value>` parses it.
pub uninterp spec fn is_json_document(s: Seq<char>) -> bool;

/// The named field of the document rendered back as JSON text, or nothing
/// when the document has no such field (or is no document at all).
pub uninterp spec fn json_text_field(body: Seq<char>, key: Seq<char>) -> Option<Seq<char>>;

/// The named field of the document when it is a JSON string, or nothing.
pub uninterp spec fn json_str_field(body: Seq<char>, key: Seq<char>) -> Option<Seq<char>>;

/// The named field of the document when it is a non-negative integer within
/// `u64`, or nothing.
pub uninterp spec fn json_u64_field(body: Seq<char>, key: Seq<char>) -> Option<u64>;

/// Whether the text reads as a folder-search reply: one document carrying a
/// `files` array whose entries each hold string `id` and `name` fields.
pub uninterp spec fn search_shape_ok(body: Seq<char>) -> bool;

/// The `(id, name)` pairs of a folder-search reply, in reply order.
pub uninterp spec fn folders_of(body: Seq<char>) -> Seq<(Seq<char>, Seq<char>)>;

/// Whether the text reads as a single-file reply: one document carrying
/// string `id` and `name` fields.
pub uninterp spec fn file_shape_ok(body: Seq<char>) -> bool;

/// The `id` of a single-file reply.
pub uninterp spec fn file_id_of(body: Seq<char>) -> Seq<char>;

/// Relies on `serde_json::from_str::<Value>`: parsing is deterministic in
/// the input text and succeeds exactly when the text is one well-formed
/// JSON document.
#[verifier::external_body]
pub(crate) fn json_document_check(body: &str) -> (r: bool)
    ensures
        r == is_json_document(body@),
{
    serde_json::from_str::<serde_json::Value>(body).is_ok()
}

/// Relies on `serde_json::from_str::<Value>`, `Value::get` and the value's
/// `Display` rendering: whether the field exists and how it renders are
/// functions of the reply text and the key alone.
#[verifier::external_body]
pub(crate) fn json_field_text(body: &str, key: &str) -> (r: Option<String>)
    ensures
        is_json_document(body@) ==> (match r {
            Some(s) => json_text_field(body@, key@) == Some(s@),
            None => json_text_field(body@, key@) is None,
        }),
        !is_json_document(body@) ==> r is None,
{
    serde_json::from_str::<serde_json::Value>(body).ok().and_then(
        |v| v.get(key).map(|f| f.to_string()),
    )
}

/// Relies on `serde_json::from_str::<Value>`, `Value::get` and
/// `Value::as_str`: the field's text, a function of the reply text and the
/// key alone; nothing for absent or non-string fields.
#[verifier::external_body]
pub(crate) fn json_field_str(body: &str, key: &str) -> (r: Option<String>)
    ensures
        is_json_document(body@) ==> (match r {
            Some(s) => json_str_field(body@, key@) == Some(s@),
            None => json_str_field(body@, key@) is None,
        }),
        !is_json_document(body@) ==> r is None,
{
    serde_json::from_str::<serde_json::Value>(body).ok().and_then(
        |v| v.get(key).and_then(|f| f.as_str()).map(|s| s.to_owned()),
    )
}

/// Relies on `serde_json::from_str::<Value>`, `Value::get` and
/// `Value::as_u64`: the field's value, a function of the reply text and the
/// key alone; nothing for absent or non-`u64` fields.
#[verifier::external_body]
pub(crate) fn json_field_u64(body: &str, key: &str) -> (r: Option<u64>)
    ensures
        is_json_document(body@) ==> r == json_u64_field(body@, key@),
        !is_json_document(body@) ==> r is None,
{
    serde_json::from_str::<serde_json::Value>(body).ok().and_then(
        |v| v.get(key).and_then(|f| f.as_u64()),
    )
}

/// Relies on `serde_json::from_str::<Value>`, `Value::get`, `Value::as_array`
/// and `Value::as_str`, together reading one fixed shape — a document with a
/// `files` array of `{id, name}` string entries, extra fields ignored: the
/// shape test and the entries are functions of the reply text alone. `None`
/// exactly when the text is not a folder-search reply.
#[verifier::external_body]
pub(crate) fn read_folder_entries(body: &str) -> (r: Option<Vec<(String, String)>>)
    ensures
        r is Some <==> search_shape_ok(body@),
        r matches Some(list) ==> {
            &&& list@.len() == folders_of(body@).len()
            &&& forall|i: int|
                0 <= i < list@.len() ==> (#[trigger] list@[i]).0@ == folders_of(body@)[i].0
            &&& forall|i: int|
                0 <= i < list@.len() ==> (#[trigger] list@[i]).1@ == folders_of(body@)[i].1
        },
{
    let v: serde_json::Value = serde_json::from_str(body).ok()?;
    let files = v.get("files")?.as_array()?;
    files.iter().map(
        |f| {
            let id = f.get("id")?.as_str()?.to_owned();
            let name = f.get("name")?.as_str()?.to_owned();
            Some((id, name))
        },
    ).collect::<Option<Vec<(String, String)>>>()
}

/// Relies on `serde_json::from_str::<Value>`, `Value::get` and
/// `Value::as_str`, together reading one fixed shape — a document with
/// string `id` and `name` fields, extra fields ignored — and handing the
/// `id` back. `None` exactly when the text is not such a reply.
#[verifier::external_body]
pub(crate) fn read_file_id(body: &str) -> (r: Option<String>)
    ensures
        r is Some <==> file_shape_ok(body@),
        r matches Some(id) ==> id@ == file_id_of(body@),
{
    let v: serde_json::Value = serde_json::from_str(body).ok()?;
    let id = v.get("id")?.as_str()?;
    let _name = v.get("name")?.as_str()?;
    Some(id.to_owned())
}

} // verus!
