//! The pipeline's failure taxonomy and the HTTP success predicate.

use vstd::prelude::*;

verus! {

/// Every way a step of the authentication-and-backup pipeline can fail.
/// Each component hands its failure to its caller unchanged; nothing here
/// retries or wraps.
#[derive(Debug, Clone, PartialEq, Eq)]
pub enum BackupError {
    /// A required credential (client identifier or secret) was empty.
    Configuration,
    /// The network transport failed before any reply arrived.
    Transport { message: String },
    /// The identity provider answered with an explicit error payload.
    Provider { message: String },
    /// The storage API answered with a non-success HTTP status; the reply
    /// body is kept only for the upload, where it serves as diagnostics.
    RemoteApi { status: u16, body: Option<String> },
    /// A reply body was not the JSON shape the pipeline expects.
    ResponseParse,
    /// The local database file could not be opened or read.
    LocalIo { message: String },
    /// The local database file does not exist.
    NotFound,
}

/// An HTTP status in the 2xx range counts as success.
pub open spec fn status_success(status: u16) -> bool {
    200 <= status < 300
}

/// Relies on `String`'s `FromIterator<char>` (`collect`): the string of
/// exactly those characters in order.
#[verifier::external_body]
pub(crate) fn chars_to_string(cs: &Vec<char>) -> (r: String)
    ensures
        r@ == cs@,
{
    cs.iter().collect()
}

/// The decimal rendering of a non-negative number, most significant digit
/// first.
pub open spec fn decimal_chars(n: int) -> Seq<char>
    decreases n,
{
    if n < 0 {
        Seq::empty()
    } else if n < 10 {
        seq![((n + 0x30) as u8) as char]
    } else {
        decimal_chars(n / 10) + seq![((n % 10 + 0x30) as u8) as char]
    }
}

fn push_decimal(n: u16, out: &mut Vec<char>)
    ensures
        final(out)@ == old(out)@ + decimal_chars(n as int),
    decreases n,
{
    let ghost entry = out@;
    if n >= 10 {
        push_decimal(n / 10, out);
    }
    out.push((0x30 + (n % 10) as u8) as char);
    proof {
        if n >= 10 {
            assert(out@ =~= entry + decimal_chars(n as int));
        } else {
            assert(out@ =~= entry + decimal_chars(n as int));
        }
    }
}

/// Renders a status code in decimal, exactly as [`decimal_chars`] says.
pub fn u16_to_decimal(n: u16) -> (r: String)
    ensures
        r@ == decimal_chars(n as int),
{
    let mut digits: Vec<char> = Vec::new();
    push_decimal(n, &mut digits);
    proof {
        assert(Seq::<char>::empty() + decimal_chars(n as int) =~= decimal_chars(n as int));
    }
    chars_to_string(&digits)
}

/// One human-readable line per failure kind, in the wording the surrounding
/// application shows to the user.
pub fn error_message(e: &BackupError) -> (r: String)
    ensures
        e is Configuration ==> r@ == "Google Client ID is required."@,
        e matches BackupError::Transport { message } ==> r@ == "Request failed: "@ + message@,
        e matches BackupError::Provider { message } ==> r@ == "Token exchange failed: "@
            + message@,
        e matches BackupError::RemoteApi { status, body } ==> (match body {
            Some(text) => r@ == "Upload failed: "@ + text@,
            None => r@ == "Google API error: "@ + decimal_chars(status as int),
        }),
        e is ResponseParse ==> r@ == "Failed to parse JSON"@,
        e matches BackupError::LocalIo { message } ==> r@ == "Failed to read DB file: "@
            + message@,
        e is NotFound ==> r@ == "Database file not found"@,
{
    match e {
        BackupError::Configuration => String::from_str("Google Client ID is required."),
        BackupError::Transport { message } => {
            let mut s = String::from_str("Request failed: ");
            s.append(message.as_str());
            s
        },
        BackupError::Provider { message } => {
            let mut s = String::from_str("Token exchange failed: ");
            s.append(message.as_str());
            s
        },
        BackupError::RemoteApi { status, body } => match body {
            Some(text) => {
                let mut s = String::from_str("Upload failed: ");
                s.append(text.as_str());
                s
            },
            None => {
                let mut s = String::from_str("Google API error: ");
                let rendered = u16_to_decimal(*status);
                s.append(rendered.as_str());
                s
            },
        },
        BackupError::ResponseParse => String::from_str("Failed to parse JSON"),
        BackupError::LocalIo { message } => {
            let mut s = String::from_str("Failed to read DB file: ");
            s.append(message.as_str());
            s
        },
        BackupError::NotFound => String::from_str("Database file not found"),
    }
}

/// Runtime twin of [`status_success`].
pub fn is_success_status(status: u16) -> (r: bool)
    ensures
        r == status_success(status),
{
    200 <= status && status < 300
}

} // verus!
