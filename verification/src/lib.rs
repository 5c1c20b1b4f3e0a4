//! Verified core of a journaling application's cloud-backup pipeline.
//!
//! The crate covers the protocol logic of the pipeline: building the OAuth2
//! consent URL, extracting the authorization code from the local callback,
//! interpreting the token-exchange reply, resolving the remote backup folder
//! (find it by name, create it when absent), shaping the upload request, and
//! the orchestrator that sequences those steps. Network and file I/O stay
//! outside; every function here is a total function from plain values to
//! plain values with a proved contract.

use vstd::prelude::*;

pub mod backup;
pub mod drive;
pub mod errors;
pub mod jsonio;
pub mod migrations;
pub mod oauth;
pub mod strsplit;
pub mod templates;
pub mod urlenc;

verus! {

/// Greeting shown by the UI's demonstration command.
pub fn greet(name: &str) -> (r: String)
    ensures
        r@ == "Hello, "@ + name@ + "! You've been greeted from Rust!"@,
{
    let mut out = String::from_str("Hello, ");
    out.append(name);
    out.append("! You've been greeted from Rust!");
    out
}

} // verus!
