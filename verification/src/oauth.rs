//! The OAuth2 side of the pipeline: the consent URL, the local callback's
//! acknowledgment pages, the token-exchange form, and the rule that turns a
//! token reply's fields into tokens or a provider failure.

use crate::errors::BackupError;
use crate::jsonio::{
    is_json_document, json_document_check, json_field_str, json_field_text, json_field_u64,
    json_str_field, json_text_field, json_u64_field,
};
use crate::strsplit::{lemma_split_chars_nonempty, split_chars, split_str};
use crate::urlenc::{percent_encode_bytes, percent_encoded};
use vstd::prelude::*;
use vstd::string::StringSliceAdditionalSpecFns;

verus! {

/// Tokens returned by the identity provider. Any field may be absent: the
/// provider omits, for example, the refresh token on repeat consent.
#[derive(Debug, Clone, PartialEq, Eq)]
pub struct AuthState {
    pub access_token: Option<String>,
    pub refresh_token: Option<String>,
    pub expires_in: Option<u64>,
}

/// The consent URL for a client identifier. Only the identifier varies, so
/// the fixed parameter values stand here already percent-encoded.
pub open spec fn auth_url_chars(cid: Seq<u8>) -> Seq<char> {
    "https://"@ + "accounts.google.com/o/oauth2/v2/auth?"@ + "client_id="@ + percent_encoded(cid)
        + "&redirect_uri="@ + "http%3A%2F%2Flocalhost%3A8484%2Fcallback"@ + "&response_type=code"@
        + "&scope="@ + "https%3A%2F%2Fwww.googleapis.com%2Fauth%2Fdrive.file"@
        + "&access_type=offline"@ + "&prompt=consent"@
}

/// Builds the provider's consent-page URL. An empty client identifier is a
/// missing credential and is rejected; any other identifier yields exactly
/// [`auth_url_chars`] of its bytes.
pub fn build_auth_url(client_id: &str) -> (r: Result<String, BackupError>)
    ensures
        client_id@.len() == 0 ==> r == Err::<String, BackupError>(BackupError::Configuration),
        client_id@.len() != 0 ==> (r matches Ok(u) && u@ == auth_url_chars(client_id.spec_bytes())),
{
    if client_id.is_empty() {
        return Err(BackupError::Configuration);
    }
    let encoded_id = percent_encode_bytes(client_id.as_bytes());
    let mut url = String::from_str("https://");
    url.append("accounts.google.com/o/oauth2/v2/auth?");
    url.append("client_id=");
    url.append(encoded_id.as_str());
    url.append("&redirect_uri=");
    url.append("http%3A%2F%2Flocalhost%3A8484%2Fcallback");
    url.append("&response_type=code");
    url.append("&scope=");
    url.append("https%3A%2F%2Fwww.googleapis.com%2Fauth%2Fdrive.file");
    url.append("&access_type=offline");
    url.append("&prompt=consent");
    Ok(url)
}

/// `needle` occurs contiguously somewhere in `hay`.
pub open spec fn contains_sub(hay: Seq<char>, needle: Seq<char>) -> bool {
    exists|i: int|
        0 <= i && i + needle.len() <= hay.len() && #[trigger] hay.subrange(i, i + needle.len())
            == needle
}

proof fn lemma_contains_at_end(a: Seq<char>, b: Seq<char>)
    ensures
        contains_sub(a + b, b),
{
    let i = a.len() as int;
    assert((a + b).subrange(i, i + b.len()) =~= b);
}

proof fn lemma_contains_extend_right(h: Seq<char>, t: Seq<char>, n: Seq<char>)
    requires
        contains_sub(h, n),
    ensures
        contains_sub(h + t, n),
{
    let i = choose|i: int|
        0 <= i && i + n.len() <= h.len() && #[trigger] h.subrange(i, i + n.len()) == n;
    assert((h + t).subrange(i, i + n.len()) =~= h.subrange(i, i + n.len()));
}

/// Law: whatever the client identifier, the consent URL is absolute — it
/// opens with the `https` scheme — and names all six required query
/// parameters: `client_id`, `redirect_uri`, `response_type=code`, `scope`,
/// `access_type=offline` and `prompt=consent`.
pub proof fn lemma_auth_url_well_formed(cid: Seq<u8>)
    ensures
        auth_url_chars(cid).subrange(0, 8) == "https://"@,
        contains_sub(auth_url_chars(cid), "client_id="@),
        contains_sub(auth_url_chars(cid), "&redirect_uri="@),
        contains_sub(auth_url_chars(cid), "&response_type=code"@),
        contains_sub(auth_url_chars(cid), "&scope="@),
        contains_sub(auth_url_chars(cid), "&access_type=offline"@),
        contains_sub(auth_url_chars(cid), "&prompt=consent"@),
{
    let p1 = "https://"@;
    let p2 = "accounts.google.com/o/oauth2/v2/auth?"@;
    let p3 = "client_id="@;
    let e1 = percent_encoded(cid);
    let p4 = "&redirect_uri="@;
    let p5 = "http%3A%2F%2Flocalhost%3A8484%2Fcallback"@;
    let p6 = "&response_type=code"@;
    let p7 = "&scope="@;
    let p8 = "https%3A%2F%2Fwww.googleapis.com%2Fauth%2Fdrive.file"@;
    let p9 = "&access_type=offline"@;
    let p10 = "&prompt=consent"@;
    let url = auth_url_chars(cid);

    reveal_strlit("https://");
    assert(url.subrange(0, 8) =~= p1);

    lemma_contains_at_end(p1 + p2, p3);
    lemma_contains_extend_right(p1 + p2 + p3, e1, p3);
    lemma_contains_extend_right(p1 + p2 + p3 + e1, p4, p3);
    lemma_contains_extend_right(p1 + p2 + p3 + e1 + p4, p5, p3);
    lemma_contains_extend_right(p1 + p2 + p3 + e1 + p4 + p5, p6, p3);
    lemma_contains_extend_right(p1 + p2 + p3 + e1 + p4 + p5 + p6, p7, p3);
    lemma_contains_extend_right(p1 + p2 + p3 + e1 + p4 + p5 + p6 + p7, p8, p3);
    lemma_contains_extend_right(p1 + p2 + p3 + e1 + p4 + p5 + p6 + p7 + p8, p9, p3);
    lemma_contains_extend_right(p1 + p2 + p3 + e1 + p4 + p5 + p6 + p7 + p8 + p9, p10, p3);

    lemma_contains_at_end(p1 + p2 + p3 + e1, p4);
    lemma_contains_extend_right(p1 + p2 + p3 + e1 + p4, p5, p4);
    lemma_contains_extend_right(p1 + p2 + p3 + e1 + p4 + p5, p6, p4);
    lemma_contains_extend_right(p1 + p2 + p3 + e1 + p4 + p5 + p6, p7, p4);
    lemma_contains_extend_right(p1 + p2 + p3 + e1 + p4 + p5 + p6 + p7, p8, p4);
    lemma_contains_extend_right(p1 + p2 + p3 + e1 + p4 + p5 + p6 + p7 + p8, p9, p4);
    lemma_contains_extend_right(p1 + p2 + p3 + e1 + p4 + p5 + p6 + p7 + p8 + p9, p10, p4);

    lemma_contains_at_end(p1 + p2 + p3 + e1 + p4 + p5, p6);
    lemma_contains_extend_right(p1 + p2 + p3 + e1 + p4 + p5 + p6, p7, p6);
    lemma_contains_extend_right(p1 + p2 + p3 + e1 + p4 + p5 + p6 + p7, p8, p6);
    lemma_contains_extend_right(p1 + p2 + p3 + e1 + p4 + p5 + p6 + p7 + p8, p9, p6);
    lemma_contains_extend_right(p1 + p2 + p3 + e1 + p4 + p5 + p6 + p7 + p8 + p9, p10, p6);

    lemma_contains_at_end(p1 + p2 + p3 + e1 + p4 + p5 + p6, p7);
    lemma_contains_extend_right(p1 + p2 + p3 + e1 + p4 + p5 + p6 + p7, p8, p7);
    lemma_contains_extend_right(p1 + p2 + p3 + e1 + p4 + p5 + p6 + p7 + p8, p9, p7);
    lemma_contains_extend_right(p1 + p2 + p3 + e1 + p4 + p5 + p6 + p7 + p8 + p9, p10, p7);

    lemma_contains_at_end(p1 + p2 + p3 + e1 + p4 + p5 + p6 + p7 + p8, p9);
    lemma_contains_extend_right(p1 + p2 + p3 + e1 + p4 + p5 + p6 + p7 + p8 + p9, p10, p9);

    lemma_contains_at_end(p1 + p2 + p3 + e1 + p4 + p5 + p6 + p7 + p8 + p9, p10);
}

/// The address the single-use callback listener binds: a fixed local port.
pub fn listener_address() -> (r: &'static str)
    ensures
        r@ == "127.0.0.1:8484"@,
{
    "127.0.0.1:8484"
}

/// The static page served to the browser after the one callback request,
/// chosen by whether an authorization code was found in it.
pub fn callback_page(code_found: bool) -> (r: &'static str)
    ensures
        code_found ==> r@
            == "Authentication successful! You can close this window and return to Yournal."@,
        !code_found ==> r@
            == "Authentication failed. Please return to Yournal and try again."@,
{
    if code_found {
        "Authentication successful! You can close this window and return to Yournal."
    } else {
        "Authentication failed. Please return to Yournal and try again."
    }
}

/// The form fields of the authorization-code-for-token exchange. Both
/// credentials are required; the code's emptiness is deliberately not
/// checked. The redirect URI must match the one in the consent URL exactly.
pub fn token_request_form(client_id: &str, client_secret: &str, code: &str) -> (r: Result<
    Vec<(String, String)>,
    BackupError,
>)
    ensures
        (client_id@.len() == 0 || client_secret@.len() == 0) <==> r is Err,
        r is Err ==> r == Err::<Vec<(String, String)>, BackupError>(BackupError::Configuration),
        r matches Ok(form) ==> {
            &&& form@.len() == 5
            &&& form@[0].0@ == "client_id"@ && form@[0].1@ == client_id@
            &&& form@[1].0@ == "client_secret"@ && form@[1].1@ == client_secret@
            &&& form@[2].0@ == "code"@ && form@[2].1@ == code@
            &&& form@[3].0@ == "grant_type"@ && form@[3].1@ == "authorization_code"@
            &&& form@[4].0@ == "redirect_uri"@ && form@[4].1@ == "http://localhost:8484/callback"@
        },
{
    if client_id.is_empty() || client_secret.is_empty() {
        return Err(BackupError::Configuration);
    }
    let mut form: Vec<(String, String)> = Vec::new();
    form.push((String::from_str("client_id"), String::from_str(client_id)));
    form.push((String::from_str("client_secret"), String::from_str(client_secret)));
    form.push((String::from_str("code"), String::from_str(code)));
    form.push((String::from_str("grant_type"), String::from_str("authorization_code")));
    form.push((String::from_str("redirect_uri"), String::from_str(
        "http://localhost:8484/callback",
    )));
    Ok(form)
}

/// The query string of a request target: what stands between the first `?`
/// and the second one, or nothing when the target carries no `?`.
pub open spec fn query_of(target: Seq<char>) -> Seq<char> {
    let segs = split_chars(target, '?');
    if segs.len() >= 2 {
        segs[1]
    } else {
        Seq::empty()
    }
}

/// The text of a `key=value` parameter before its first `=`.
pub open spec fn param_key(p: Seq<char>) -> Seq<char> {
    split_chars(p, '=')[0]
}

/// The text of a `key=value` parameter between its first and second `=`,
/// or nothing when it carries no `=` at all.
pub open spec fn param_value(p: Seq<char>) -> Option<Seq<char>> {
    let kv = split_chars(p, '=');
    if kv.len() >= 2 {
        Some(kv[1])
    } else {
        None
    }
}

/// The authorization code carried by a parameter list: the value of the last
/// parameter whose key is `code`. A later `code` parameter without a value
/// erases an earlier one — the listener reads the parameters in order.
pub open spec fn code_of_params(params: Seq<Seq<char>>) -> Option<Seq<char>>
    decreases params.len(),
{
    if params.len() == 0 {
        None
    } else if param_key(params.last()) == "code"@ {
        param_value(params.last())
    } else {
        code_of_params(params.drop_last())
    }
}

/// The authorization code of a whole request target.
pub open spec fn extracted_code(target: Seq<char>) -> Option<Seq<char>> {
    code_of_params(split_chars(query_of(target), '&'))
}

/// Reads the single callback request's target and extracts the `code` query
/// parameter, by plain `?`, `&` and `=` splitting — the value is taken as it
/// stands, with no percent-decoding.
pub fn extract_code(target: &str) -> (r: Option<String>)
    ensures
        r matches Some(code) ==> extracted_code(target@) == Some(code@),
        r is None ==> extracted_code(target@) is None,
{
    let segs = split_str(target, '?');
    let empty = String::new();
    let params_text: &String = if segs.len() >= 2 {
        &segs[1]
    } else {
        &empty
    };
    proof {
        assert(params_text@ == query_of(target@));
    }
    let params = split_str(params_text.as_str(), '&');
    let ghost pv = params@.map_values(|p: String| p@);
    let code_key = String::from_str("code");
    let mut result: Option<String> = None;
    let mut i: usize = 0;
    proof {
        assert(pv.subrange(0, 0) =~= Seq::empty());
    }
    while i < params.len()
        invariant
            pv == params@.map_values(|p: String| p@),
            pv == split_chars(query_of(target@), '&'),
            i <= params.len(),
            code_key@ == "code"@,
            match result {
                Some(c) => code_of_params(pv.subrange(0, i as int)) == Some(c@),
                None => code_of_params(pv.subrange(0, i as int)) is None,
            },
        decreases params.len() - i,
    {
        let p = &params[i];
        proof {
            lemma_split_chars_nonempty(p@, '=');
        }
        let kv = split_str(p.as_str(), '=');
        if kv[0] == code_key {
            if kv.len() >= 2 {
                result = Some(kv[1].clone());
            } else {
                result = None;
            }
        }
        i += 1;
        proof {
            let prefix = pv.subrange(0, i as int);
            assert(prefix.drop_last() =~= pv.subrange(0, i as int - 1));
            assert(prefix.last() == pv[i as int - 1]);
        }
    }
    proof {
        assert(pv.subrange(0, params.len() as int) =~= pv);
    }
    result
}

/// The token reply's rule, taken on the already-extracted fields: an `error`
/// field wins over everything else and becomes a provider failure, whatever
/// the HTTP status was; otherwise the three token fields are adopted as they
/// are, absent ones included.
pub fn auth_state_from_fields(
    error: Option<String>,
    access_token: Option<String>,
    refresh_token: Option<String>,
    expires_in: Option<u64>,
) -> (r: Result<AuthState, BackupError>)
    ensures
        error matches Some(message) ==> r == Err::<AuthState, BackupError>(
            BackupError::Provider { message },
        ),
        error is None ==> r == Ok::<AuthState, BackupError>(
            (AuthState { access_token, refresh_token, expires_in }),
        ),
{
    match error {
        Some(message) => Err(BackupError::Provider { message }),
        None => Ok(AuthState { access_token, refresh_token, expires_in }),
    }
}

/// Interprets the token endpoint's reply body. The HTTP status plays no
/// part: a body that is not a JSON document is the parse failure; an
/// `error` field in the document wins and becomes the provider failure
/// carrying that field's rendering; otherwise the three token fields are
/// exactly the reply's named fields, absent ones included.
pub fn interpret_token_response(body: &str) -> (r: Result<AuthState, BackupError>)
    ensures
        !is_json_document(body@) ==> r == Err::<AuthState, BackupError>(
            BackupError::ResponseParse,
        ),
        is_json_document(body@) ==> (match json_text_field(body@, "error"@) {
            Some(payload) => {
                &&& r matches Err(e)
                &&& e matches BackupError::Provider { message }
                &&& message@ == payload
            },
            None => {
                &&& r matches Ok(a)
                &&& a.access_token.deep_view() == json_str_field(body@, "access_token"@)
                &&& a.refresh_token.deep_view() == json_str_field(body@, "refresh_token"@)
                &&& a.expires_in == json_u64_field(body@, "expires_in"@)
            },
        }),
        r matches Err(e) ==> (e is ResponseParse || e is Provider),
{
    if !json_document_check(body) {
        return Err(BackupError::ResponseParse);
    }
    let error = json_field_text(body, "error");
    let access_token = json_field_str(body, "access_token");
    let refresh_token = json_field_str(body, "refresh_token");
    let expires_in = json_field_u64(body, "expires_in");
    auth_state_from_fields(error, access_token, refresh_token, expires_in)
}

} // verus!
