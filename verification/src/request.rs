//! The login request: which bodies are accepted and what they hold.
//!
//! A form is read here. A JSON body is read by the caller, whose reader makes
//! a `LoginRequest` of it; this module decides which of the two readings
//! counts and what a failed reading means.

use vstd::prelude::*;
use crate::error::AuthError;
use crate::text::{contains, has_substring, same_text};

verus! {

/// Content type of a JSON body.
pub const JSON_TYPE: &'static str = "application/json";

/// Content type of a URL-encoded form.
pub const FORM_TYPE: &'static str = "application/x-www-form-urlencoded";

/// Content type of a multipart form.
pub const MULTIPART_TYPE: &'static str = "multipart/form-data";

/// Media type by which a client asks for a page.
pub const HTML_TYPE: &'static str = "text/html";

/// Name of the field that holds the username.
pub const USERNAME_FIELD: &'static str = "username";

/// Name of the field that holds the password.
pub const PASSWORD_FIELD: &'static str = "password";

/// The credentials that a login request presents.
#[derive(Debug, PartialEq, Eq)]
pub struct LoginRequest {
    pub username: String,
    pub password: String,
}

/// A login request as the contracts see it.
pub struct Credentials {
    pub username: Seq<char>,
    pub password: Seq<char>,
}

impl View for LoginRequest {
    type V = Credentials;

    open spec fn view(&self) -> Credentials {
        Credentials { username: self.username@, password: self.password@ }
    }
}

/// How the body of a request is to be read.
#[derive(Clone, Copy, Debug, PartialEq, Eq, Structural)]
pub enum BodyFormat {
    Json,
    Form,
    Unsupported,
}

/// Whether the content type announces a form.
pub open spec fn is_form_type(content_type: Seq<char>) -> bool {
    has_substring(content_type, FORM_TYPE@) || has_substring(content_type, MULTIPART_TYPE@)
}

/// How a body of the given content type is to be read: as JSON where the
/// type names JSON, else as a form where it names one.
pub open spec fn format_of(content_type: Seq<char>) -> BodyFormat {
    if has_substring(content_type, JSON_TYPE@) {
        BodyFormat::Json
    } else if is_form_type(content_type) {
        BodyFormat::Form
    } else {
        BodyFormat::Unsupported
    }
}

/// Whether the client is a browser that expects a page: it sent a form or
/// accepts HTML.
pub open spec fn expects_page(content_type: Seq<char>, accept: Seq<char>) -> bool {
    is_form_type(content_type) || has_substring(accept, HTML_TYPE@)
}

/// The name and value pairs of the URL-encoded form that `body` holds, in
/// their order; `None` where `body` cannot be read as a form.
pub uninterp spec fn form_pairs(body: Seq<u8>) -> Option<Seq<(Seq<char>, Seq<char>)>>;

/// The pairs as the contracts see them.
pub open spec fn pairs_view(pairs: Seq<(String, String)>) -> Seq<(Seq<char>, Seq<char>)> {
    Seq::new(pairs.len(), |i: int| (pairs[i].0@, pairs[i].1@))
}

/// Calls `serde_urlencoded::from_bytes` for the list of pairs. The result
/// depends on the body alone.
#[verifier::external_body]
fn read_form_pairs(body: &[u8]) -> (pairs: Option<Vec<(String, String)>>)
    ensures
        match pairs {
            Some(p) => form_pairs(body@) == Some(pairs_view(p@)),
            None => form_pairs(body@) is None,
        },
{
    serde_urlencoded::from_bytes::<Vec<(String, String)>>(body).ok()
}

/// How often a pair with the name `key` occurs among `pairs`.
pub open spec fn occurrences(pairs: Seq<(Seq<char>, Seq<char>)>, key: Seq<char>) -> nat
    decreases pairs.len(),
{
    if pairs.len() == 0 {
        0
    } else {
        occurrences(pairs.drop_last(), key) + if pairs.last().0 == key {
            1nat
        } else {
            0nat
        }
    }
}

/// The value of the last pair with the name `key` among `pairs`.
pub open spec fn last_value(pairs: Seq<(Seq<char>, Seq<char>)>, key: Seq<char>) -> Seq<char>
    decreases pairs.len(),
{
    if pairs.len() == 0 {
        Seq::empty()
    } else if pairs.last().0 == key {
        pairs.last().1
    } else {
        last_value(pairs.drop_last(), key)
    }
}

/// The value of the field `key` of a form: that of the one pair with this
/// name. A field that is missing or given twice has no value.
pub open spec fn field_value(pairs: Seq<(Seq<char>, Seq<char>)>, key: Seq<char>) -> Option<
    Seq<char>,
> {
    if occurrences(pairs, key) == 1 {
        Some(last_value(pairs, key))
    } else {
        None
    }
}

/// The login request that a form holds: its one username and its one
/// password. Other fields are passed over.
pub open spec fn credentials_of_form(pairs: Option<Seq<(Seq<char>, Seq<char>)>>) -> Result<
    Credentials,
    AuthError,
> {
    match pairs {
        Some(p) => match (field_value(p, USERNAME_FIELD@), field_value(p, PASSWORD_FIELD@)) {
            (Some(username), Some(password)) => Ok(
                Credentials { username: username, password: password },
            ),
            _ => Err(AuthError::InvalidForm),
        },
        None => Err(AuthError::InvalidForm),
    }
}

/// The login request that a JSON body holds, given what the JSON reader
/// made of it.
pub open spec fn credentials_of_json(read: Option<Credentials>) -> Result<Credentials, AuthError> {
    match read {
        Some(c) => Ok(c),
        None => Err(AuthError::InvalidJson),
    }
}

/// What the JSON reader made of a body, as the contracts see it.
pub open spec fn read_view(json: Option<LoginRequest>) -> Option<Credentials> {
    match json {
        Some(r) => Some(r@),
        None => None,
    }
}

/// The login request that a body of the given content type holds, where
/// `json` is what the JSON reader made of the body.
pub open spec fn parsed_login(
    content_type: Seq<char>,
    body: Seq<u8>,
    json: Option<Credentials>,
) -> Result<Credentials, AuthError> {
    match format_of(content_type) {
        BodyFormat::Json => credentials_of_json(json),
        BodyFormat::Form => credentials_of_form(form_pairs(body)),
        BodyFormat::Unsupported => Err(AuthError::UnsupportedMediaType),
    }
}

/// Whether the content type announces a form.
fn announces_form(content_type: &str) -> (form: bool)
    ensures
        form == is_form_type(content_type@),
{
    contains(content_type, FORM_TYPE) || contains(content_type, MULTIPART_TYPE)
}

/// How a body of the given content type is to be read.
pub fn body_format(content_type: &str) -> (format: BodyFormat)
    ensures
        format == format_of(content_type@),
{
    if contains(content_type, JSON_TYPE) {
        BodyFormat::Json
    } else if announces_form(content_type) {
        BodyFormat::Form
    } else {
        BodyFormat::Unsupported
    }
}

/// Whether the client is a browser that expects a page rather than JSON.
pub fn wants_page(content_type: &str, accept: &str) -> (page: bool)
    ensures
        page == expects_page(content_type@, accept@),
{
    announces_form(content_type) || contains(accept, HTML_TYPE)
}

/// The value of the field `key` of a form.
pub fn form_field(pairs: &Vec<(String, String)>, key: &str) -> (value: Option<String>)
    ensures
        match value {
            Some(v) => field_value(pairs_view(pairs@), key@) == Some(v@),
            None => field_value(pairs_view(pairs@), key@) is None,
        },
{
    let ghost all = pairs_view(pairs@);
    let mut found: Option<String> = None;
    let mut twice = false;
    let mut i: usize = 0;
    assert(all.take(0) =~= Seq::empty());
    while i < pairs.len()
        invariant
            i <= pairs@.len(),
            all == pairs_view(pairs@),
            twice <==> occurrences(all.take(i as int), key@) >= 2,
            !twice ==> match found {
                Some(v) => occurrences(all.take(i as int), key@) == 1 && v@ == last_value(
                    all.take(i as int),
                    key@,
                ),
                None => occurrences(all.take(i as int), key@) == 0,
            },
        decreases pairs@.len() - i,
    {
        proof {
            let next = all.take(i + 1);
            assert(next.drop_last() =~= all.take(i as int));
            assert(next.last() == all[i as int]);
        }
        if same_text(pairs[i].0.as_str(), key) {
            if found.is_some() {
                twice = true;
            }
            found = Some(pairs[i].1.clone());
        }
        i += 1;
    }
    assert(all.take(i as int) =~= all);
    if twice {
        None
    } else {
        found
    }
}

/// The login request that a form holds, or `InvalidForm`.
pub fn login_from_form(pairs: Option<Vec<(String, String)>>) -> (request: Result<
    LoginRequest,
    AuthError,
>)
    ensures
        ({
            let seen = match pairs {
                Some(p) => Some(pairs_view(p@)),
                None => None,
            };
            match request {
                Ok(r) => credentials_of_form(seen) == Ok::<Credentials, AuthError>(r@),
                Err(e) => credentials_of_form(seen) == Err::<Credentials, AuthError>(e),
            }
        }),
{
    match pairs {
        Some(p) => {
            let username = form_field(&p, USERNAME_FIELD);
            let password = form_field(&p, PASSWORD_FIELD);
            match (username, password) {
                (Some(username), Some(password)) => Ok(LoginRequest { username, password }),
                _ => Err(AuthError::InvalidForm),
            }
        },
        None => Err(AuthError::InvalidForm),
    }
}

/// The login request that a JSON body holds, given what the JSON reader
/// made of it, or `InvalidJson` where it made nothing.
pub fn login_from_json(json: Option<LoginRequest>) -> (request: Result<LoginRequest, AuthError>)
    ensures
        match request {
            Ok(r) => credentials_of_json(read_view(json)) == Ok::<Credentials, AuthError>(r@),
            Err(e) => credentials_of_json(read_view(json)) == Err::<Credentials, AuthError>(e),
        },
        request matches Ok(r) ==> json == Some(r),
{
    match json {
        Some(r) => Ok(r),
        None => Err(AuthError::InvalidJson),
    }
}

/// Reads the login request out of a body of the given content type. A body
/// announced as JSON counts as what the caller's JSON reader made of it,
/// `json`, and is refused with `InvalidJson` where the reader made nothing;
/// `json` is not looked at for any other content type. A form must hold each
/// of the fields `username` and `password` once and is refused with
/// `InvalidForm` else. Any other content type is refused with
/// `UnsupportedMediaType`.
pub fn parse_login_request(content_type: &str, body: &[u8], json: Option<LoginRequest>) -> (request:
    Result<LoginRequest, AuthError>)
    ensures
        match request {
            Ok(r) => parsed_login(content_type@, body@, read_view(json)) == Ok::<
                Credentials,
                AuthError,
            >(r@),
            Err(e) => parsed_login(content_type@, body@, read_view(json)) == Err::<
                Credentials,
                AuthError,
            >(e),
        },
{
    match body_format(content_type) {
        BodyFormat::Json => login_from_json(json),
        BodyFormat::Form => login_from_form(read_form_pairs(body)),
        BodyFormat::Unsupported => Err(AuthError::UnsupportedMediaType),
    }
}

} // verus!
