//! Signed-cookie sessions: a cookie whose value is the administrator's
//! identifier, signed under a key that only the server holds.

use vstd::prelude::*;
use crate::error::AuthError;
use crate::identity::{id_of_text, id_text, is_id_text, AdministratorId};

verus! {

/// Name of the cookie that carries the session.
pub const SESSION_COOKIE_NAME: &'static str = "admin_session";

/// Path that the session cookie is scoped to.
pub const SESSION_COOKIE_PATH: &'static str = "/";

/// Least number of key bytes that signing accepts.
pub const COOKIE_KEY_MIN_LEN: usize = 64;

/// Number of characters that signing puts in front of a value.
pub const SIGNATURE_LEN: usize = 44;

/// When a browser sends a cookie along with requests from other sites.
#[derive(Clone, Copy, Debug, PartialEq, Eq, Structural)]
pub enum SameSite {
    Strict,
    Lax,
    Unrestricted,
}

/// A cookie as the server hands it to the client.
#[derive(Clone, Debug, PartialEq, Eq)]
pub struct SessionCookie {
    pub name: String,
    pub value: String,
    pub path: String,
    /// Hidden from scripts.
    pub http_only: bool,
    /// Sent over encrypted connections only.
    pub secure: bool,
    pub same_site: SameSite,
    /// Seconds the client keeps the cookie; `None` keeps it for the browser
    /// session, `Some(0)` removes it.
    pub max_age: Option<u64>,
}

impl SessionCookie {
    /// Whether the cookie has the fixed attributes of a session cookie:
    /// its name, the path `/`, `HttpOnly`, `Secure` and `SameSite=Lax`.
    pub open spec fn has_session_attributes(self) -> bool {
        &&& self.name@ == SESSION_COOKIE_NAME@
        &&& self.path@ == SESSION_COOKIE_PATH@
        &&& self.http_only
        &&& self.secure
        &&& self.same_site == SameSite::Lax
    }

    /// Whether the cookie tells the client to drop its session cookie.
    pub open spec fn is_removal(self) -> bool {
        &&& self.has_session_attributes()
        &&& self.value@.len() == 0
        &&& self.max_age == Some(0u64)
    }
}

/// The value that signing `value` for the cookie `name` under `key` yields,
/// or `None` where the key is too short to sign with.
pub uninterp spec fn cookie_signed(name: Seq<char>, value: Seq<char>, key: Seq<u8>) -> Option<
    Seq<char>,
>;

/// The plain value inside the signed value `signed` of the cookie `name`,
/// where its signature holds under `key`; `None` otherwise.
pub uninterp spec fn cookie_verified(name: Seq<char>, signed: Seq<char>, key: Seq<u8>) -> Option<
    Seq<char>,
>;

/// Makes a `cookie::Key` of the bytes, which `Key::try_from` refuses below 64
/// of them, and adds the cookie to a signed child jar (`SignedJar::add`),
/// which always signs. The signed value depends on the arguments alone: it
/// is the plain value behind the 44 characters of its digest. The jar's
/// documentation gives that verification always succeeds on a cookie signed
/// under the same key.
#[verifier::external_body]
fn sign_cookie_value(name: &str, value: &str, key: &[u8]) -> (signed: Option<String>)
    ensures
        signed is Some <==> key@.len() >= COOKIE_KEY_MIN_LEN,
        match signed {
            Some(s) => cookie_signed(name@, value@, key@) == Some(s@) && cookie_verified(
                name@,
                s@,
                key@,
            ) == Some(value@) && s@.len() == value@.len() + SIGNATURE_LEN,
            None => cookie_signed(name@, value@, key@) is None,
        },
{
    let key = cookie::Key::try_from(key).ok()?;
    let mut jar = cookie::CookieJar::new();
    jar.signed_mut(&key).add(cookie::Cookie::new(name.to_owned(), value.to_owned()));
    jar.get(name).map(|c| c.value().to_owned())
}

/// Makes a `cookie::Key` of the bytes and has a signed child jar check the
/// presented value (`SignedJar::verify`). `None` stands for a key that is too
/// short and for a value whose signature does not hold.
#[verifier::external_body]
fn verify_cookie_value(name: &str, signed: &str, key: &[u8]) -> (plain: Option<String>)
    ensures
        match plain {
            Some(p) => cookie_verified(name@, signed@, key@) == Some(p@),
            None => cookie_verified(name@, signed@, key@) is None,
        },
{
    let key = cookie::Key::try_from(key).ok()?;
    let presented = cookie::Cookie::new(name.to_owned(), signed.to_owned());
    cookie::CookieJar::new().signed(&key).verify(presented).map(|c| c.value().to_owned())
}

/// A cookie with the fixed attributes of a session cookie around `value`.
fn with_session_attributes(value: String, max_age: Option<u64>) -> (cookie: SessionCookie)
    ensures
        cookie.has_session_attributes(),
        cookie.value@ == value@,
        cookie.max_age == max_age,
{
    SessionCookie {
        name: String::from_str(SESSION_COOKIE_NAME),
        value,
        path: String::from_str(SESSION_COOKIE_PATH),
        http_only: true,
        secure: true,
        same_site: SameSite::Lax,
        max_age,
    }
}

/// Whom the plain value of a verified cookie stands for: the identifier it
/// is the text form of, if any.
pub open spec fn plain_subject(plain: Option<Seq<char>>) -> Option<Seq<u8>> {
    match plain {
        Some(text) => if is_id_text(text) {
            Some(id_of_text(text))
        } else {
            None
        },
        None => None,
    }
}

/// Whom the presented value of the session cookie stands for under `key`.
/// An absent cookie, an empty value, a value whose signature does not hold
/// and a plain value that is no identifier all stand for nobody.
pub open spec fn cookie_subject(presented: Option<Seq<char>>, key: Seq<u8>) -> Option<Seq<u8>> {
    match presented {
        Some(value) => if value.len() == 0 {
            None
        } else {
            plain_subject(cookie_verified(SESSION_COOKIE_NAME@, value, key))
        },
        None => None,
    }
}

/// Resolves the plain value of a verified cookie to the administrator it
/// stands for. A value that was not verified and one that is no identifier
/// are refused alike.
pub fn subject_of_plain(plain: Option<String>) -> (subject: Result<AdministratorId, AuthError>)
    ensures
        match subject {
            Ok(id) => plain matches Some(p) && plain_subject(Some(p@)) == Some(id.bytes@),
            Err(e) => e == AuthError::Unauthenticated && (plain matches Some(p) ==> plain_subject(
                Some(p@),
            ) is None),
        },
{
    match plain {
        Some(text) => match AdministratorId::parse(text.as_str()) {
            Some(id) => Ok(id),
            None => Err(AuthError::Unauthenticated),
        },
        None => Err(AuthError::Unauthenticated),
    }
}

/// Mints the session cookie for `id`, signed under `key`. It fails, with
/// `SigningFailed`, exactly where the key has fewer than 64 bytes. The cookie
/// is accepted by `verify_cookie` under the same key.
pub fn issue_cookie(id: &AdministratorId, key: &[u8]) -> (cookie: Result<SessionCookie, AuthError>)
    ensures
        cookie is Ok <==> key@.len() >= COOKIE_KEY_MIN_LEN,
        match cookie {
            Ok(c) => c.has_session_attributes() && c.max_age is None && cookie_signed(
                SESSION_COOKIE_NAME@,
                id_text(id.bytes@),
                key@,
            ) == Some(c.value@) && cookie_subject(Some(c.value@), key@) == Some(id.bytes@),
            Err(e) => e == AuthError::SigningFailed && cookie_signed(
                SESSION_COOKIE_NAME@,
                id_text(id.bytes@),
                key@,
            ) is None,
        },
{
    let text = id.to_text();
    match sign_cookie_value(SESSION_COOKIE_NAME, text.as_str(), key) {
        Some(value) => {
            proof {
                crate::identity::lemma_text_round_trip(id.bytes@);
            }
            Ok(with_session_attributes(value, None))
        },
        None => Err(AuthError::SigningFailed),
    }
}

/// Checks the presented value of the session cookie under `key` and resolves
/// it to the administrator it was issued to. Every refusal is
/// `Unauthenticated`: a malformed cookie is not told apart from none.
pub fn verify_cookie(presented: Option<&str>, key: &[u8]) -> (subject: Result<
    AdministratorId,
    AuthError,
>)
    ensures
        match subject {
            Ok(id) => presented matches Some(v) && cookie_subject(Some(v@), key@) == Some(
                id.bytes@,
            ),
            Err(e) => e == AuthError::Unauthenticated && (presented matches Some(v)
                ==> cookie_subject(Some(v@), key@) is None),
        },
{
    match presented {
        Some(value) => {
            if value.is_empty() {
                return Err(AuthError::Unauthenticated);
            }
            subject_of_plain(verify_cookie_value(SESSION_COOKIE_NAME, value, key))
        },
        None => Err(AuthError::Unauthenticated),
    }
}

/// The cookie that tells the client to drop its session cookie.
pub fn removal_cookie() -> (cookie: SessionCookie)
    ensures
        cookie.is_removal(),
{
    with_session_attributes(String::new(), Some(0))
}

/// Once the session cookie is removed, whether the client then presents none
/// or the emptied one, nobody is authenticated, under any key.
pub proof fn lemma_removed_cookie_is_refused(removal: SessionCookie, key: Seq<u8>)
    requires
        removal.is_removal(),
    ensures
        cookie_subject(None, key) is None,
        cookie_subject(Some(removal.value@), key) is None,
{
}

} // verus!
