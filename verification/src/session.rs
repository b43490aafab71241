//! The session issuer and verifier, over the two kinds of credential. A
//! deployment picks one strategy and uses it for issuing and verifying alike.

use vstd::prelude::*;
use crate::cookie::{
    cookie_signed,
    cookie_subject,
    issue_cookie,
    verify_cookie,
    SessionCookie,
    COOKIE_KEY_MIN_LEN,
    SESSION_COOKIE_NAME,
};
use crate::error::AuthError;
use crate::identity::{id_text, AdministratorId};
use crate::text::{has_prefix, strip_prefix};
use crate::token::{
    expiry_fits,
    issue_at,
    issued_token,
    token_subject,
    verify_at,
    SESSION_LIFETIME_SECS,
};

verus! {

/// What precedes the token in the `Authorization` header.
pub const BEARER_PREFIX: &'static str = "Bearer ";

/// Which kind of session credential a deployment uses.
#[derive(Clone, Copy, Debug, PartialEq, Eq, Structural)]
pub enum SessionStrategy {
    /// A signed token, returned in the response body and sent back in the
    /// `Authorization` header.
    BearerToken,
    /// A signed cookie.
    SignedCookie,
}

/// A session credential as it is handed to the client.
#[derive(Debug, PartialEq, Eq)]
pub enum SessionCredential {
    Token(String),
    Cookie(SessionCookie),
}

/// A session credential as the contracts see it: the token, or the value of
/// the session cookie.
pub enum CredentialView {
    Token(Seq<char>),
    Cookie(Seq<char>),
}

impl View for SessionCredential {
    type V = CredentialView;

    open spec fn view(&self) -> CredentialView {
        match self {
            SessionCredential::Token(t) => CredentialView::Token(t@),
            SessionCredential::Cookie(c) => CredentialView::Cookie(c.value@),
        }
    }
}

/// Whether a session can be issued at `now` under `secret`: a token where
/// its expiry can be written down, a cookie where the key has 64 bytes.
pub open spec fn can_issue(strategy: SessionStrategy, now: int, secret: Seq<u8>) -> bool {
    match strategy {
        SessionStrategy::BearerToken => expiry_fits(now),
        SessionStrategy::SignedCookie => secret.len() >= COOKIE_KEY_MIN_LEN,
    }
}

/// What issuing a session to `id` at `now` under `secret` yields: under the
/// token strategy the token of 24 hours, under the cookie strategy the
/// signed text form of the identifier, which needs a key of 64 bytes.
pub open spec fn issued_session(
    strategy: SessionStrategy,
    id: Seq<u8>,
    now: int,
    secret: Seq<u8>,
) -> Result<CredentialView, AuthError> {
    match strategy {
        SessionStrategy::BearerToken => match issued_token(id, now, secret) {
            Ok(t) => Ok(CredentialView::Token(t)),
            Err(e) => Err(e),
        },
        SessionStrategy::SignedCookie => match cookie_signed(
            SESSION_COOKIE_NAME@,
            id_text(id),
            secret,
        ) {
            Some(v) => Ok(CredentialView::Cookie(v)),
            None => Err(AuthError::SigningFailed),
        },
    }
}

/// The token in the value of an `Authorization` header: what follows
/// `Bearer `, where the header is there and begins with it.
pub open spec fn bearer_of(authorization: Option<Seq<char>>) -> Option<Seq<char>> {
    match authorization {
        Some(header) => if has_prefix(header, BEARER_PREFIX@) {
            Some(header.skip(BEARER_PREFIX@.len() as int))
        } else {
            None
        },
        None => None,
    }
}

/// Whom a request stands for at `now`: under the token strategy the subject
/// of the bearer token in its `Authorization` header, under the cookie
/// strategy that of its session cookie.
pub open spec fn session_subject(
    strategy: SessionStrategy,
    authorization: Option<Seq<char>>,
    cookie: Option<Seq<char>>,
    now: int,
    secret: Seq<u8>,
) -> Option<Seq<u8>> {
    match strategy {
        SessionStrategy::BearerToken => match bearer_of(authorization) {
            Some(token) => token_subject(token, now, secret),
            None => None,
        },
        SessionStrategy::SignedCookie => cookie_subject(cookie, secret),
    }
}

/// The `Authorization` header by which a client presents a credential.
pub open spec fn presented_header(credential: CredentialView) -> Option<Seq<char>> {
    match credential {
        CredentialView::Token(t) => Some(BEARER_PREFIX@ + t),
        CredentialView::Cookie(_) => None,
    }
}

/// The session cookie by which a client presents a credential.
pub open spec fn presented_cookie(credential: CredentialView) -> Option<Seq<char>> {
    match credential {
        CredentialView::Token(_) => None,
        CredentialView::Cookie(v) => Some(v),
    }
}

/// Until when a credential issued at `now` is accepted: a token for 24
/// hours, a cookie for as long as the client keeps it.
pub open spec fn accepted_at(strategy: SessionStrategy, issued: int, at: int) -> bool {
    match strategy {
        SessionStrategy::BearerToken => at < issued + SESSION_LIFETIME_SECS,
        SessionStrategy::SignedCookie => true,
    }
}

/// The token in the value of an `Authorization` header.
pub fn bearer_token<'a>(authorization: Option<&'a str>) -> (token: Option<&'a str>)
    ensures
        match token {
            Some(t) => authorization matches Some(h) && bearer_of(Some(h@)) == Some(t@),
            None => authorization matches Some(h) ==> bearer_of(Some(h@)) is None,
        },
{
    match authorization {
        Some(header) => {
            let rest = strip_prefix(header, BEARER_PREFIX);
            proof {
                if let Some(r) = rest {
                    assert(header@.skip(BEARER_PREFIX@.len() as int) =~= r@);
                }
            }
            rest
        },
        None => None,
    }
}

/// The value of the `Authorization` header by which a client presents
/// `token`.
pub fn bearer_header(token: &str) -> (header: String)
    ensures
        header@ == BEARER_PREFIX@ + token@,
        bearer_of(Some(header@)) == Some(token@),
{
    let mut header = String::from_str(BEARER_PREFIX);
    header.append(token);
    proof {
        assert(header@.subrange(0, BEARER_PREFIX@.len() as int) =~= BEARER_PREFIX@);
        assert(header@.skip(BEARER_PREFIX@.len() as int) =~= token@);
    }
    header
}

/// Mints the session credential of the strategy for `id` at `now`, signed
/// under `secret`. It fails, with `SigningFailed`, exactly where the expiry
/// of a token cannot be written down or the key of a cookie has fewer than
/// 64 bytes, and on no other input. The credential is accepted by
/// `verify_session`, under the same strategy and secret, when the client
/// presents it: a token until it expires, a cookie always.
pub fn issue_session(strategy: SessionStrategy, id: &AdministratorId, now: i64, secret: &[u8]) -> (
    credential: Result<SessionCredential, AuthError>
)
    ensures
        credential is Ok <==> can_issue(strategy, now as int, secret@),
        match credential {
            Ok(c) => issued_session(strategy, id.bytes@, now as int, secret@) == Ok::<
                CredentialView,
                AuthError,
            >(c@),
            Err(e) => issued_session(strategy, id.bytes@, now as int, secret@) == Err::<
                CredentialView,
                AuthError,
            >(e),
        },
        credential matches Ok(SessionCredential::Cookie(c)) ==> c.has_session_attributes()
            && c.max_age is None,
        credential matches Ok(c) ==> forall|at: int|
            #[trigger] session_subject(
                strategy,
                presented_header(c@),
                presented_cookie(c@),
                at,
                secret@,
            ) == if accepted_at(strategy, now as int, at) {
                Some(id.bytes@)
            } else {
                None
            },
{
    match strategy {
        SessionStrategy::BearerToken => match issue_at(id, now, secret) {
            Ok(token) => {
                proof {
                    let header = BEARER_PREFIX@ + token@;
                    assert(header.subrange(0, BEARER_PREFIX@.len() as int) =~= BEARER_PREFIX@);
                    assert(header.skip(BEARER_PREFIX@.len() as int) =~= token@);
                    assert forall|at: int|
                        #[trigger] session_subject(
                            strategy,
                            Some(header),
                            None,
                            at,
                            secret@,
                        ) == token_subject(token@, at, secret@) by {}
                }
                Ok(SessionCredential::Token(token))
            },
            Err(e) => Err(e),
        },
        SessionStrategy::SignedCookie => match issue_cookie(id, secret) {
            Ok(cookie) => Ok(SessionCredential::Cookie(cookie)),
            Err(e) => Err(e),
        },
    }
}

/// Resolves what a request presents to the administrator it stands for at
/// `now`. The header is the value of `Authorization`, the cookie that of the
/// session cookie, each if the request has one. Every refusal is
/// `Unauthenticated`.
pub fn verify_session(
    strategy: SessionStrategy,
    authorization: Option<&str>,
    cookie: Option<&str>,
    now: i64,
    secret: &[u8],
) -> (subject: Result<AdministratorId, AuthError>)
    ensures
        ({
            let header = match authorization {
                Some(h) => Some(h@),
                None => None,
            };
            let jar = match cookie {
                Some(c) => Some(c@),
                None => None,
            };
            match subject {
                Ok(id) => session_subject(strategy, header, jar, now as int, secret@) == Some(
                    id.bytes@,
                ),
                Err(e) => e == AuthError::Unauthenticated && session_subject(
                    strategy,
                    header,
                    jar,
                    now as int,
                    secret@,
                ) is None,
            }
        }),
{
    match strategy {
        SessionStrategy::BearerToken => match bearer_token(authorization) {
            Some(token) => verify_at(token, now, secret),
            None => Err(AuthError::Unauthenticated),
        },
        SessionStrategy::SignedCookie => verify_cookie(cookie, secret),
    }
}

} // verus!
