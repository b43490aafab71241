//! The auth gateway: what the login, logout and identity endpoints answer.
//!
//! The caller reads the request and asks the store; the gateway decides
//! between the two. Login runs as `parse_login_request`, a lookup by
//! username, then `login`. The identity check runs as `verify_session`, a
//! lookup by identifier, then `whoami`.

use vstd::prelude::*;
use crate::bootstrap::Identity;
use crate::cookie::{removal_cookie, SessionCookie};
use crate::error::AuthError;
use crate::hasher::{password_matches, verify_password, ARTIFACT_LEN};
use crate::identity::AdministratorId;
use crate::request::{wants_page, Credentials, LoginRequest};
use crate::session::{
    can_issue,
    issue_session,
    issued_session,
    session_subject,
    CredentialView,
    SessionCredential,
    SessionStrategy,
};
use crate::store::{Administrator, StoreError, UserRow, UserTable};

verus! {

/// Where a browser goes after a login that succeeded.
pub const DASHBOARD_LOCATION: &'static str = "/admin/dashboard";

/// The page that stores a token in the browser, up to the token.
pub const TOKEN_PAGE_HEAD: &'static str =
    "<!DOCTYPE html><html lang=\"en\"><head><meta charset=\"utf-8\"><meta http-equiv=\"refresh\" content=\"0; url=/admin/dashboard\"></head><body><script>localStorage.setItem(\"admin_token\",\"";

/// The page that stores a token in the browser, from the token on.
pub const TOKEN_PAGE_TAIL: &'static str =
    "\");location.replace(\"/admin/dashboard\");</script></body></html>";

/// The JSON body that answers a successful login with a token.
#[derive(Debug, PartialEq, Eq)]
pub struct LoginResponse {
    pub token: String,
}

/// What the login endpoint answers.
#[derive(Debug, PartialEq, Eq)]
pub enum LoginReply {
    /// 200 with the token in a JSON body.
    Token(LoginResponse),
    /// 200 with a page that stores the token and goes on to the dashboard.
    TokenPage(String),
    /// 200 that sets the session cookie.
    Cookie(SessionCookie),
    /// 303 to the dashboard that sets the session cookie.
    CookieRedirect(SessionCookie),
    /// The status and message of the error, for every kind of client.
    Failure(AuthError),
}

/// What the logout endpoint answers: always 200, with the cookie that
/// removes the session where the deployment uses cookies.
#[derive(Debug, PartialEq, Eq)]
pub struct LogoutReply {
    pub clear: Option<SessionCookie>,
}

/// A login reply as the contracts see it.
pub enum ReplyView {
    Token(Seq<char>),
    TokenPage(Seq<char>),
    Cookie(Seq<char>),
    CookieRedirect(Seq<char>),
    Failure(AuthError),
}

impl View for LoginReply {
    type V = ReplyView;

    open spec fn view(&self) -> ReplyView {
        match self {
            LoginReply::Token(r) => ReplyView::Token(r.token@),
            LoginReply::TokenPage(p) => ReplyView::TokenPage(p@),
            LoginReply::Cookie(c) => ReplyView::Cookie(c.value@),
            LoginReply::CookieRedirect(c) => ReplyView::CookieRedirect(c.value@),
            LoginReply::Failure(e) => ReplyView::Failure(*e),
        }
    }
}

impl ReplyView {
    /// The HTTP status of the reply.
    pub open spec fn status(self) -> u16 {
        match self {
            ReplyView::Token(_) => 200,
            ReplyView::TokenPage(_) => 200,
            ReplyView::Cookie(_) => 200,
            ReplyView::CookieRedirect(_) => 303,
            ReplyView::Failure(e) => e.spec_status(),
        }
    }
}

impl LoginReply {
    /// The HTTP status of the reply: 200 where a session was granted to a
    /// script or stored by a page, 303 for the redirect that sets the cookie,
    /// else the status of the error.
    pub fn status_code(&self) -> (status: u16)
        ensures
            status == self@.status(),
    {
        match self {
            LoginReply::Token(_) => 200,
            LoginReply::TokenPage(_) => 200,
            LoginReply::Cookie(_) => 200,
            LoginReply::CookieRedirect(_) => 303,
            LoginReply::Failure(e) => e.status_code(),
        }
    }
}

/// Whom the credentials belong to, given the store's answer to the lookup
/// of the username: the administrator found, where the password checks
/// against the stored hash. No user and a wrong password are one and the
/// same refusal.
pub open spec fn authenticated(password: Seq<char>, found: Result<Option<UserRow>, StoreError>)
    -> Result<Seq<u8>, AuthError> {
    match found {
        Err(_) => Err(AuthError::StoreUnavailable),
        Ok(None) => Err(AuthError::InvalidCredentials),
        Ok(Some(row)) => if password_matches(password, row.password_hash) {
            Ok(row.id)
        } else {
            Err(AuthError::InvalidCredentials)
        },
    }
}

/// The store's answer to a lookup as the contracts see it.
pub open spec fn lookup_view(found: Result<Option<Administrator>, StoreError>) -> Result<
    Option<UserRow>,
    StoreError,
> {
    match found {
        Ok(Some(a)) => Ok(Some(a@)),
        Ok(None) => Ok(None),
        Err(e) => Err(e),
    }
}

/// The page that stores `token` in the browser and goes on to the dashboard.
pub open spec fn token_page(token: Seq<char>) -> Seq<char> {
    TOKEN_PAGE_HEAD@ + token + TOKEN_PAGE_TAIL@
}

/// What the login endpoint answers to the outcome of a login, for a browser
/// (`page`) or a script. The kind of client shapes a granted session only: a
/// failure is shown to both as the error it is, so refused credentials are
/// status 401 for a form as for JSON.
pub open spec fn reply_for(page: bool, outcome: Result<CredentialView, AuthError>) -> ReplyView {
    match outcome {
        Ok(CredentialView::Token(t)) => if page {
            ReplyView::TokenPage(token_page(t))
        } else {
            ReplyView::Token(t)
        },
        Ok(CredentialView::Cookie(v)) => if page {
            ReplyView::CookieRedirect(v)
        } else {
            ReplyView::Cookie(v)
        },
        Err(e) => ReplyView::Failure(e),
    }
}

/// The session that a login is granted: none where the credentials were
/// refused, else the one issued to the administrator they belong to.
pub open spec fn granted(
    strategy: SessionStrategy,
    subject: Result<Seq<u8>, AuthError>,
    now: int,
    secret: Seq<u8>,
) -> Result<CredentialView, AuthError> {
    match subject {
        Ok(id) => issued_session(strategy, id, now, secret),
        Err(e) => Err(e),
    }
}

/// The outcome of a login as the contracts see it.
pub open spec fn outcome_view(outcome: Result<SessionCredential, AuthError>) -> Result<
    CredentialView,
    AuthError,
> {
    match outcome {
        Ok(c) => Ok(c@),
        Err(e) => Err(e),
    }
}

/// Decides whom the credentials of a login request belong to, given the
/// store's answer to the lookup of its username.
pub fn authenticate(request: &LoginRequest, found: &Result<Option<Administrator>, StoreError>) -> (
    subject: Result<AdministratorId, AuthError>
)
    ensures
        match subject {
            Ok(id) => authenticated(request.password@, lookup_view(*found)) == Ok::<
                Seq<u8>,
                AuthError,
            >(id.bytes@),
            Err(e) => authenticated(request.password@, lookup_view(*found)) == Err::<
                Seq<u8>,
                AuthError,
            >(e),
        },
{
    match found {
        Err(_) => Err(AuthError::StoreUnavailable),
        Ok(None) => Err(AuthError::InvalidCredentials),
        Ok(Some(user)) => {
            if verify_password(request.password.as_str(), user.password_hash.as_str()) {
                Ok(user.id)
            } else {
                Err(AuthError::InvalidCredentials)
            }
        },
    }
}

/// The page that stores `token` in the browser and goes on to the dashboard.
pub fn render_token_page(token: &str) -> (page: String)
    ensures
        page@ == token_page(token@),
{
    let mut page = String::from_str(TOKEN_PAGE_HEAD);
    page.append(token);
    page.append(TOKEN_PAGE_TAIL);
    page
}

/// Shapes the answer of the login endpoint to the outcome of a login.
pub fn login_reply(page: bool, outcome: Result<SessionCredential, AuthError>) -> (reply: LoginReply)
    ensures
        reply@ == reply_for(page, outcome_view(outcome)),
        match reply {
            LoginReply::Cookie(c) => outcome == Ok::<SessionCredential, AuthError>(
                SessionCredential::Cookie(c),
            ),
            LoginReply::CookieRedirect(c) => outcome == Ok::<SessionCredential, AuthError>(
                SessionCredential::Cookie(c),
            ),
            _ => true,
        },
{
    match outcome {
        Ok(SessionCredential::Token(token)) => {
            if page {
                LoginReply::TokenPage(render_token_page(token.as_str()))
            } else {
                LoginReply::Token(LoginResponse { token })
            }
        },
        Ok(SessionCredential::Cookie(cookie)) => {
            if page {
                LoginReply::CookieRedirect(cookie)
            } else {
                LoginReply::Cookie(cookie)
            }
        },
        Err(e) => LoginReply::Failure(e),
    }
}

/// The login endpoint, after the request was read and the username looked
/// up. It checks the password against the stored hash, mints the session
/// credential of the strategy at `now` and shapes the answer for the client:
/// a page for a browser (one that sent a form or accepts HTML), JSON else.
/// A session is granted exactly where the password checks against the hash
/// of the account found and the session can be issued, and the credential
/// granted is accepted by `verify_session` when the client presents it: a
/// token until it expires, a cookie always. An unknown username
/// and a wrong password get the same answer, status 401, whatever the
/// client.
pub fn login(
    strategy: SessionStrategy,
    content_type: &str,
    accept: &str,
    request: &LoginRequest,
    found: &Result<Option<Administrator>, StoreError>,
    now: i64,
    secret: &[u8],
) -> (reply: LoginReply)
    ensures
        reply@ == reply_for(
            crate::request::expects_page(content_type@, accept@),
            granted(
                strategy,
                authenticated(request.password@, lookup_view(*found)),
                now as int,
                secret@,
            ),
        ),
        match reply {
            LoginReply::Cookie(c) => c.has_session_attributes() && c.max_age is None,
            LoginReply::CookieRedirect(c) => c.has_session_attributes() && c.max_age is None,
            _ => true,
        },
        match authenticated(request.password@, lookup_view(*found)) {
            Ok(_) => if can_issue(strategy, now as int, secret@) {
                !(reply is Failure)
            } else {
                reply == LoginReply::Failure(AuthError::SigningFailed)
            },
            Err(e) => reply == LoginReply::Failure(e),
        },
        authenticated(request.password@, lookup_view(*found)) matches Ok(id) ==> (granted(
            strategy,
            Ok(id),
            now as int,
            secret@,
        ) matches Ok(c) ==> forall|at: int|
            #[trigger] session_subject(
                strategy,
                crate::session::presented_header(c),
                crate::session::presented_cookie(c),
                at,
                secret@,
            ) == if crate::session::accepted_at(strategy, now as int, at) {
                Some(id)
            } else {
                None
            }),
{
    let page = wants_page(content_type, accept);
    match authenticate(request, found) {
        Ok(id) => login_reply(page, issue_session(strategy, &id, now, secret)),
        Err(e) => login_reply(page, Err(e)),
    }
}

/// The identity that the store's answer to the lookup of a verified subject
/// gives: the account's username. A subject that the store no longer knows
/// is not authenticated.
pub open spec fn identified(found: Result<Option<UserRow>, StoreError>) -> Result<
    Seq<char>,
    AuthError,
> {
    match found {
        Ok(Some(row)) => Ok(row.username),
        Ok(None) => Err(AuthError::Unauthenticated),
        Err(_) => Err(AuthError::StoreUnavailable),
    }
}

/// The identity endpoint, after the session was verified and its subject
/// looked up: who the client is.
pub fn whoami(found: Result<Option<Administrator>, StoreError>) -> (who: Result<Identity, AuthError>)
    ensures
        match who {
            Ok(w) => identified(lookup_view(found)) == Ok::<Seq<char>, AuthError>(w.username@)
                && (found matches Ok(Some(a)) && w.id == a.id),
            Err(e) => identified(lookup_view(found)) == Err::<Seq<char>, AuthError>(e),
        },
{
    match found {
        Ok(Some(user)) => Ok(Identity { id: user.id, username: user.username }),
        Ok(None) => Err(AuthError::Unauthenticated),
        Err(_) => Err(AuthError::StoreUnavailable),
    }
}

/// The logout endpoint. Under the cookie strategy it tells the client to
/// drop the session cookie; a token cannot be called back, so under the
/// token strategy logout only acknowledges.
pub fn logout(strategy: SessionStrategy) -> (reply: LogoutReply)
    ensures
        match strategy {
            SessionStrategy::SignedCookie => reply.clear matches Some(c) && c.is_removal(),
            SessionStrategy::BearerToken => reply.clear is None,
        },
{
    match strategy {
        SessionStrategy::SignedCookie => LogoutReply { clear: Some(removal_cookie()) },
        SessionStrategy::BearerToken => LogoutReply { clear: None },
    }
}

/// What the identity endpoint answers to a request, against a store that
/// answers: the username of the account that the presented session stands
/// for.
pub open spec fn whoami_run(
    table: UserTable,
    strategy: SessionStrategy,
    authorization: Option<Seq<char>>,
    cookie: Option<Seq<char>>,
    now: int,
    secret: Seq<u8>,
) -> Result<Seq<char>, AuthError> {
    match session_subject(strategy, authorization, cookie, now, secret) {
        Some(id) => identified(Ok(table.find_by_id(id))),
        None => Err(AuthError::Unauthenticated),
    }
}

/// What the login endpoint decides for credentials, against a store that
/// answers.
pub open spec fn login_run(table: UserTable, credentials: Credentials) -> Result<
    Seq<u8>,
    AuthError,
> {
    authenticated(credentials.password, Ok(table.find_by_username(credentials.username)))
}

/// A login under a username that the store does not hold and a login under
/// one that it holds, with a password that does not check against its hash,
/// are refused alike: the same error, and for either kind of client the same
/// reply of status 401.
pub proof fn lemma_refusals_are_alike(
    table: UserTable,
    unknown: Credentials,
    mistaken: Credentials,
    page: bool,
)
    requires
        !table.has_username(unknown.username),
        table.find_by_username(mistaken.username) matches Some(row) && !password_matches(
            mistaken.password,
            row.password_hash,
        ),
    ensures
        login_run(table, unknown) == Err::<Seq<u8>, AuthError>(AuthError::InvalidCredentials),
        login_run(table, mistaken) == login_run(table, unknown),
        reply_for(page, Err(AuthError::InvalidCredentials)) == ReplyView::Failure(
            AuthError::InvalidCredentials,
        ),
        reply_for(page, Err(AuthError::InvalidCredentials)).status() == 401u16,
{
}

/// Nobody logs in to an account whose stored hash does not have the 60
/// characters of a hash artifact, whatever password is presented. So a
/// password kept in place of its hash does not open the account, unless it
/// has 60 characters itself.
pub proof fn lemma_no_login_without_an_artifact(password: Seq<char>, row: UserRow)
    requires
        row.password_hash.len() != ARTIFACT_LEN,
    ensures
        authenticated(password, Ok(Some(row))) == Err::<Seq<u8>, AuthError>(
            AuthError::InvalidCredentials,
        ),
{
}

/// A login with the password that the stored hash was made from is granted
/// a session, for either kind of client, wherever one can be issued; its
/// status is 200, or 303 where a browser is sent on with the cookie.
pub proof fn lemma_right_password_is_granted(
    strategy: SessionStrategy,
    password: Seq<char>,
    row: UserRow,
    credential: CredentialView,
    page: bool,
    now: int,
    secret: Seq<u8>,
)
    requires
        password_matches(password, row.password_hash),
        issued_session(strategy, row.id, now, secret) == Ok::<CredentialView, AuthError>(
            credential,
        ),
    ensures
        authenticated(password, Ok(Some(row))) == Ok::<Seq<u8>, AuthError>(row.id),
        reply_for(
            page,
            granted(strategy, authenticated(password, Ok(Some(row))), now, secret),
        ) == reply_for(page, Ok(credential)),
        reply_for(page, Ok(credential)).status() == 200 || reply_for(page, Ok(credential)).status()
            == 303,
{
}

/// The identity endpoint names the account of the subject that a valid
/// session stands for, and answers a request without one, whose session is
/// absent, expired or does not verify, with `Unauthenticated`, which is
/// shown as status 401.
pub proof fn lemma_whoami_names_the_subject(
    table: UserTable,
    strategy: SessionStrategy,
    authorization: Option<Seq<char>>,
    cookie: Option<Seq<char>>,
    now: int,
    secret: Seq<u8>,
)
    requires
        table.well_formed(),
    ensures
        match session_subject(strategy, authorization, cookie, now, secret) {
            Some(id) => match whoami_run(table, strategy, authorization, cookie, now, secret) {
                Ok(name) => table.has_id(id) && forall|i: int|
                    0 <= i < table.rows.len() && (#[trigger] table.rows[i]).id == id
                        ==> table.rows[i].username == name,
                Err(e) => e == AuthError::Unauthenticated && !table.has_id(id),
            },
            None => whoami_run(table, strategy, authorization, cookie, now, secret) == Err::<
                Seq<char>,
                AuthError,
            >(AuthError::Unauthenticated),
        },
        AuthError::Unauthenticated.spec_status() == 401,
{
}

} // verus!
