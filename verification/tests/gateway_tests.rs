use admin_auth::bootstrap::Identity;
use admin_auth::cookie::removal_cookie;
use admin_auth::error::AuthError;
use admin_auth::gateway::{
    authenticate, login, login_reply, logout, render_token_page, whoami, LoginReply, LoginResponse,
    LogoutReply, DASHBOARD_LOCATION,
};
use admin_auth::hasher::PasswordHasher;
use admin_auth::identity::AdministratorId;
use admin_auth::request::LoginRequest;
use admin_auth::session::{verify_session, SessionCredential, SessionStrategy};
use admin_auth::store::{Administrator, StoreError};

fn sample_id() -> AdministratorId {
    AdministratorId::from_bytes([0x5a; 16])
}

fn jake() -> Administrator {
    Administrator {
        id: sample_id(),
        username: "jake".to_string(),
        password_hash: PasswordHasher::with_cost(4).hash("s3cret").unwrap(),
    }
}

fn request(username: &str, password: &str) -> LoginRequest {
    LoginRequest { username: username.to_string(), password: password.to_string() }
}

fn key() -> Vec<u8> {
    (100..164u8).collect()
}

const NOW: i64 = 1_700_000_000;

#[test]
fn the_right_password_authenticates() {
    assert_eq!(authenticate(&request("jake", "s3cret"), &Ok(Some(jake()))), Ok(sample_id()));
}

#[test]
fn an_unknown_user_and_a_wrong_password_are_refused_alike() {
    let unknown = authenticate(&request("nobody", "s3cret"), &Ok(None));
    let mistaken = authenticate(&request("jake", "wrong"), &Ok(Some(jake())));
    assert_eq!(unknown, Err(AuthError::InvalidCredentials));
    assert_eq!(mistaken, unknown);
    assert_eq!(unknown.unwrap_err().status_code(), 401);
    assert_eq!(mistaken.unwrap_err().message(), unknown.unwrap_err().message());
    for page in [false, true] {
        assert_eq!(login_reply(page, Err(unknown.unwrap_err())), login_reply(page, Err(mistaken.unwrap_err())));
    }
}

#[test]
fn the_stored_hash_is_never_compared_as_plain_text() {
    let stored = jake();
    let hash = stored.password_hash.clone();
    assert_eq!(authenticate(&request("jake", &hash), &Ok(Some(stored))), Err(AuthError::InvalidCredentials));
    let plain = Administrator { id: sample_id(), username: "jake".to_string(), password_hash: "s3cret".to_string() };
    assert_eq!(authenticate(&request("jake", "s3cret"), &Ok(Some(plain))), Err(AuthError::InvalidCredentials));
}

#[test]
fn a_store_failure_at_login_is_a_server_fault() {
    assert_eq!(
        authenticate(&request("jake", "s3cret"), &Err(StoreError::Unavailable)),
        Err(AuthError::StoreUnavailable)
    );
}

#[test]
fn the_token_page_stores_the_token_and_goes_to_the_dashboard() {
    assert_eq!(
        render_token_page("abc.def"),
        "<!DOCTYPE html><html lang=\"en\"><head><meta charset=\"utf-8\"><meta http-equiv=\"refresh\" content=\"0; url=/admin/dashboard\"></head><body><script>localStorage.setItem(\"admin_token\",\"abc.def\");location.replace(\"/admin/dashboard\");</script></body></html>"
    );
    assert_eq!(DASHBOARD_LOCATION, "/admin/dashboard");
}

#[test]
fn the_reply_follows_the_client_and_the_outcome() {
    assert_eq!(
        login_reply(false, Ok(SessionCredential::Token("t".to_string()))),
        LoginReply::Token(LoginResponse { token: "t".to_string() })
    );
    assert_eq!(
        login_reply(true, Ok(SessionCredential::Token("t".to_string()))),
        LoginReply::TokenPage(render_token_page("t"))
    );
    assert_eq!(login_reply(false, Ok(SessionCredential::Cookie(removal_cookie()))), LoginReply::Cookie(removal_cookie()));
    assert_eq!(
        login_reply(true, Ok(SessionCredential::Cookie(removal_cookie()))),
        LoginReply::CookieRedirect(removal_cookie())
    );
    for page in [false, true] {
        assert_eq!(
            login_reply(page, Err(AuthError::InvalidCredentials)),
            LoginReply::Failure(AuthError::InvalidCredentials)
        );
        assert_eq!(login_reply(page, Err(AuthError::StoreUnavailable)), LoginReply::Failure(AuthError::StoreUnavailable));
        assert_eq!(login_reply(page, Err(AuthError::SigningFailed)), LoginReply::Failure(AuthError::SigningFailed));
    }
}

#[test]
fn a_json_login_gets_a_token_that_verifies() {
    let reply = login(
        SessionStrategy::BearerToken,
        "application/json",
        "application/json",
        &request("jake", "s3cret"),
        &Ok(Some(jake())),
        NOW,
        &key(),
    );
    let token = match reply {
        LoginReply::Token(LoginResponse { token }) => token,
        other => panic!("unexpected reply {:?}", other),
    };
    let header = format!("Bearer {}", token);
    assert_eq!(verify_session(SessionStrategy::BearerToken, Some(&header), None, NOW, &key()), Ok(sample_id()));
}

#[test]
fn a_form_login_gets_the_page_with_the_token() {
    let reply = login(
        SessionStrategy::BearerToken,
        "application/x-www-form-urlencoded",
        "text/html",
        &request("jake", "s3cret"),
        &Ok(Some(jake())),
        NOW,
        &key(),
    );
    let page = match reply {
        LoginReply::TokenPage(page) => page,
        other => panic!("unexpected reply {:?}", other),
    };
    let head = "localStorage.setItem(\"admin_token\",\"";
    let start = page.find(head).unwrap() + head.len();
    let end = page[start..].find('"').unwrap() + start;
    let header = format!("Bearer {}", &page[start..end]);
    assert_eq!(verify_session(SessionStrategy::BearerToken, Some(&header), None, NOW, &key()), Ok(sample_id()));
}

#[test]
fn a_cookie_login_sets_the_session_cookie() {
    for (accept, redirect) in [("application/json", false), ("text/html", true)] {
        let reply = login(
            SessionStrategy::SignedCookie,
            "application/json",
            accept,
            &request("jake", "s3cret"),
            &Ok(Some(jake())),
            NOW,
            &key(),
        );
        let cookie = match (reply, redirect) {
            (LoginReply::Cookie(c), false) => c,
            (LoginReply::CookieRedirect(c), true) => c,
            (other, _) => panic!("unexpected reply {:?}", other),
        };
        assert!(cookie.http_only && cookie.secure);
        assert_eq!(
            verify_session(SessionStrategy::SignedCookie, None, Some(&cookie.value), NOW, &key()),
            Ok(sample_id())
        );
    }
}

#[test]
fn a_refused_login_is_401_for_every_client() {
    for found in [Ok(None), Ok(Some(jake()))] {
        for (content_type, accept) in [
            ("application/json", ""),
            ("application/json", "text/html"),
            ("application/x-www-form-urlencoded", ""),
            ("application/x-www-form-urlencoded", "text/html"),
            ("multipart/form-data", "*/*"),
        ] {
            let reply = login(
                SessionStrategy::BearerToken,
                content_type,
                accept,
                &request("jake", "wrong"),
                &found,
                NOW,
                &key(),
            );
            assert_eq!(reply, LoginReply::Failure(AuthError::InvalidCredentials));
            assert_eq!(reply.status_code(), 401);
        }
    }
}

#[test]
fn a_form_login_with_a_wrong_password_is_401_without_a_credential() {
    for strategy in [SessionStrategy::BearerToken, SessionStrategy::SignedCookie] {
        let reply = login(
            strategy,
            "application/x-www-form-urlencoded",
            "text/html",
            &request("jake", "wrong"),
            &Ok(Some(jake())),
            NOW,
            &key(),
        );
        assert_eq!(reply.status_code(), 401);
        assert_eq!(reply, LoginReply::Failure(AuthError::InvalidCredentials));
    }
}

#[test]
fn the_right_password_is_granted_a_session_by_either_strategy_and_for_either_client() {
    for strategy in [SessionStrategy::BearerToken, SessionStrategy::SignedCookie] {
        for accept in ["application/json", "text/html"] {
            let reply = login(strategy, "application/json", accept, &request("jake", "s3cret"), &Ok(Some(jake())), NOW, &key());
            assert!(!matches!(reply, LoginReply::Failure(_)));
            assert!(reply.status_code() == 200 || reply.status_code() == 303);
        }
    }
}

#[test]
fn faults_at_login_are_shown_as_they_are() {
    assert_eq!(
        login(SessionStrategy::BearerToken, "application/x-www-form-urlencoded", "text/html", &request("jake", "s3cret"), &Err(StoreError::Unavailable), NOW, &key()),
        LoginReply::Failure(AuthError::StoreUnavailable)
    );
    assert_eq!(
        login(SessionStrategy::SignedCookie, "application/json", "", &request("jake", "s3cret"), &Ok(Some(jake())), NOW, b"short key"),
        LoginReply::Failure(AuthError::SigningFailed)
    );
}

#[test]
fn whoami_names_the_account_found() {
    assert_eq!(whoami(Ok(Some(jake()))), Ok(Identity { id: sample_id(), username: "jake".to_string() }));
    assert_eq!(whoami(Ok(None)), Err(AuthError::Unauthenticated));
    assert_eq!(whoami(Err(StoreError::Unavailable)), Err(AuthError::StoreUnavailable));
}

#[test]
fn logout_removes_the_cookie_or_only_acknowledges() {
    assert_eq!(logout(SessionStrategy::SignedCookie), LogoutReply { clear: Some(removal_cookie()) });
    assert_eq!(logout(SessionStrategy::BearerToken), LogoutReply { clear: None });
}

#[test]
fn the_status_of_each_reply() {
    assert_eq!(LoginReply::Token(LoginResponse { token: "t".to_string() }).status_code(), 200);
    assert_eq!(LoginReply::TokenPage("p".to_string()).status_code(), 200);
    assert_eq!(LoginReply::Cookie(removal_cookie()).status_code(), 200);
    assert_eq!(LoginReply::CookieRedirect(removal_cookie()).status_code(), 303);
    assert_eq!(LoginReply::Failure(AuthError::InvalidCredentials).status_code(), 401);
    assert_eq!(LoginReply::Failure(AuthError::StoreUnavailable).status_code(), 500);
    assert_eq!(LoginReply::Failure(AuthError::UnsupportedMediaType).status_code(), 415);
}
