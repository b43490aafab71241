use admin_auth::cookie::{
    issue_cookie, removal_cookie, subject_of_plain, verify_cookie, SameSite, COOKIE_KEY_MIN_LEN,
    SESSION_COOKIE_NAME, SIGNATURE_LEN,
};
use admin_auth::error::AuthError;
use admin_auth::identity::AdministratorId;

fn sample_id() -> AdministratorId {
    AdministratorId::from_bytes([
        0x12, 0x3e, 0x45, 0x67, 0xe8, 0x9b, 0x12, 0xd3, 0xa4, 0x56, 0x42, 0x66, 0x14, 0x17, 0x40, 0x00,
    ])
}

fn key(seed: u8) -> Vec<u8> {
    (0..64u8).map(|i| i.wrapping_mul(7).wrapping_add(seed)).collect()
}

#[test]
fn the_session_cookie_has_its_fixed_attributes() {
    let cookie = issue_cookie(&sample_id(), &key(1)).unwrap();
    assert_eq!(cookie.name, "admin_session");
    assert_eq!(cookie.name, SESSION_COOKIE_NAME);
    assert_eq!(cookie.path, "/");
    assert!(cookie.http_only);
    assert!(cookie.secure);
    assert_eq!(cookie.same_site, SameSite::Lax);
    assert_eq!(cookie.max_age, None);
}

#[test]
fn the_cookie_value_is_the_signed_identifier() {
    let cookie = issue_cookie(&sample_id(), &key(1)).unwrap();
    let text = sample_id().to_text();
    assert_ne!(cookie.value, text);
    assert!(cookie.value.ends_with(&text));
    assert_eq!(cookie.value.len(), SIGNATURE_LEN + 36);
}

#[test]
fn an_issued_cookie_is_accepted() {
    let cookie = issue_cookie(&sample_id(), &key(1)).unwrap();
    assert_eq!(verify_cookie(Some(&cookie.value), &key(1)), Ok(sample_id()));
}

#[test]
fn the_cookie_jar_of_the_outside_crate_reads_an_issued_cookie() {
    let issued = issue_cookie(&sample_id(), &key(1)).unwrap();
    let outside_key = cookie::Key::from(&key(1));
    let mut jar = cookie::CookieJar::new();
    jar.add_original(cookie::Cookie::new("admin_session", issued.value.clone()));
    let read = jar.signed(&outside_key).get("admin_session").unwrap();
    assert_eq!(read.value(), "123e4567-e89b-12d3-a456-426614174000");
}

#[test]
fn a_cookie_under_another_key_is_refused() {
    let cookie = issue_cookie(&sample_id(), &key(1)).unwrap();
    assert_eq!(verify_cookie(Some(&cookie.value), &key(2)), Err(AuthError::Unauthenticated));
}

#[test]
fn a_short_key_cannot_sign_nor_verify() {
    assert_eq!(COOKIE_KEY_MIN_LEN, 64);
    let short = vec![7u8; 63];
    assert_eq!(issue_cookie(&sample_id(), &short), Err(AuthError::SigningFailed));
    assert_eq!(issue_cookie(&sample_id(), &[]), Err(AuthError::SigningFailed));
    let cookie = issue_cookie(&sample_id(), &key(1)).unwrap();
    assert_eq!(verify_cookie(Some(&cookie.value), &short), Err(AuthError::Unauthenticated));
    assert!(issue_cookie(&sample_id(), &vec![7u8; 64]).is_ok());
    assert!(issue_cookie(&sample_id(), &vec![7u8; 80]).is_ok());
}

#[test]
fn tampering_with_any_one_character_of_a_cookie_is_refused() {
    let cookie = issue_cookie(&sample_id(), &key(1)).unwrap();
    let bytes = cookie.value.as_bytes();
    for i in 0..bytes.len() {
        let mut forged = bytes.to_vec();
        forged[i] = if forged[i] == b'0' { b'1' } else { b'0' };
        let forged = String::from_utf8(forged).unwrap();
        assert_eq!(verify_cookie(Some(&forged), &key(1)), Err(AuthError::Unauthenticated), "position {}", i);
    }
}

#[test]
fn an_absent_or_malformed_cookie_is_not_logged_in() {
    assert_eq!(verify_cookie(None, &key(1)), Err(AuthError::Unauthenticated));
    assert_eq!(verify_cookie(Some(""), &key(1)), Err(AuthError::Unauthenticated));
    assert_eq!(verify_cookie(Some("123e4567-e89b-12d3-a456-426614174000"), &key(1)), Err(AuthError::Unauthenticated));
    assert_eq!(verify_cookie(Some("ünï"), &key(1)), Err(AuthError::Unauthenticated));
}

#[test]
fn a_signed_value_that_is_no_identifier_is_refused() {
    let outside_key = cookie::Key::from(&key(1));
    let mut jar = cookie::CookieJar::new();
    jar.signed_mut(&outside_key).add(cookie::Cookie::new("admin_session", "jake"));
    let signed = jar.get("admin_session").unwrap().value().to_string();
    assert_eq!(verify_cookie(Some(&signed), &key(1)), Err(AuthError::Unauthenticated));
}

#[test]
fn the_removal_cookie_empties_the_session() {
    let removal = removal_cookie();
    assert_eq!(removal.name, "admin_session");
    assert_eq!(removal.value, "");
    assert_eq!(removal.path, "/");
    assert_eq!(removal.max_age, Some(0));
    assert!(removal.http_only && removal.secure);
    assert_eq!(removal.same_site, SameSite::Lax);
    assert_eq!(verify_cookie(Some(&removal.value), &key(1)), Err(AuthError::Unauthenticated));
}

#[test]
fn a_verified_plain_value_is_resolved() {
    assert_eq!(subject_of_plain(Some("123e4567-e89b-12d3-a456-426614174000".to_string())), Ok(sample_id()));
    assert_eq!(subject_of_plain(Some("x".to_string())), Err(AuthError::Unauthenticated));
    assert_eq!(subject_of_plain(None), Err(AuthError::Unauthenticated));
}
