//! Bearer-token sessions: a signed token that carries the administrator's
//! identifier and the instant at which it stops being accepted.

use vstd::prelude::*;
use crate::error::AuthError;
use crate::identity::{id_of_text, id_text, is_id_text, AdministratorId};

verus! {

/// How long a token is accepted after it was issued, in seconds: 24 hours.
pub const SESSION_LIFETIME_SECS: i64 = 86400;

/// The signing secret used where the deployment configures none.
pub const DEFAULT_SECRET: &'static str = "change-this-secret-key-in-production-environment";

/// What a token states: whom it was issued to and until when it holds.
#[derive(Clone, Debug, PartialEq, Eq)]
pub struct Claims {
    /// Text form of the administrator's identifier.
    pub sub: String,
    /// Seconds since the Unix epoch from which the token is no longer accepted.
    pub exp: usize,
}

/// The token that signing the claims `sub` and `exp` under `secret` yields,
/// or `None` where the signer fails.
pub uninterp spec fn jwt_encoded(sub: Seq<char>, exp: nat, secret: Seq<u8>) -> Option<Seq<char>>;

/// The subject and expiry that `token` carries, where it is a well-formed
/// token whose signature holds under `secret`; `None` otherwise. The expiry
/// is not held against any clock here.
pub uninterp spec fn jwt_decoded(token: Seq<char>, secret: Seq<u8>) -> Option<(Seq<char>, nat)>;

/// Calls `jsonwebtoken::encode` with the default header (HS256) on the two
/// claims. With that header and a secret for a key no step of the function
/// can fail, so there always is a token. It depends on the claims and the
/// secret alone. It is the header and the claims, each as base64 of its
/// JSON, and the HMAC of both: so `jsonwebtoken::decode` under the same
/// secret finds the signature equal and reads the same two claims back.
#[verifier::external_body]
fn jwt_encode(claims: &Claims, secret: &[u8]) -> (token: Option<String>)
    ensures
        token is Some,
        match token {
            Some(t) => jwt_encoded(claims.sub@, claims.exp as nat, secret@) == Some(t@)
                && jwt_decoded(t@, secret@) == Some((claims.sub@, claims.exp as nat)),
            None => jwt_encoded(claims.sub@, claims.exp as nat, secret@) is None,
        },
{
    let mut body = serde_json::Map::new();
    body.insert("exp".to_owned(), serde_json::Value::from(claims.exp));
    body.insert("sub".to_owned(), serde_json::Value::from(claims.sub.as_str()));
    let key = jsonwebtoken::EncodingKey::from_secret(secret);
    jsonwebtoken::encode(&jsonwebtoken::Header::default(), &body, &key).ok()
}

/// Calls `jsonwebtoken::decode` for HS256 with the check of `exp` against the
/// clock switched off, so that the result depends on the token and the secret
/// alone. `None` stands for every refusal: a malformed token, another
/// algorithm, a signature that does not hold, claims without a text `sub` or
/// a whole non-negative `exp`.
#[verifier::external_body]
fn jwt_decode(token: &str, secret: &[u8]) -> (claims: Option<(String, u64)>)
    ensures
        match claims {
            Some(c) => jwt_decoded(token@, secret@) == Some((c.0@, c.1 as nat)),
            None => jwt_decoded(token@, secret@) is None,
        },
{
    let mut validation = jsonwebtoken::Validation::new(jsonwebtoken::Algorithm::HS256);
    validation.validate_exp = false;
    let key = jsonwebtoken::DecodingKey::from_secret(secret);
    let data = jsonwebtoken::decode::<serde_json::Value>(token, &key, &validation).ok()?;
    let sub = data.claims.get("sub")?.as_str()?.to_owned();
    let exp = data.claims.get("exp")?.as_u64()?;
    Some((sub, exp))
}

/// Calls `chrono::Utc::now` and reads it as seconds since the Unix epoch.
/// The clock decides the result: nothing is claimed of it. On a machine
/// whose clock stands before 1970 the outside function does not return, so
/// no negative instant comes back from it.
#[verifier::external_body]
fn unix_now() -> (now: i64) {
    chrono::Utc::now().timestamp()
}

/// The signing secret used where the deployment configures none.
pub fn get_jwt_secret() -> (secret: &'static [u8])
    ensures
        secret@ == vstd::utf8::encode_utf8(DEFAULT_SECRET@),
{
    DEFAULT_SECRET.as_bytes()
}

/// Whether a token issued at `now` has an expiry that fits the claims.
pub open spec fn expiry_fits(now: int) -> bool {
    0 <= now + SESSION_LIFETIME_SECS <= usize::MAX
}

/// The instant at which a token issued at `now` expires, where it can be
/// written down.
pub fn expiry_after(now: i64) -> (exp: Option<usize>)
    ensures
        exp is Some <==> expiry_fits(now as int),
        exp matches Some(e) ==> e as int == now + SESSION_LIFETIME_SECS,
{
    if now < -SESSION_LIFETIME_SECS {
        return None;
    }
    let at: u64 = if now < 0 {
        (now + SESSION_LIFETIME_SECS) as u64
    } else {
        now as u64 + SESSION_LIFETIME_SECS as u64
    };
    if at > usize::MAX as u64 {
        return None;
    }
    Some(at as usize)
}

/// What issuing a token to `id` at `now` under `secret` yields.
pub open spec fn issued_token(id: Seq<u8>, now: int, secret: Seq<u8>) -> Result<
    Seq<char>,
    AuthError,
> {
    if expiry_fits(now) {
        match jwt_encoded(id_text(id), (now + SESSION_LIFETIME_SECS) as nat, secret) {
            Some(t) => Ok(t),
            None => Err(AuthError::SigningFailed),
        }
    } else {
        Err(AuthError::SigningFailed)
    }
}

/// Whom decoded claims stand for at `now`: the identifier that the subject
/// is the text form of, as long as the expiry lies after `now` and fits the
/// claims. `None` where nothing was decoded, the token has expired or the
/// subject is no identifier.
pub open spec fn accepted_subject(decoded: Option<(Seq<char>, nat)>, now: int) -> Option<Seq<u8>> {
    match decoded {
        Some((sub, exp)) => if exp <= usize::MAX && exp > now && is_id_text(sub) {
            Some(id_of_text(sub))
        } else {
            None
        },
        None => None,
    }
}

/// Whom `token` stands for at `now` under `secret`.
pub open spec fn token_subject(token: Seq<char>, now: int, secret: Seq<u8>) -> Option<Seq<u8>> {
    accepted_subject(jwt_decoded(token, secret), now)
}

/// The claims of a decoded token, where its expiry fits them.
pub fn claims_of(decoded: Option<(String, u64)>) -> (claims: Option<Claims>)
    ensures
        match decoded {
            Some(raw) => if raw.1 <= usize::MAX {
                claims matches Some(c) && c.sub@ == raw.0@ && c.exp == raw.1
            } else {
                claims is None
            },
            None => claims is None,
        },
{
    match decoded {
        Some(raw) => {
            let (sub, exp) = raw;
            if exp <= usize::MAX as u64 {
                Some(Claims { sub, exp: exp as usize })
            } else {
                None
            }
        },
        None => None,
    }
}

/// Resolves decoded claims to the administrator they stand for at `now`.
/// Every refusal is `Unauthenticated`, whatever its reason.
pub fn subject_of_claims(claims: Option<Claims>, now: i64) -> (subject: Result<
    AdministratorId,
    AuthError,
>)
    ensures
        match subject {
            Ok(id) => claims matches Some(c) && accepted_subject(
                Some((c.sub@, c.exp as nat)),
                now as int,
            ) == Some(id.bytes@),
            Err(e) => e == AuthError::Unauthenticated && (claims matches Some(c)
                ==> accepted_subject(Some((c.sub@, c.exp as nat)), now as int) is None),
        },
{
    match claims {
        Some(c) => {
            if now >= 0 && c.exp as u64 <= now as u64 {
                return Err(AuthError::Unauthenticated);
            }
            match AdministratorId::parse(c.sub.as_str()) {
                Some(id) => Ok(id),
                None => Err(AuthError::Unauthenticated),
            }
        },
        None => Err(AuthError::Unauthenticated),
    }
}

/// Mints a token for `id` at the instant `now`, valid for 24 hours, signed
/// under `secret`. It succeeds whenever the expiry can be written down, that
/// is for every clock that does not read more than 24 hours before 1970,
/// and fails with `SigningFailed` else. The token is accepted by `verify_at`
/// under the same secret at every instant before its expiry and refused
/// from then on.
pub fn issue_at(id: &AdministratorId, now: i64, secret: &[u8]) -> (token: Result<
    String,
    AuthError,
>)
    ensures
        token is Ok <==> expiry_fits(now as int),
        match token {
            Ok(t) => issued_token(id.bytes@, now as int, secret@) == Ok::<Seq<char>, AuthError>(t@),
            Err(e) => issued_token(id.bytes@, now as int, secret@) == Err::<Seq<char>, AuthError>(e),
        },
        token matches Ok(t) ==> forall|at: int|
            #[trigger] token_subject(t@, at, secret@) == if at < now + SESSION_LIFETIME_SECS {
                Some(id.bytes@)
            } else {
                None
            },
{
    match expiry_after(now) {
        Some(exp) => {
            let claims = Claims { sub: id.to_text(), exp };
            match jwt_encode(&claims, secret) {
                Some(t) => {
                    proof {
                        crate::identity::lemma_text_round_trip(id.bytes@);
                    }
                    Ok(t)
                },
                None => Err(AuthError::SigningFailed),
            }
        },
        None => Err(AuthError::SigningFailed),
    }
}

/// Checks `token` at the instant `now` under `secret` and resolves it to the
/// administrator it was issued to. A malformed token, a signature that does
/// not hold, an expired token and a subject that is no identifier are all
/// `Unauthenticated`.
pub fn verify_at(token: &str, now: i64, secret: &[u8]) -> (subject: Result<
    AdministratorId,
    AuthError,
>)
    ensures
        match subject {
            Ok(id) => token_subject(token@, now as int, secret@) == Some(id.bytes@),
            Err(e) => e == AuthError::Unauthenticated && token_subject(
                token@,
                now as int,
                secret@,
            ) is None,
        },
{
    subject_of_claims(claims_of(jwt_decode(token, secret)), now)
}

/// Mints a token for `id` at the instant that the clock reads. The clock
/// call does not return on a machine whose clock stands before 1970, so the
/// instant is never negative; it fails only where the expiry of that instant
/// cannot be written down.
pub fn issue(id: &AdministratorId, secret: &[u8]) -> (token: Result<String, AuthError>)
    ensures
        match token {
            Ok(t) => exists|now: int|
                i64::MIN <= now <= i64::MAX && #[trigger] issued_token(id.bytes@, now, secret@)
                    == Ok::<Seq<char>, AuthError>(t@),
            Err(e) => e == AuthError::SigningFailed,
        },
{
    let now = unix_now();
    let token = issue_at(id, now, secret);
    proof {
        if token is Err {
            assert(issued_token(id.bytes@, now as int, secret@) is Err);
        }
    }
    token
}

/// Checks `token` at the instant that the clock reads, which is never
/// negative: the clock call does not return on a machine whose clock stands
/// before 1970. Whatever that instant is, an acceptance names the subject
/// that the token has at it, and a refusal means that it has none at it.
pub fn verify(token: &str, secret: &[u8]) -> (subject: Result<AdministratorId, AuthError>)
    ensures
        match subject {
            Ok(id) => exists|now: int|
                i64::MIN <= now <= i64::MAX && #[trigger] token_subject(token@, now, secret@)
                    == Some(id.bytes@),
            Err(e) => e == AuthError::Unauthenticated && exists|now: int|
                i64::MIN <= now <= i64::MAX && (#[trigger] token_subject(token@, now, secret@))
                    is None,
        },
{
    let now = unix_now();
    verify_at(token, now, secret)
}

} // verus!
