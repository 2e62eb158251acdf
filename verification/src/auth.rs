//! Credential hashing, session tokens, and the request-time authentication
//! gate.
//!
//! Passwords are hashed with a memory-hard KDF behind trusted wrappers whose
//! contracts state the round trip: a fresh hash verifies against the password
//! it was derived from. Session tokens are signed claims; a token is accepted
//! exactly when its signature verifies against the service secret and the
//! current time has not passed its expiry. An optional `Authorization`
//! header is turned into a verified identity or a rejection, as a pure
//! function of the header, the clock and the secret.

use vstd::prelude::*;
use vstd::string::*;

use crate::error::AppError;

use argon2::PasswordHasher;
use argon2::PasswordVerifier;

verus! {

/// The claims carried by a session token: subject identity, contact
/// attribute, expiry and issue time (seconds since the epoch).
#[derive(Debug, Clone, PartialEq, Eq)]
pub struct Claims {
    pub sub: String,
    pub email: String,
    pub exp: u64,
    pub iat: u64,
}

/// The verified identity handed to a handler once authentication succeeds.
#[derive(Debug, Clone, PartialEq, Eq)]
pub struct UserCtx {
    pub user_id: String,
    pub email: String,
}

/// Tokens live for seven days from issuance.
pub const TOKEN_LIFETIME_SECONDS: u64 = 604800;

/// Whether a string is a well-formed PHC hash encoding, as the password-hash
/// parser accepts it.
pub uninterp spec fn phc_parses(hash: Seq<char>) -> bool;

/// Whether the KDF digest re-derived from `password` with the salt and
/// parameters embedded in `hash` matches the digest embedded in `hash`.
pub uninterp spec fn argon2_matches(password: Seq<char>, hash: Seq<char>) -> bool;

/// The four claims recovered from a token by structural parsing, signature
/// verification against `secret`, and claim extraction — or `None` when any
/// of those steps fails. Expiry is not part of this relation; it is checked
/// separately against the clock.
pub uninterp spec fn jwt_claims(token: Seq<char>, secret: Seq<char>) -> Option<
    (Seq<char>, Seq<char>, u64, u64),
>;

/// The token that signing the four claims under `secret` produces. HS256
/// signing is deterministic, so the token is a function of the claims and
/// the secret alone: two calls that share them yield the same token.
pub uninterp spec fn jwt_token_of(
    sub: Seq<char>,
    email: Seq<char>,
    iat: u64,
    exp: u64,
    secret: Seq<char>,
) -> Seq<char>;

/// Whether a string is accepted as a textual UUID.
pub uninterp spec fn uuid_parses(s: Seq<char>) -> bool;

/// Relies on `argon2::Argon2::hash_password` (default parameters, fresh
/// random salt from the system RNG): the PHC string it returns parses back,
/// and verifying the same password against it re-derives the same digest.
#[verifier::external_body]
fn argon2_hash_raw(password: &str) -> (r: Result<String, ()>)
    ensures
        r matches Ok(h) ==> phc_parses(h@) && argon2_matches(password@, h@),
{
    match argon2::Argon2::default().hash_password(password.as_bytes()) {
        Ok(h) => Ok(h.to_string()),
        Err(_) => Err(()),
    }
}

/// Relies on `argon2::PasswordHash::new`, which accepts exactly the
/// well-formed PHC encodings, and `argon2::Argon2::verify_password`, which
/// re-derives the digest with the embedded salt and parameters and compares
/// in constant time.
#[verifier::external_body]
fn argon2_verify_raw(password: &str, hash: &str) -> (r: Result<bool, ()>)
    ensures
        r is Ok <==> phc_parses(hash@),
        r matches Ok(b) ==> b == argon2_matches(password@, hash@),
{
    match argon2::PasswordHash::new(hash) {
        Ok(parsed) => Ok(
            argon2::Argon2::default().verify_password(password.as_bytes(), &parsed).is_ok(),
        ),
        Err(_) => Err(()),
    }
}

/// Relies on `jsonwebtoken::encode` with the default (HS256) header and an
/// HMAC secret key: the call has no failure path (the key family matches the
/// header's algorithm, HMAC accepts any key length, and serializing four
/// plain claims cannot error), its output is a deterministic function of the
/// claims and the secret, and decoding under the same secret recovers
/// exactly the four claims.
#[verifier::external_body]
fn jwt_encode_raw(sub: &str, email: &str, iat: u64, exp: u64, secret: &str) -> (tok: String)
    ensures
        tok@ == jwt_token_of(sub@, email@, iat, exp, secret@),
        jwt_claims(tok@, secret@) == Some((sub@, email@, exp, iat)),
{
    let mut claims = serde_json::Map::new();
    claims.insert("sub".to_string(), serde_json::Value::from(sub));
    claims.insert("email".to_string(), serde_json::Value::from(email));
    claims.insert("exp".to_string(), serde_json::Value::from(exp));
    claims.insert("iat".to_string(), serde_json::Value::from(iat));
    let key = jsonwebtoken::EncodingKey::from_secret(secret.as_bytes());
    let header = jsonwebtoken::Header::default();
    jsonwebtoken::encode(&header, &serde_json::Value::Object(claims), &key)
        .expect("HS256 signing of plain claims under a secret key has no failure path")
}

/// The plain view of what token decoding returns.
pub open spec fn claims_view(r: Option<(String, String, u64, u64)>) -> Option<
    (Seq<char>, Seq<char>, u64, u64),
> {
    match r {
        Some(c) => Some((c.0@, c.1@, c.2, c.3)),
        None => None,
    }
}

/// Relies on `jsonwebtoken::decode`: structural parsing and HS256 signature
/// verification against `secret`. The expiry check is turned off and no
/// claim is required, so the expiry rule stays in verified code; the
/// audience, issuer and subject constraints are left unset, so none of them
/// fires. The call is then clock-free and deterministic in the token and the
/// secret; the subject, contact, expiry and issue-time claims are read out
/// of the payload.
#[verifier::external_body]
fn jwt_decode_raw(token: &str, secret: &str) -> (r: Option<(String, String, u64, u64)>)
    ensures
        claims_view(r) == jwt_claims(token@, secret@),
{
    let mut validation = jsonwebtoken::Validation::new(jsonwebtoken::Algorithm::HS256);
    validation.validate_exp = false;
    validation.required_spec_claims = std::collections::HashSet::new();
    let key = jsonwebtoken::DecodingKey::from_secret(secret.as_bytes());
    let data = jsonwebtoken::decode::<serde_json::Value>(token, &key, &validation).ok()?;
    let c = data.claims;
    Some(
        (
            c.get("sub")?.as_str()?.to_string(),
            c.get("email")?.as_str()?.to_string(),
            c.get("exp")?.as_u64()?,
            c.get("iat")?.as_u64()?,
        ),
    )
}

/// Relies on `chrono::Utc::now`: seconds since the epoch. The value depends
/// on the clock, so nothing is promised of it.
#[verifier::external_body]
fn unix_now_raw() -> (r: i64) {
    chrono::Utc::now().timestamp()
}

/// Relies on `uuid::Uuid::parse_str`: acceptance depends on the text alone.
#[verifier::external_body]
fn uuid_str_ok(s: &str) -> (r: bool)
    ensures
        r == uuid_parses(s@),
{
    uuid::Uuid::parse_str(s).is_ok()
}

/// Hash a password with a fresh random salt, returning the PHC encoding that
/// embeds algorithm parameters, salt and digest.
pub fn hash_password(password: &str) -> (r: Result<String, AppError>)
    ensures
        r matches Ok(h) ==> phc_parses(h@) && argon2_matches(password@, h@),
        r matches Err(e) ==> (e matches AppError::Internal(m) && m@ == "Failed to hash password"@),
{
    match argon2_hash_raw(password) {
        Ok(h) => Ok(h),
        Err(_) => Err(AppError::Internal(String::from_str("Failed to hash password"))),
    }
}

/// Verify a password against a stored hash. A malformed hash is an internal
/// error with a fixed message; a mismatch is the valid `false` outcome, not
/// an error. Every clause is an equality, so equal inputs give equal
/// results.
pub fn verify_password(password: &str, password_hash: &str) -> (r: Result<bool, AppError>)
    ensures
        r is Ok <==> phc_parses(password_hash@),
        r matches Ok(b) ==> b == argon2_matches(password@, password_hash@),
        r matches Err(e) ==> (e matches AppError::Internal(m) && m@
            == "Failed to parse password hash"@),
{
    match argon2_verify_raw(password, password_hash) {
        Ok(b) => Ok(b),
        Err(_) => Err(AppError::Internal(String::from_str("Failed to parse password hash"))),
    }
}

/// For every password: whenever hashing returns a hash at all, verifying the
/// same password against that fresh hash succeeds.
pub fn hash_then_verify(password: &str) -> (r: Result<bool, AppError>)
    ensures
        r matches Ok(b) ==> b,
        r matches Err(e) ==> e matches AppError::Internal(_),
{
    let hashed = match hash_password(password) {
        Ok(h) => h,
        Err(e) => return Err(e),
    };
    verify_password(password, hashed.as_str())
}

/// Issue a token for `user_id` and `email` stamped at time `now`: issued-at
/// is `now`, expiry is `now` plus the seven-day lifetime. Issuance always
/// succeeds, and the token is a function of the claims and the secret alone,
/// so two calls that share their arguments yield the identical token.
pub fn generate_token_at(user_id: &str, email: &str, now: u64, secret: &str) -> (tok: String)
    requires
        now + TOKEN_LIFETIME_SECONDS <= u64::MAX,
    ensures
        tok@ == jwt_token_of(
            user_id@,
            email@,
            now,
            (now + TOKEN_LIFETIME_SECONDS) as u64,
            secret@,
        ),
        jwt_claims(tok@, secret@) matches Some(c) && c.0 == user_id@ && c.1 == email@ && c.2 == now
            + TOKEN_LIFETIME_SECONDS && c.3 == now,
{
    let exp: u64 = now + TOKEN_LIFETIME_SECONDS;
    jwt_encode_raw(user_id, email, now, exp, secret)
}

/// Issue a token stamped at the current time. The only failure is a clock
/// reading outside the representable range; any returned token carries the
/// stamped claims and is the deterministic signing of them.
pub fn generate_token(user_id: &str, email: &str, secret: &str) -> (r: Result<String, AppError>)
    ensures
        r matches Ok(tok) ==> (jwt_claims(tok@, secret@) matches Some(c) && c.0 == user_id@
            && c.1 == email@ && c.2 == c.3 + TOKEN_LIFETIME_SECONDS && tok@ == jwt_token_of(
            user_id@,
            email@,
            c.3,
            c.2,
            secret@,
        )),
        r matches Err(e) ==> e matches AppError::Internal(_),
{
    let now_raw = unix_now_raw();
    if now_raw < 0 || now_raw as u64 > u64::MAX - TOKEN_LIFETIME_SECONDS {
        return Err(AppError::Internal(String::from_str("Clock out of range")));
    }
    Ok(generate_token_at(user_id, email, now_raw as u64, secret))
}

/// A token is valid at time `now` exactly when its signature verifies against
/// `secret` and `now` has not passed its expiry claim.
pub open spec fn token_valid_at(token: Seq<char>, secret: Seq<char>, now: u64) -> bool {
    match jwt_claims(token, secret) {
        Some(c) => now <= c.2,
        None => false,
    }
}

/// Validate a token at time `now`. Structural, signature and expiry failures
/// all yield the same uniform authentication error.
pub fn validate_token_at(token: &str, now: u64, secret: &str) -> (r: Result<Claims, AppError>)
    ensures
        r is Ok <==> token_valid_at(token@, secret@, now),
        r matches Ok(c) ==> jwt_claims(token@, secret@) == Some((c.sub@, c.email@, c.exp, c.iat))
            && now <= c.exp,
        r matches Err(e) ==> (e matches AppError::Auth(m) && m@ == "Invalid token"@),
{
    match jwt_decode_raw(token, secret) {
        Some(c) => {
            if now <= c.2 {
                Ok(Claims { sub: c.0, email: c.1, exp: c.2, iat: c.3 })
            } else {
                Err(AppError::Auth(String::from_str("Invalid token")))
            }
        },
        None => Err(AppError::Auth(String::from_str("Invalid token"))),
    }
}

/// Validate a token against the current time.
pub fn validate_token(token: &str, secret: &str) -> (r: Result<Claims, AppError>)
    ensures
        r matches Ok(c) ==> jwt_claims(token@, secret@) == Some((c.sub@, c.email@, c.exp, c.iat)),
        r matches Err(e) ==> (e matches AppError::Auth(m) && m@ == "Invalid token"@),
{
    let now_raw = unix_now_raw();
    let now: u64 = if now_raw < 0 {
        0
    } else {
        now_raw as u64
    };
    validate_token_at(token, now, secret)
}

/// Round trip of issuance and validation: a token issued for
/// (`user_id`, `email`) at time `now` validates at any time `at` within the
/// seven-day lifetime and yields the same subject and contact; once `at`
/// passes the expiry it is rejected.
pub fn issue_then_validate(user_id: &str, email: &str, now: u64, at: u64, secret: &str) -> (r:
    Option<Claims>)
    requires
        now + TOKEN_LIFETIME_SECONDS <= u64::MAX,
    ensures
        at <= now + TOKEN_LIFETIME_SECONDS ==> (r matches Some(c) && c.sub@ == user_id@
            && c.email@ == email@ && c.iat == now && c.exp == now + TOKEN_LIFETIME_SECONDS),
        at > now + TOKEN_LIFETIME_SECONDS ==> r is None,
{
    let tok = generate_token_at(user_id, email, now, secret);
    match validate_token_at(tok.as_str(), at, secret) {
        Ok(c) => Some(c),
        Err(_) => None,
    }
}

/// The token carried by a well-formed `Authorization: Bearer <token>` header,
/// or `None` when the header does not have that shape.
pub open spec fn bearer_token_of(header: Seq<char>) -> Option<Seq<char>> {
    if header.len() >= 7 && header.subrange(0, 7) == "Bearer "@ {
        Some(header.subrange(7, header.len() as int))
    } else {
        None
    }
}

/// Strip the bearer scheme off an `Authorization` header value.
fn strip_bearer(header: &str) -> (r: Option<&str>)
    ensures
        r matches Some(t) ==> bearer_token_of(header@) == Some(t@),
        r is None ==> bearer_token_of(header@) is None,
{
    let scheme = "Bearer ";
    proof {
        reveal_strlit("Bearer ");
    }
    let n = header.unicode_len();
    if n < 7 {
        return None;
    }
    let mut i: usize = 0;
    while i < 7
        invariant
            0 <= i <= 7,
            7 <= n == header@.len(),
            scheme@ == "Bearer "@,
            scheme@.len() == 7,
            forall|j: int| 0 <= j < i ==> header@[j] == scheme@[j],
        decreases 7 - i,
    {
        if header.get_char(i) != scheme.get_char(i) {
            proof {
                assert(header@.subrange(0, 7)[i as int] != "Bearer "@[i as int]);
            }
            return None;
        }
        i += 1;
    }
    proof {
        assert(header@.subrange(0, 7) =~= "Bearer "@);
    }
    Some(header.substring_char(7, n))
}

/// The request-time gate, as a pure function of the `Authorization` header,
/// the clock and the service secret. A missing or malformed header is
/// rejected outright; a well-formed bearer token is validated; a valid token
/// whose subject is not a parseable identifier is rejected; otherwise the
/// verified identity is yielded.
pub fn authenticate_at(auth_header: Option<&str>, now: u64, secret: &str) -> (r: Result<
    UserCtx,
    AppError,
>)
    ensures
        auth_header is None ==> r == Err::<UserCtx, AppError>(AppError::Unauthorized),
        auth_header matches Some(h) ==> bearer_token_of(h@) is None ==> r == Err::<
            UserCtx,
            AppError,
        >(AppError::Unauthorized),
        auth_header matches Some(h) ==> bearer_token_of(h@) matches Some(t) ==> {
            &&& !token_valid_at(t, secret@, now) ==> (r matches Err(e) && e matches AppError::Auth(
                m,
            ) && m@ == "Invalid token"@)
            &&& token_valid_at(t, secret@, now) ==> (jwt_claims(t, secret@) matches Some(c) && {
                &&& !uuid_parses(c.0) ==> (r matches Err(e) && e matches AppError::Auth(m) && m@
                    == "Invalid user ID in token"@)
                &&& uuid_parses(c.0) ==> (r matches Ok(u) && u.user_id@ == c.0 && u.email@ == c.1)
            })
        },
{
    let header = match auth_header {
        Some(h) => h,
        None => return Err(AppError::Unauthorized),
    };
    let token = match strip_bearer(header) {
        Some(t) => t,
        None => return Err(AppError::Unauthorized),
    };
    let claims = match validate_token_at(token, now, secret) {
        Ok(c) => c,
        Err(e) => return Err(e),
    };
    if !uuid_str_ok(claims.sub.as_str()) {
        return Err(AppError::Auth(String::from_str("Invalid user ID in token")));
    }
    Ok(UserCtx { user_id: claims.sub, email: claims.email })
}

} // verus!
