//! The access gateway: checks a caller's credentials against the configured
//! identity and issues a signed bearer token that expires a fixed time later.

use crate::error::ApiError;
use vstd::prelude::*;

verus! {

#[verifier::external_type_specification]
#[verifier::external_body]
pub struct ExJwtError(jsonwebtoken::errors::Error);

/// How long an issued token stays valid, in seconds (24 hours).
pub const TOKEN_VALIDITY_SECS: i64 = 86400;

/// The compact JWS that jsonwebtoken produces for the default header (HS256)
/// and the claims `{"email": email, "exp": exp}`, signed with the HMAC secret
/// `key`.
pub uninterp spec fn hs256_token(email: Seq<char>, exp: int, key: Seq<u8>) -> Seq<char>;

/// Relies on jsonwebtoken::encode with Header::default() and
/// EncodingKey::from_secret: the key's family (HMAC) matches the header's
/// algorithm (HS256), a string-keyed JSON object always serializes, and HS256
/// signing always succeeds, so the call returns `Ok`; the token is determined
/// by the claims and the secret alone (HMAC-SHA256 over the serialized parts).
#[verifier::external_body]
fn sign_claims(email: &String, exp: i64, key: &Vec<u8>) -> (r: Result<
    String,
    jsonwebtoken::errors::Error,
>)
    ensures
        r is Ok,
        r matches Ok(t) ==> t@ == hs256_token(email@, exp as int, key@),
{
    let mut claims = serde_json::Map::new();
    claims.insert("email".to_string(), serde_json::Value::String(email.clone()));
    claims.insert("exp".to_string(), serde_json::Value::from(exp));
    let key = jsonwebtoken::EncodingKey::from_secret(key);
    jsonwebtoken::encode(&jsonwebtoken::Header::default(), &serde_json::Value::Object(claims), &key)
}

/// The email and expiry claims of `token` when its header names HS256, its
/// signature under the HMAC secret `key` checks out, and its claims hold a
/// string "email" and a non-negative integer "exp" and no "aud"; `None`
/// otherwise.
pub uninterp spec fn hs256_claims(token: Seq<char>, key: Seq<u8>) -> Option<(Seq<char>, int)>;

/// Relies on jsonwebtoken::decode with Validation::new(HS256) and expiry
/// checking turned off: the outcome depends on the token and the key alone.
/// A token that jsonwebtoken::encode made under the same secret, with the
/// default header and the claims `{"email": e, "exp": x}` for `x >= 0`,
/// passes every check and reads back as `(e, x)`.
#[verifier::external_body]
fn read_claims(token: &String, key: &Vec<u8>) -> (r: Option<(String, i64)>)
    ensures
        match r {
            Some((email, exp)) => hs256_claims(token@, key@) == Some((email@, exp as int)),
            None => hs256_claims(token@, key@) is None,
        },
        (forall|e: Seq<char>, x: int|
            0 <= x <= i64::MAX && #[trigger] hs256_token(e, x, key@) == token@ ==> r is Some
                && r->Some_0.0@ == e && r->Some_0.1 == x),
{
    let mut validation = jsonwebtoken::Validation::new(jsonwebtoken::Algorithm::HS256);
    validation.validate_exp = false;
    let key = jsonwebtoken::DecodingKey::from_secret(key);
    let data = jsonwebtoken::decode::<serde_json::Value>(token, &key, &validation).ok()?;
    let email = data.claims.get("email")?.as_str()?.to_string();
    let exp = data.claims.get("exp")?.as_i64()?;
    Some((email, exp))
}

/// The public profile of an authenticated caller.
#[derive(Debug)]
pub struct User {
    pub email: String,
}

/// What a successful login hands back: the bearer token, the caller's
/// profile, and the issue and expiry times embedded in the token.
#[derive(Debug)]
pub struct LoginResponse {
    pub token: String,
    pub user: User,
    pub issued_at: i64,
    pub expires_at: i64,
}

/// A token issued at `now` has a representable expiry.
pub open spec fn issuable_at(now: int) -> bool {
    now + TOKEN_VALIDITY_SECS <= i64::MAX
}

/// The outcome of a login for `email` at time `now`, given what signing the
/// token returned.
pub open spec fn login_outcome(
    email: Seq<char>,
    now: int,
    signed: Result<Seq<char>, ()>,
    r: Result<LoginResponse, ApiError>,
) -> bool {
    match signed {
        Ok(t) => r matches Ok(resp) && resp.token@ == t && resp.user.email@ == email
            && resp.issued_at == now && resp.expires_at == now + TOKEN_VALIDITY_SECS,
        Err(_) => r == Err::<LoginResponse, ApiError>(ApiError::SigningFailed),
    }
}

/// Builds the login result for `email` issued at `now` from what signing its
/// token returned.
pub fn finish_login(email: &String, now: i64, signed: Result<String, jsonwebtoken::errors::Error>) -> (r: Result<
    LoginResponse,
    ApiError,
>)
    requires
        issuable_at(now as int),
    ensures
        login_outcome(
            email@,
            now as int,
            match signed {
                Ok(t) => Ok(t@),
                Err(_) => Err(()),
            },
            r,
        ),
{
    match signed {
        Ok(token) => Ok(
            LoginResponse {
                token,
                user: User { email: email.clone() },
                issued_at: now,
                expires_at: now + TOKEN_VALIDITY_SECS,
            },
        ),
        Err(_) => Err(ApiError::SigningFailed),
    }
}

/// What a token with the given verified claims proves at time `now`: the
/// embedded identity, unless the claims are absent (`Unauthorized`) or the
/// expiry has passed (`TokenExpired`).
pub open spec fn token_outcome(claims: Option<(Seq<char>, int)>, now: int) -> Result<
    Seq<char>,
    ApiError,
> {
    match claims {
        None => Err(ApiError::Unauthorized),
        Some((email, exp)) => if exp < now {
            Err(ApiError::TokenExpired)
        } else {
            Ok(email)
        },
    }
}

pub open spec fn claims_view(claims: Option<(String, i64)>) -> Option<(Seq<char>, int)> {
    match claims {
        Some((email, exp)) => Some((email@, exp as int)),
        None => None,
    }
}

pub open spec fn identity_view(r: Result<String, ApiError>) -> Result<Seq<char>, ApiError> {
    match r {
        Ok(email) => Ok(email@),
        Err(e) => Err(e),
    }
}

/// Decides what verified claims prove at time `now`.
pub fn check_claims(claims: Option<(String, i64)>, now: i64) -> (r: Result<String, ApiError>)
    ensures
        identity_view(r) == token_outcome(claims_view(claims), now as int),
{
    match claims {
        None => Err(ApiError::Unauthorized),
        Some((email, exp)) => {
            if exp < now {
                Err(ApiError::TokenExpired)
            } else {
                Ok(email)
            }
        },
    }
}

/// The configured identity and the process-wide signing key.
pub struct Gateway {
    email: String,
    password: String,
    signing_key: Vec<u8>,
}

impl Gateway {
    pub closed spec fn identity_email(&self) -> Seq<char> {
        self.email@
    }

    pub closed spec fn identity_password(&self) -> Seq<char> {
        self.password@
    }

    pub closed spec fn key(&self) -> Seq<u8> {
        self.signing_key@
    }

    /// Whether the credentials match the configured identity exactly.
    pub open spec fn accepts(&self, email: Seq<char>, password: Seq<char>) -> bool {
        email == self.identity_email() && password == self.identity_password()
    }

    /// A gateway for one identity, signing with `signing_key`.
    pub fn new(email: String, password: String, signing_key: Vec<u8>) -> (r: Gateway)
        ensures
            r.identity_email() == email@,
            r.identity_password() == password@,
            r.key() == signing_key@,
    {
        Gateway { email, password, signing_key }
    }

    /// Whether `email` and `password` are the configured identity's.
    pub fn check_credentials(&self, email: &String, password: &String) -> (r: bool)
        ensures
            r == self.accepts(email@, password@),
    {
        let email_ok = *email == self.email;
        let password_ok = *password == self.password;
        email_ok && password_ok
    }

    /// Logs in at time `now`: a mismatch fails with `Unauthorized` whichever
    /// field was wrong; a match succeeds whenever the expiry `now` plus the
    /// validity window is representable, and the token carries the email and
    /// that expiry.
    pub fn login_at(&self, email: &String, password: &String, now: i64) -> (r: Result<
        LoginResponse,
        ApiError,
    >)
        ensures
            !self.accepts(email@, password@) ==> r == Err::<LoginResponse, ApiError>(
                ApiError::Unauthorized,
            ),
            self.accepts(email@, password@) && !issuable_at(now as int) ==> r == Err::<
                LoginResponse,
                ApiError,
            >(ApiError::ClockOutOfRange),
            self.accepts(email@, password@) && issuable_at(now as int) ==> r is Ok,
            self.accepts(email@, password@) && issuable_at(now as int) ==> login_outcome(
                email@,
                now as int,
                match r {
                    Ok(_) => Ok(hs256_token(email@, now + TOKEN_VALIDITY_SECS, self.key())),
                    Err(_) => Err(()),
                },
                r,
            ),
    {
        if !self.check_credentials(email, password) {
            return Err(ApiError::Unauthorized);
        }
        if now > i64::MAX - TOKEN_VALIDITY_SECS {
            return Err(ApiError::ClockOutOfRange);
        }
        let signed = sign_claims(email, now + TOKEN_VALIDITY_SECS, &self.signing_key);
        finish_login(email, now, signed)
    }

    /// Checks `token`'s signature and expiry at time `now` and returns the
    /// identity it carries. A token that `login_at` issued with this gateway's key verifies, with
    /// the email it was issued for, at every time up to its expiry, and is
    /// expired after that.
    pub fn verify_at(&self, token: &String, now: i64) -> (r: Result<String, ApiError>)
        ensures
            identity_view(r) == token_outcome(hs256_claims(token@, self.key()), now as int),
            forall|e: Seq<char>, x: int|
                0 <= x <= i64::MAX && #[trigger] hs256_token(e, x, self.key()) == token@
                    ==> identity_view(r) == (if x < now {
                    Err::<Seq<char>, ApiError>(ApiError::TokenExpired)
                } else {
                    Ok::<Seq<char>, ApiError>(e)
                }),
    {
        let claims = read_claims(token, &self.signing_key);
        check_claims(claims, now)
    }
}

} // verus!
