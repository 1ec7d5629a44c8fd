//! Token service: issues and verifies signed, time-limited identity tokens
//! (HS256 JWTs). A token minted for given claims and secret is a
//! deterministic function of both, named `jwt_token_of`; verification is
//! exact on tokens of that shape and can otherwise only reject.
use vstd::prelude::*;

use jsonwebtoken::errors::ErrorKind;
use jsonwebtoken::{DecodingKey, EncodingKey, Header, Validation, decode, encode};
use serde_json::Value;

verus! {

/// The payload of an identity token: subject id, email, role, and the
/// absolute expiry instant in seconds since the epoch.
pub struct Claims {
    pub sub: String,
    pub email: String,
    pub role: String,
    pub exp: u64,
}

/// Why a token was rejected. The distinction stays internal; callers
/// surface one generic message.
#[derive(Debug, PartialEq, Eq, Structural)]
pub enum TokenError {
    Expired,
    Invalid,
}

/// The signed token minted for these claims with this secret.
pub uninterp spec fn jwt_token_of(
    sub: Seq<char>,
    email: Seq<char>,
    role: Seq<char>,
    exp: int,
    secret: Seq<char>,
) -> Seq<char>;

/// Relies on jsonwebtoken::encode with the default header: HS256 signing of
/// the four claims; the token is a deterministic function of claims and
/// secret, and HMAC signing of a serializable payload cannot fail.
#[verifier::external_body]
fn encode_claims(sub: &str, email: &str, role: &str, exp: u64, secret: &str) -> (r: Option<
    String,
>)
    ensures
        r is Some,
        r matches Some(t) ==> t@ == jwt_token_of(sub@, email@, role@, exp as int, secret@),
{
    let mut m = serde_json::Map::new();
    m.insert("sub".to_string(), Value::String(sub.to_string()));
    m.insert("email".to_string(), Value::String(email.to_string()));
    m.insert("role".to_string(), Value::String(role.to_string()));
    m.insert("exp".to_string(), Value::Number(exp.into()));
    encode(&Header::default(), &Value::Object(m), &EncodingKey::from_secret(secret.as_bytes())).ok()
}

/// Relies on jsonwebtoken::decode with the default validation: the HS256
/// signature is checked against the secret and the embedded expiry against
/// the wall clock (60 s leeway). A token minted for given claims with the
/// same secret yields exactly those claims back, or an expiry rejection;
/// nothing else about the outcome is assumed.
#[verifier::external_body]
pub fn verify_jwt(token: &str, secret: &str) -> (r: Result<Claims, TokenError>)
    ensures
        forall|sub: Seq<char>, email: Seq<char>, role: Seq<char>, exp: int|
            token@ == #[trigger] jwt_token_of(sub, email, role, exp, secret@) ==> match r {
                Ok(c) => c.sub@ == sub && c.email@ == email && c.role@ == role && c.exp as int
                    == exp,
                Err(e) => e == TokenError::Expired,
            },
{
    let key = DecodingKey::from_secret(secret.as_bytes());
    let data = match decode::<Value>(token, &key, &Validation::default()) {
        Ok(d) => d.claims,
        Err(e) => return Err(
            if matches!(e.kind(), ErrorKind::ExpiredSignature) { TokenError::Expired }
            else { TokenError::Invalid }
        ),
    };
    let c = || Some(Claims {
        sub: data.get("sub")?.as_str()?.to_string(),
        email: data.get("email")?.as_str()?.to_string(),
        role: data.get("role")?.as_str()?.to_string(),
        exp: data.get("exp")?.as_u64()?,
    });
    c().ok_or(TokenError::Invalid)
}

/// Relies on chrono::Utc::now: the current wall-clock time in whole seconds
/// since the epoch. Nothing is assumed of the value.
#[verifier::external_body]
pub fn current_timestamp() -> i64 {
    chrono::Utc::now().timestamp()
}

/// Issues a token for the given identity that expires exactly at `exp`.
pub fn sign_jwt_at(user_id: &str, email: &str, role: &str, secret: &str, exp: u64) -> (r: String)
    ensures
        r@ == jwt_token_of(user_id@, email@, role@, exp as int, secret@),
{
    match encode_claims(user_id, email, role, exp, secret) {
        Some(t) => t,
        None => String::new(),
    }
}

/// Issues a token for the given identity that expires `exp_minutes` from
/// the current wall-clock instant.
pub fn sign_jwt(user_id: &str, email: &str, role: &str, secret: &str, exp_minutes: i64) -> (r:
    String)
    requires
        0 <= exp_minutes <= 0x7fff_ffff,
    ensures
        exists|exp: int| r@ == #[trigger] jwt_token_of(user_id@, email@, role@, exp, secret@),
{
    let now = current_timestamp();
    let base: i64 = if now < 0 {
        0
    } else if now > 0x4000_0000_0000_0000i64 {
        0x4000_0000_0000_0000i64
    } else {
        now
    };
    let exp: i64 = base + 60i64 * exp_minutes;
    let e: u64 = exp as u64;
    sign_jwt_at(user_id, email, role, secret, e)
}

} // verus!
