//! The token signer and verifier collaborator, and the claim it carries.
//!
//! Tokens are JWTs signed with HS256. Signing is deterministic: the token is
//! a function of the secret and the claims alone, named [`jwt_token_of`].
//! Verification also checks the expiry against the clock, so nothing is
//! promised of its outcome; the verified code takes whatever came back and
//! classifies it.

use vstd::prelude::*;

use jsonwebtoken::{decode, encode, Algorithm, DecodingKey, EncodingKey, Header, Validation};

use crate::error::Error;

verus! {

/// The signed payload inside an access or refresh token: subject (the user
/// id), email, expiry and issued-at, as unix seconds.
#[derive(Debug)]
pub struct Claim {
    pub sub: String,
    pub exp: i64,
    pub iat: i64,
    pub email: String,
}

/// Mathematical value of a claim.
pub ghost struct ClaimView {
    pub sub: Seq<char>,
    pub exp: int,
    pub iat: int,
    pub email: Seq<char>,
}

impl View for Claim {
    type V = ClaimView;

    open spec fn view(&self) -> ClaimView {
        ClaimView {
            sub: self.sub@,
            exp: self.exp as int,
            iat: self.iat as int,
            email: self.email@,
        }
    }
}

/// Why a token failed verification: its expiry has passed, its signature is
/// wrong, or anything else (malformed token, malformed claims).
#[derive(Debug)]
pub enum TokenError {
    Expired,
    Invalid,
    Other(String),
}

/// The token `jsonwebtoken::encode` signs with HS256 over the given secret
/// for a claim of this library's shape: a function of its arguments alone.
pub uninterp spec fn jwt_token_of(
    secret: Seq<char>,
    sub: Seq<char>,
    email: Seq<char>,
    exp: int,
    iat: int,
) -> Seq<char>;

#[verifier::external_type_specification]
#[verifier::external_body]
pub struct ExJsonValue(serde_json::Value);

/// Relies on jsonwebtoken::encode with an HS256 header: deterministic
/// signing, so the token is the function of secret and claims that
/// [`jwt_token_of`] names. Fails only inside the signer.
#[verifier::external_body]
pub(crate) fn jwt_encode_hs256(secret: &str, sub: &str, email: &str, exp: i64, iat: i64) -> (r:
    Result<String, String>)
    ensures
        r matches Ok(t) ==> t@ == jwt_token_of(secret@, sub@, email@, exp as int, iat as int),
{
    let mut claims = serde_json::Map::new();
    claims.insert("sub".to_string(), serde_json::Value::from(sub));
    claims.insert("email".to_string(), serde_json::Value::from(email));
    claims.insert("exp".to_string(), serde_json::Value::from(exp));
    claims.insert("iat".to_string(), serde_json::Value::from(iat));
    encode(
        &Header::new(Algorithm::HS256),
        &serde_json::Value::Object(claims),
        &EncodingKey::from_secret(secret.as_ref()),
    ).map_err(|e| e.to_string())
}

/// Relies on jsonwebtoken::decode under HS256: hands back the claims of a
/// token whose signature verifies and whose expiry has not passed, and
/// classifies the failure otherwise. The outcome depends on the clock, so
/// nothing is promised of it.
#[verifier::external_body]
pub(crate) fn jwt_decode_hs256(secret: &str, token: &str) -> (r: Result<
    serde_json::Value,
    TokenError,
>) {
    match decode::<serde_json::Value>(
        token,
        &DecodingKey::from_secret(secret.as_ref()),
        &Validation::new(Algorithm::HS256),
    ) {
        Ok(data) => Ok(data.claims),
        Err(e) => Err(match e.kind() {
            jsonwebtoken::errors::ErrorKind::ExpiredSignature => TokenError::Expired,
            jsonwebtoken::errors::ErrorKind::InvalidSignature => TokenError::Invalid,
            _ => TokenError::Other(e.to_string()),
        }),
    }
}

/// Relies on serde_json::Value::get and Value::as_str: the string under the
/// field name, if the payload is an object holding a string there.
#[verifier::external_body]
pub(crate) fn json_field_str(v: &serde_json::Value, name: &str) -> (r: Option<String>) {
    v.get(name).and_then(|f| f.as_str()).map(|s| s.to_string())
}

/// Relies on serde_json::Value::get and Value::as_i64: the integer under the
/// field name, if the payload is an object holding an integer there.
#[verifier::external_body]
pub(crate) fn json_field_i64(v: &serde_json::Value, name: &str) -> (r: Option<i64>) {
    v.get(name).and_then(|f| f.as_i64())
}

/// Relies on chrono::Utc::now: the clock's reading as unix seconds, of which
/// nothing is promised.
#[verifier::external_body]
pub(crate) fn now_timestamp() -> (r: i64) {
    chrono::Utc::now().timestamp()
}

/// Reads a claim out of a decoded token payload; a payload without the four
/// expected fields is refused as `Internal`.
pub(crate) fn claim_from_payload(payload: &serde_json::Value) -> (r: Result<Claim, Error>)
    ensures
        r matches Err(e) ==> e is Internal,
{
    let sub = json_field_str(payload, "sub");
    let email = json_field_str(payload, "email");
    let exp = json_field_i64(payload, "exp");
    let iat = json_field_i64(payload, "iat");
    match (sub, email, exp, iat) {
        (Some(sub), Some(email), Some(exp), Some(iat)) => Ok(Claim { sub, exp, iat, email }),
        _ => Err(Error::Internal(malformed_claims_message())),
    }
}

/// The message carried when a verified token's payload lacks a claim field.
fn malformed_claims_message() -> (r: String)
    ensures
        r@ == "token claims are malformed"@,
{
    let r: String = "token claims are malformed".to_string();
    r
}

} // verus!
