//! The token service: issues and checks signed, time-limited bearer tokens
//! that bind a subject email. Signing and signature checking are done by the
//! jsonwebtoken crate with HS256 over a server-held secret; the expiry rule
//! itself is checked here, against a caller-supplied clock reading.

use vstd::prelude::*;

use crate::errors::ApiError;

verus! {

/// How long an issued token stays valid, in seconds.
pub const TOKEN_LIFETIME_SECS: u64 = 86400;

/// The claims carried by a token: the subject's email and the expiration
/// time as Unix seconds.
#[derive(Debug)]
pub struct Claims {
    pub sub: String,
    pub exp: u64,
}

/// The token that HS256 signing with `secret` produces for the claim set
/// `{sub, exp}`. A pure function of its three arguments: the payload is a
/// fixed serialization of the claims and an HMAC is deterministic.
pub uninterp spec fn token_of(secret: Seq<u8>, sub: Seq<char>, exp: u64) -> Seq<char>;

/// What checking `token` against `secret` yields: the subject and expiry
/// carried by the token if it is well formed and its HS256 signature matches
/// `secret`, and nothing otherwise. A pure function of the two arguments;
/// the clock plays no part in it.
pub uninterp spec fn decoded_of(secret: Seq<u8>, token: Seq<char>) -> Option<(Seq<char>, u64)>;

/// Relies on jsonwebtoken::encode with HS256: for an HMAC secret and a plain
/// claim map the encoding cannot fail, and the token is a function of the
/// secret and the claims alone.
#[verifier::external_body]
fn jwt_encode(secret: &[u8], sub: &String, exp: u64) -> (r: String)
    ensures
        r@ == token_of(secret@, sub@, exp),
{
    let mut claims = serde_json::Map::new();
    claims.insert("sub".to_string(), serde_json::Value::String(sub.clone()));
    claims.insert("exp".to_string(), serde_json::Value::from(exp));
    let key = jsonwebtoken::EncodingKey::from_secret(secret);
    jsonwebtoken::encode(&jsonwebtoken::Header::default(), &serde_json::Value::Object(claims), &key)
        .expect("HS256 encoding of a plain claim map does not fail")
}

/// Holds when `r`, the outcome of checking `token` against `secret`, carries
/// the claims of every token that signing with `secret` can have produced:
/// if `token` reads back a claim pair under `token_of`, then `r` is exactly
/// that pair.
pub open spec fn accepts_issued_token(r: Option<(String, u64)>, secret: Seq<u8>, token: Seq<char>) -> bool {
    forall|sub: Seq<char>, exp: u64|
        token == #[trigger] token_of(secret, sub, exp)
            ==> (r matches Some(p) && p.0@ == sub && p.1 == exp)
}

/// Relies on jsonwebtoken::decode with HS256: it accepts exactly the tokens
/// whose signature matches the secret, hands back the claims they carry, and
/// in particular accepts every token jsonwebtoken::encode made with the same
/// secret. Expiry checking is disabled here so that the result depends on
/// the secret and the token alone; callers enforce expiry themselves.
#[verifier::external_body]
fn jwt_decode(secret: &[u8], token: &String) -> (r: Option<(String, u64)>)
    ensures
        match r {
            Some(p) => decoded_of(secret@, token@) == Some((p.0@, p.1)),
            None => decoded_of(secret@, token@) is None,
        },
        accepts_issued_token(r, secret@, token@),
{
    let mut validation = jsonwebtoken::Validation::new(jsonwebtoken::Algorithm::HS256);
    validation.validate_exp = false;
    validation.required_spec_claims = std::collections::HashSet::new();
    let key = jsonwebtoken::DecodingKey::from_secret(secret);
    let decoded = jsonwebtoken::decode::<serde_json::Map<String, serde_json::Value>>(
        token.as_str(), &key, &validation);
    let claims = match decoded { Ok(data) => data.claims, Err(_) => return None };
    let sub = match claims.get("sub") {
        Some(serde_json::Value::String(s)) => s.clone(),
        _ => return None,
    };
    claims.get("exp").and_then(|v| v.as_u64()).map(|exp| (sub, exp))
}

/// Issues a token for `email` that expires one lifetime after `now_secs`.
pub fn create_token(secret: &[u8], email: &String, now_secs: u64) -> (r: String)
    requires
        now_secs + TOKEN_LIFETIME_SECS <= u64::MAX,
    ensures
        r@ == token_of(secret@, email@, (now_secs + TOKEN_LIFETIME_SECS) as u64),
{
    jwt_encode(secret, email, now_secs + TOKEN_LIFETIME_SECS)
}

/// Checks a bearer token: the signature must match `secret` and the carried
/// expiry must lie strictly after `now_secs`. A missing, garbled, forged or
/// expired token is reported only as `Unauthenticated`, so that callers
/// cannot leak which of these happened.
pub fn validate_token(secret: &[u8], token: &String, now_secs: u64) -> (r: Result<Claims, ApiError>)
    ensures
        r is Ok <==> (decoded_of(secret@, token@) matches Some(p) && p.1 > now_secs),
        r matches Ok(c) ==> decoded_of(secret@, token@) == Some((c.sub@, c.exp)) && c.exp > now_secs,
        r matches Err(e) ==> e == ApiError::Unauthenticated,
        forall|sub: Seq<char>, exp: u64|
            token@ == #[trigger] token_of(secret@, sub, exp) && exp > now_secs
                ==> (r matches Ok(c) && c.sub@ == sub && c.exp == exp),
        forall|sub: Seq<char>, exp: u64|
            token@ == #[trigger] token_of(secret@, sub, exp) && exp <= now_secs ==> r is Err,
{
    match jwt_decode(secret, token) {
        Some(p) => {
            if p.1 > now_secs {
                Ok(Claims { sub: p.0, exp: p.1 })
            } else {
                Err(ApiError::Unauthenticated)
            }
        },
        None => Err(ApiError::Unauthenticated),
    }
}

} // verus!
