//! Token issuance and verification: an ephemeral claims value — the user's id
//! and an absolute expiry — signed into a compact token with a symmetric key.

use vstd::prelude::*;

verus! {

/// Seconds a freshly issued token stays valid: a token's expiry is its
/// issuance time plus this fixed window.
pub const TOKEN_LIFETIME_SECS: u64 = 10000;

/// The signed token payload: the holder's user id — the only authorization
/// fact a token carries — and an absolute expiry timestamp in seconds since
/// the Unix epoch.
#[derive(Clone, Copy, PartialEq, Eq, Structural, Debug)]
pub struct Claims {
    pub id: u64,
    pub exp: u64,
}

/// The compact token that `jsonwebtoken::encode` produces, under a default
/// (HS256) header and the symmetric key `secret`, for a payload carrying the
/// claims `(id, exp)`: a pure function of the secret and the claims.
pub uninterp spec fn token_of(secret: Seq<u8>, id: u64, exp: u64) -> Seq<char>;

/// The claims that `jsonwebtoken::decode` recovers from `token` under
/// `secret` when only the signature is checked (expiry validation off): a
/// pure function of the secret and the token, `None` where signature
/// verification or claim parsing fails.
pub uninterp spec fn claims_of(secret: Seq<u8>, token: Seq<char>) -> Option<(u64, u64)>;

/// Relies on `jsonwebtoken::encode`: under a default (HS256) header and an
/// HMAC key the token is computed from the secret and the claims alone, and
/// `jsonwebtoken::decode` with the same secret recovers the claims. For an
/// HMAC key and a payload of two plain integers the call cannot fail.
#[verifier::external_body]
fn encode_claims(secret: &[u8], id: u64, exp: u64) -> (r: String)
    ensures
        r@ == token_of(secret@, id, exp),
        claims_of(secret@, r@) == Some((id, exp)),
{
    let mut payload = serde_json::Map::new();
    payload.insert("id".to_owned(), serde_json::Value::from(id));
    payload.insert("exp".to_owned(), serde_json::Value::from(exp));
    let key = jsonwebtoken::EncodingKey::from_secret(secret);
    jsonwebtoken::encode(&jsonwebtoken::Header::default(), &payload, &key).unwrap()
}

/// Relies on `jsonwebtoken::decode`: verifies the HS256 signature with the
/// given secret and deserializes the claims; expiry validation is switched
/// off, so the result depends on the secret and the token alone.
#[verifier::external_body]
fn decode_claims(secret: &[u8], token: &str) -> (r: Option<(u64, u64)>)
    ensures
        r == claims_of(secret@, token@),
{
    let key = jsonwebtoken::DecodingKey::from_secret(secret);
    let mut validation = jsonwebtoken::Validation::new(jsonwebtoken::Algorithm::HS256);
    validation.validate_exp = false;
    let data = match jsonwebtoken::decode::<serde_json::Value>(token, &key, &validation) {
        Ok(data) => data,
        Err(_) => return None,
    };
    let id = data.claims.get("id").and_then(serde_json::Value::as_u64);
    let exp = data.claims.get("exp").and_then(serde_json::Value::as_u64);
    match (id, exp) {
        (Some(id), Some(exp)) => Some((id, exp)),
        _ => None,
    }
}

/// Relies on `jsonwebtoken::get_current_timestamp`: the system clock read as
/// seconds since the Unix epoch; nothing is promised of its value.
#[verifier::external_body]
pub(crate) fn current_timestamp() -> u64 {
    jsonwebtoken::get_current_timestamp()
}

/// Build the claims for a login succeeding at time `now`: the expiry is
/// computed from the issuance time, never reused, and lies strictly after it.
pub fn make_claims(id: u64, now: u64) -> (r: Claims)
    requires
        now <= u64::MAX - TOKEN_LIFETIME_SECS,
    ensures
        r.id == id,
        r.exp == now + TOKEN_LIFETIME_SECS,
        r.exp > now,
{
    Claims { id, exp: now + TOKEN_LIFETIME_SECS }
}

/// Sign the claims with the symmetric key, yielding the compact token whose
/// decoded payload is exactly the claims.
pub fn sign_claims(secret: &[u8], claims: &Claims) -> (r: String)
    ensures
        r@ == token_of(secret@, claims.id, claims.exp),
        claims_of(secret@, r@) == Some((claims.id, claims.exp)),
{
    encode_claims(secret, claims.id, claims.exp)
}

/// Check a token's signature against the symmetric key and hand back the
/// claims it carries; the expiry is reported, not judged, here.
pub fn verify_token(secret: &[u8], token: &str) -> (r: Option<Claims>)
    ensures
        r == (match claims_of(secret@, token@) {
            Some(c) => Some(Claims { id: c.0, exp: c.1 }),
            None => None::<Claims>,
        }),
{
    match decode_claims(secret, token) {
        Some((id, exp)) => Some(Claims { id, exp }),
        None => None,
    }
}

} // verus!
