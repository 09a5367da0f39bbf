//! Identity resolution: bearer-token issuance and validation.
//!
//! The cryptographic work is done by the token library behind two trusted
//! wrappers; both are deterministic functions of their arguments, named by
//! `token_of` and `claims_of`.  The expiry decision is made here, against a
//! caller-supplied clock reading, and every validation failure — bad
//! signature, malformed structure, past expiry — collapses to the one
//! `InvalidCredential` error.

use vstd::prelude::*;

verus! {

/// The claims a token embeds: subject id, issue time and expiry, both in
/// epoch seconds.
pub struct Claims {
    pub sub: String,
    pub exp: u64,
    pub iat: u64,
}

impl Claims {
    /// The claims of a token issued at `now` that lives `ttl_secs`.
    pub fn new(user_id: &str, now: u64, ttl_secs: u64) -> (r: Claims)
        requires
            now + ttl_secs <= u64::MAX,
        ensures
            r.sub@ == user_id@,
            r.iat == now,
            r.exp == now + ttl_secs,
    {
        Claims { sub: user_id.to_owned(), exp: now + ttl_secs, iat: now }
    }
}

/// Every validation failure is this one error: which check failed is not
/// revealed.
#[derive(Clone, Copy, PartialEq, Eq, Structural, Debug)]
pub enum AuthError {
    InvalidCredential,
}

/// The signed token that encodes the claims `(sub, iat, exp)` under the
/// given secret.
pub uninterp spec fn token_of(sub: Seq<char>, iat: int, exp: int, secret: Seq<char>) -> Seq<char>;

/// The claims `(sub, iat, exp)` a token embeds under the given secret, if
/// its signature and structure are valid.
pub uninterp spec fn claims_of(token: Seq<char>, secret: Seq<char>) -> Option<(Seq<char>, int, int)>;

/// Relies on `jsonwebtoken::encode` (HS256, default header) over a
/// `serde_json` object with the fields `sub`, `iat`, `exp`: HMAC signing and
/// the object serialization make the token a deterministic function of the
/// claims and the secret.
#[verifier::external_body]
fn encode_claims(claims: &Claims, secret: &str) -> (r: Option<String>)
    ensures
        r matches Some(t) ==> t@ == token_of(
            claims.sub@,
            claims.iat as int,
            claims.exp as int,
            secret@,
        ),
{
    let mut m = serde_json::Map::new();
    m.insert("sub".to_string(), serde_json::Value::from(claims.sub.clone()));
    m.insert("iat".to_string(), serde_json::Value::from(claims.iat));
    m.insert("exp".to_string(), serde_json::Value::from(claims.exp));
    jsonwebtoken::encode(
        &jsonwebtoken::Header::default(),
        &serde_json::Value::Object(m),
        &jsonwebtoken::EncodingKey::from_secret(secret.as_bytes()),
    )
        .ok()
}

/// Relies on `jsonwebtoken::decode` with signature verification on and the
/// expiry clock check turned off: the result is then a deterministic
/// function of the token and the secret — signature check, base64 and JSON
/// decoding only.  The expiry decision is made by the caller.
#[verifier::external_body]
fn decode_claims(token: &str, secret: &str) -> (r: Option<Claims>)
    ensures
        r matches Some(c) ==> claims_of(token@, secret@) == Some(
            (c.sub@, c.iat as int, c.exp as int),
        ),
        r is None ==> claims_of(token@, secret@) is None,
{
    let mut validation = jsonwebtoken::Validation::default();
    validation.validate_exp = false;
    let key = jsonwebtoken::DecodingKey::from_secret(secret.as_bytes());
    let d = jsonwebtoken::decode::<serde_json::Value>(token, &key, &validation).ok()?;
    let sub = d.claims.get("sub").and_then(|v| v.as_str())?.to_string();
    let iat = d.claims.get("iat").and_then(|v| v.as_u64())?;
    let exp = d.claims.get("exp").and_then(|v| v.as_u64())?;
    Some(Claims { sub, exp, iat })
}

/// The subject a credential resolves to at time `now`: the embedded subject
/// when the claims decoded and the expiry lies ahead, nothing otherwise.
pub open spec fn spec_token_verdict(claims: Option<(Seq<char>, int, int)>, now: int) -> Option<
    Seq<char>,
> {
    match claims {
        Some(c) => if c.2 > now {
            Some(c.0)
        } else {
            None
        },
        None => None,
    }
}

/// The expiry decision on already-decoded claims: the subject when the
/// expiry lies ahead of `now`, `InvalidCredential` otherwise.
pub fn check_claims(claims: Option<Claims>, now: u64) -> (r: Result<String, AuthError>)
    ensures
        match r {
            Ok(s) => match claims {
                Some(c) => c.exp > now && s@ == c.sub@,
                None => false,
            },
            Err(e) => e == AuthError::InvalidCredential && match claims {
                Some(c) => c.exp <= now,
                None => true,
            },
        },
{
    match claims {
        Some(c) => {
            if c.exp > now {
                Ok(c.sub)
            } else {
                Err(AuthError::InvalidCredential)
            }
        },
        None => Err(AuthError::InvalidCredential),
    }
}

/// Issues a signed token for the subject, valid from `now` for `ttl_secs`.
pub fn generate_token(user_id: &str, secret: &str, now: u64, ttl_secs: u64) -> (r: Result<
    String,
    String,
>)
    requires
        now + ttl_secs <= u64::MAX,
    ensures
        r matches Ok(t) ==> t@ == token_of(
            user_id@,
            now as int,
            (now + ttl_secs) as int,
            secret@,
        ),
        r matches Err(e) ==> e@ == "Token generation failed"@,
{
    let claims = Claims::new(user_id, now, ttl_secs);
    match encode_claims(&claims, secret) {
        Some(t) => Ok(t),
        None => Err("Token generation failed".to_owned()),
    }
}

/// Validates a bearer token at time `now`: returns the embedded subject
/// exactly when the signature, the structure and the expiry all check out,
/// and the one `InvalidCredential` error otherwise.
pub fn validate_token(token: &str, secret: &str, now: u64) -> (r: Result<String, AuthError>)
    ensures
        match r {
            Ok(s) => Some(s@) == spec_token_verdict(claims_of(token@, secret@), now as int),
            Err(e) => e == AuthError::InvalidCredential && spec_token_verdict(
                claims_of(token@, secret@),
                now as int,
            ) is None,
        },
{
    let claims = decode_claims(token, secret);
    check_claims(claims, now)
}

/// Law: a well-formed token whose embedded expiry is past is rejected with
/// the very verdict a malformed token gets — no information leaks about
/// which check failed.
pub proof fn lemma_expired_like_malformed(claims: (Seq<char>, int, int), now: int)
    requires
        claims.2 <= now,
    ensures
        spec_token_verdict(Some(claims), now) == spec_token_verdict(None, now),
        spec_token_verdict(Some(claims), now) is None,
{
}

} // verus!
