//! JWT codec: issues a signed, time-bounded token for a subject, and
//! verifies such a token, recovering the embedded claims.
//!
//! Signing and signature checking are done by the `jsonwebtoken` crate with
//! the HS256 algorithm; both directions use the same algorithm, and a token
//! whose header names any other algorithm is rejected. Expiry is checked
//! here, in verified code, against a caller-supplied clock reading, so that
//! the expiry rule is part of the verified contract.

use vstd::prelude::*;

use jsonwebtoken::errors::ErrorKind;
use jsonwebtoken::{decode, encode, Algorithm, DecodingKey, EncodingKey, Header, Validation};
use serde_json::Value;

verus! {

/// The least number of bytes accepted for the signing secret.
pub const MIN_SECRET_BYTES: usize = 32;

/// The claims a token carries: the caller's verified identity and the
/// moment, in seconds, from which the token no longer counts.
#[derive(Debug)]
pub struct Claims {
    pub sub: String,
    pub exp: u64,
}

/// Why a token was rejected.
#[derive(Clone, Copy, Debug, PartialEq, Eq, Structural)]
pub enum VerificationError {
    /// Not a well-formed token carrying the expected claims.
    Malformed,
    /// Well-formed, but the signature does not match the secret.
    BadSignature,
    /// Authentic, but its expiry lies at or before the given moment.
    Expired,
}

/// Why a token could not be issued: the signing secret has fewer than
/// `MIN_SECRET_BYTES` bytes. Nothing else makes issuance fail.
#[derive(Clone, Copy, Debug, PartialEq, Eq, Structural)]
pub enum SigningError {
    SecretTooShort,
}

/// The token that HS256 signing produces for these claims and this secret.
pub uninterp spec fn spec_hs256_token(sub: Seq<char>, exp: u64, secret: Seq<u8>) -> Seq<char>;

/// What HS256 signature checking makes of this token under this secret: the
/// subject and expiry it authentically carries, or else which of the two
/// checks failed — `Malformed` when it is not a well-formed token carrying
/// both claims under an HS256 header, `BadSignature` when only the
/// signature does not match.
pub uninterp spec fn spec_hs256_decode(token: Seq<char>, secret: Seq<u8>) -> Result<
    (Seq<char>, u64),
    VerificationError,
>;

/// The decode outcome of an authentic token carrying these claims.
pub open spec fn spec_decoded_claims(sub: Seq<char>, exp: u64) -> Result<
    (Seq<char>, u64),
    VerificationError,
> {
    Ok((sub, exp))
}

/// Relies on jsonwebtoken's `encode` with HS256: the token is a
/// deterministic function of the claims and the secret, `decode` under the
/// same secret recovers exactly the claims that were signed, and no input
/// makes the call fail — the algorithm-family check passes for a secret
/// key, serializing the fixed header and the two-entry claims object cannot
/// fail, and HMAC signing cannot fail.
#[verifier::external_body]
fn hs256_sign(sub: &str, exp: u64, secret: &[u8]) -> (r: String)
    ensures
        r@ == spec_hs256_token(sub@, exp, secret@),
        spec_hs256_decode(r@, secret@) == spec_decoded_claims(sub@, exp),
{
    let mut claims = serde_json::Map::new();
    claims.insert("sub".to_owned(), Value::String(sub.to_owned()));
    claims.insert("exp".to_owned(), Value::from(exp));
    let key = EncodingKey::from_secret(secret);
    encode(&Header::new(Algorithm::HS256), &Value::Object(claims), &key)
        .expect("HS256 signing of a plain claims object has no failure path")
}

/// Relies on jsonwebtoken's `decode` with HS256 as the only accepted
/// algorithm and expiry validation turned off: the clock is never read, so
/// the outcome is a deterministic function of the token and the secret;
/// `InvalidSignature` arises exactly when a well-formed token's signature
/// does not match, and every other failure is a malformed token.
#[verifier::external_body]
fn hs256_open(token: &str, secret: &[u8]) -> (r: Result<Claims, VerificationError>)
    ensures
        (r is Ok) == (spec_hs256_decode(token@, secret@) is Ok),
        r matches Ok(c) ==> spec_hs256_decode(token@, secret@) matches Ok(d) && d == (
            c.sub@,
            c.exp,
        ),
        r matches Err(e) ==> spec_hs256_decode(token@, secret@) matches Err(k) && k == e && (e
            == VerificationError::Malformed || e == VerificationError::BadSignature),
{
    let key = DecodingKey::from_secret(secret);
    let mut validation = Validation::new(Algorithm::HS256);
    validation.validate_exp = false;
    let data = match decode::<Value>(token, &key, &validation) {
        Ok(d) => d.claims,
        Err(e) if matches!(e.kind(), ErrorKind::InvalidSignature) => return Err(
            VerificationError::BadSignature,
        ),
        Err(_) => return Err(VerificationError::Malformed),
    };
    match (data.get("sub").and_then(Value::as_str), data.get("exp").and_then(Value::as_u64)) {
        (Some(s), Some(e)) => Ok(Claims { sub: s.to_owned(), exp: e }),
        _ => Err(VerificationError::Malformed),
    }
}

/// The claims under which a token is accepted at the moment `now`: the
/// claims it authentically carries, provided their expiry lies after `now`.
pub open spec fn spec_admitted_claims(token: Seq<char>, secret: Seq<u8>, now: u64) -> Option<
    (Seq<char>, u64),
> {
    match spec_hs256_decode(token, secret) {
        Ok(c) => if now < c.1 {
            Some(c)
        } else {
            None
        },
        Err(_) => None,
    }
}

/// Whether a token is accepted at all at the moment `now`.
pub open spec fn spec_token_admits(token: Seq<char>, secret: Seq<u8>, now: u64) -> bool {
    spec_admitted_claims(token, secret, now) is Some
}

/// Issues a token for `sub` that expires `ttl_seconds` after `now`.
///
/// Succeeds exactly when the secret has at least `MIN_SECRET_BYTES` bytes:
/// no well-formed input otherwise makes issuance fail.
pub fn create_token(sub: &str, secret: &[u8], now: u64, ttl_seconds: u64) -> (r: Result<
    String,
    SigningError,
>)
    requires
        now + ttl_seconds <= u64::MAX,
    ensures
        (r is Ok) == (secret@.len() >= MIN_SECRET_BYTES),
        r matches Err(e) ==> e == SigningError::SecretTooShort,
        r matches Ok(t) ==> {
            &&& t@ == spec_hs256_token(sub@, (now + ttl_seconds) as u64, secret@)
            &&& spec_hs256_decode(t@, secret@) == spec_decoded_claims(
                sub@,
                (now + ttl_seconds) as u64,
            )
        },
{
    if secret.len() < MIN_SECRET_BYTES {
        return Err(SigningError::SecretTooShort);
    }
    let exp: u64 = now + ttl_seconds;
    Ok(hs256_sign(sub, exp, secret))
}

/// Verifies a token against the secret at the moment `now`.
///
/// The outcome is determined by the token, the secret and `now`: the
/// embedded claims exactly when the token authentically carries claims
/// whose expiry lies after `now`; `Expired` when it is authentic but its
/// expiry has passed; otherwise exactly the failure that signature checking
/// assigns the token — `Malformed` or `BadSignature`.
pub fn validate_token(token: &str, secret: &[u8], now: u64) -> (r: Result<
    Claims,
    VerificationError,
>)
    ensures
        (r is Ok) == spec_token_admits(token@, secret@, now),
        r matches Ok(c) ==> spec_admitted_claims(token@, secret@, now) == Some((c.sub@, c.exp)),
        spec_hs256_decode(token@, secret@) matches Ok(c) && now >= c.1 ==> r == Err::<
            Claims,
            VerificationError,
        >(VerificationError::Expired),
        spec_hs256_decode(token@, secret@) matches Err(e) ==> r == Err::<
            Claims,
            VerificationError,
        >(e),
{
    match hs256_open(token, secret) {
        Ok(c) => if now < c.exp {
            Ok(c)
        } else {
            Err(VerificationError::Expired)
        },
        Err(e) => Err(e),
    }
}

/// An issued token round-trips. A token that decodes to the claims
/// `(sub, exp)` under `secret` — as every token `create_token` returns
/// does, by its contract — is accepted with exactly the subject `sub` at
/// every moment before `exp`, and is accepted at no moment from `exp` on.
pub proof fn lemma_issue_then_validate(sub: Seq<char>, exp: u64, secret: Seq<u8>, now: u64)
    ensures
        spec_hs256_decode(spec_hs256_token(sub, exp, secret), secret) == spec_decoded_claims(
            sub,
            exp,
        ) ==> spec_admitted_claims(spec_hs256_token(sub, exp, secret), secret, now)
            == (if now < exp {
            Some((sub, exp))
        } else {
            None::<(Seq<char>, u64)>
        }),
{
}

} // verus!
