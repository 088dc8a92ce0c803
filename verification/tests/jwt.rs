//! The JWT codec: issuance, verification, expiry, and rejection of
//! malformed, tampered and algorithm-confused tokens.

use officer::util::jwt::{create_token, validate_token, SigningError, VerificationError};

const SECRET: &[u8] = b"0123456789abcdef0123456789abcdef";

#[test]
fn issue_then_validate_before_expiry() {
    let token = create_token("a@x.com", SECRET, 1_000, 3_600).unwrap();
    let claims = validate_token(&token, SECRET, 1_001).unwrap();
    assert_eq!(claims.sub, "a@x.com");
    assert_eq!(claims.exp, 4_600);
}

#[test]
fn issued_token_expires() {
    let token = create_token("a@x.com", SECRET, 1_000, 3_600).unwrap();
    let at_expiry = validate_token(&token, SECRET, 4_600);
    assert!(matches!(at_expiry, Err(VerificationError::Expired)));
    let after_expiry = validate_token(&token, SECRET, 10_000);
    assert!(matches!(after_expiry, Err(VerificationError::Expired)));
}

#[test]
fn short_secret_is_rejected() {
    let r = create_token("a@x.com", b"too-short", 1_000, 3_600);
    assert!(matches!(r, Err(SigningError::SecretTooShort)));
}

#[test]
fn garbage_token_is_malformed() {
    let r = validate_token("not a token at all", SECRET, 0);
    assert!(matches!(r, Err(VerificationError::Malformed)));
}

#[test]
fn wrong_secret_is_bad_signature() {
    let token = create_token("a@x.com", SECRET, 1_000, 3_600).unwrap();
    let other: &[u8] = b"xxxxxxxxxxxxxxxxxxxxxxxxxxxxxxxx";
    let r = validate_token(&token, other, 1_001);
    assert!(matches!(r, Err(VerificationError::BadSignature)));
}

#[test]
fn tampered_signature_is_bad_signature() {
    let token = create_token("a@x.com", SECRET, 1_000, 3_600).unwrap();
    let dot = token.rfind('.').unwrap();
    let (head, signature) = token.split_at(dot + 1);
    // Flip one character of the signature segment to another base64url
    // character; every such tampering must be reported, never accepted.
    for i in 0..signature.len() {
        let mut bytes = signature.as_bytes().to_vec();
        bytes[i] = if bytes[i] == b'A' { b'B' } else { b'A' };
        let tampered = format!("{}{}", head, String::from_utf8(bytes).unwrap());
        if tampered == token {
            continue;
        }
        let r = validate_token(&tampered, SECRET, 1_001);
        assert!(matches!(r, Err(VerificationError::BadSignature)));
    }
}

#[test]
fn token_signed_with_other_algorithm_is_rejected() {
    // A token signed HS384 under the very same secret must not pass a codec
    // that verifies HS256.
    let mut claims = serde_json::Map::new();
    claims.insert("sub".to_owned(), serde_json::Value::String("a@x.com".to_owned()));
    claims.insert("exp".to_owned(), serde_json::Value::from(9_999_999_999u64));
    let header = jsonwebtoken::Header::new(jsonwebtoken::Algorithm::HS384);
    let key = jsonwebtoken::EncodingKey::from_secret(SECRET);
    let token = jsonwebtoken::encode(&header, &serde_json::Value::Object(claims), &key).unwrap();
    let r = validate_token(&token, SECRET, 0);
    assert!(matches!(r, Err(VerificationError::Malformed)));
}

#[test]
fn token_without_subject_is_malformed() {
    let mut claims = serde_json::Map::new();
    claims.insert("exp".to_owned(), serde_json::Value::from(9_999_999_999u64));
    let header = jsonwebtoken::Header::new(jsonwebtoken::Algorithm::HS256);
    let key = jsonwebtoken::EncodingKey::from_secret(SECRET);
    let token = jsonwebtoken::encode(&header, &serde_json::Value::Object(claims), &key).unwrap();
    let r = validate_token(&token, SECRET, 0);
    assert!(matches!(r, Err(VerificationError::Malformed)));
}

#[test]
fn issued_token_is_not_the_subject() {
    // The signing wrapper must hand back a real token, not its argument.
    let token = create_token("a@x.com", SECRET, 1_000, 3_600).unwrap();
    assert_ne!(token, "a@x.com");
    assert_eq!(token.matches('.').count(), 2);
}
