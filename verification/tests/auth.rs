//! Credential hashing, the token codec and request authentication, exercised
//! end to end with the real hashing and signing libraries linked in.

use expense_tracker::errors::AppError;
use expense_tracker::auth::{authenticate, Rejection};
use expense_tracker::hashing::{hash_password, verify_password};
use expense_tracker::ids::Id;
use expense_tracker::token::{create_jwt, decode_jwt, Claims, TokenError};

const SECRET: &str = "an-adequately-long-test-secret-0123456789";
const OTHER_SECRET: &str = "a-different-equally-long-secret-9876543210";
const NOW: i64 = 1_700_000_000;
const USER_ID: &str = "123e4567-e89b-12d3-a456-426614174000";

fn uid() -> Id {
    Id::parse(USER_ID).unwrap()
}

#[test]
fn hash_then_verify_succeeds() {
    let hash = hash_password("longenough1").unwrap();
    assert!(verify_password("longenough1", &hash).is_ok());
}

#[test]
fn verify_rejects_other_password() {
    let hash = hash_password("correct horse battery").unwrap();
    let err = verify_password("wrong horse battery", &hash).unwrap_err();
    assert!(matches!(err, AppError::Authentication(ref m) if m == "Invalid credentials"));
}

#[test]
fn hashes_of_equal_passwords_differ_but_both_verify() {
    let h1 = hash_password("longenough1").unwrap();
    let h2 = hash_password("longenough1").unwrap();
    assert_ne!(h1, h2);
    assert!(verify_password("longenough1", &h1).is_ok());
    assert!(verify_password("longenough1", &h2).is_ok());
}

#[test]
fn malformed_stored_hash_reads_as_wrong_password() {
    let err = verify_password("longenough1", "not-a-phc-string").unwrap_err();
    assert!(matches!(err, AppError::Authentication(ref m) if m == "Invalid credentials"));
}

#[test]
fn mint_then_decode_returns_subject() {
    let token = create_jwt(&uid(), SECRET, 24, NOW).unwrap();
    let claims = decode_jwt(&token, SECRET, NOW + 1).unwrap();
    assert_eq!(claims.sub, USER_ID);
    assert_eq!(claims.exp, NOW + 24 * 3600);
}

#[test]
fn decode_just_before_expiry_succeeds() {
    let token = create_jwt(&uid(), SECRET, 1, NOW).unwrap();
    let claims = decode_jwt(&token, SECRET, NOW + 3599).unwrap();
    assert_eq!(claims.sub, USER_ID);
}

#[test]
fn decode_at_expiry_fails_expired() {
    let token = create_jwt(&uid(), SECRET, 1, NOW).unwrap();
    let err = decode_jwt(&token, SECRET, NOW + 3600).unwrap_err();
    assert_eq!(err, TokenError::Expired);
}

#[test]
fn decode_with_other_secret_fails_invalid_signature() {
    let token = create_jwt(&uid(), OTHER_SECRET, 24, NOW).unwrap();
    let err = decode_jwt(&token, SECRET, NOW).unwrap_err();
    assert_eq!(err, TokenError::InvalidSignature);
}

#[test]
fn decode_rejects_non_token() {
    assert_eq!(decode_jwt("nonsense", SECRET, NOW).unwrap_err(), TokenError::Malformed);
    assert_eq!(decode_jwt("a.b.c", SECRET, NOW).unwrap_err(), TokenError::Malformed);
    assert_eq!(decode_jwt("", SECRET, NOW).unwrap_err(), TokenError::Malformed);
}

/// Replaces the character at `pos` with one that decodes to different bits:
/// the url-safe alphabet character whose six-bit value has its top bit
/// flipped, so the change survives even in a partially used final character.
fn flip_base64url_char(token: &str, pos: usize) -> String {
    let alphabet = "ABCDEFGHIJKLMNOPQRSTUVWXYZabcdefghijklmnopqrstuvwxyz0123456789-_";
    let mut bytes: Vec<u8> = token.bytes().collect();
    let value = alphabet
        .bytes()
        .position(|a| a == bytes[pos])
        .expect("token segments are url-safe base64");
    bytes[pos] = alphabet.as_bytes()[value ^ 32];
    String::from_utf8(bytes).unwrap()
}

#[test]
fn tampering_with_payload_or_signature_fails_decode() {
    let token = create_jwt(&uid(), SECRET, 24, NOW).unwrap();
    assert!(decode_jwt(&token, SECRET, NOW).is_ok());
    let first_dot = token.find('.').unwrap();
    let second_dot = first_dot + 1 + token[first_dot + 1..].find('.').unwrap();
    for pos in first_dot + 1..token.len() {
        if pos == second_dot {
            continue;
        }
        let mutated = flip_base64url_char(&token, pos);
        assert!(
            decode_jwt(&mutated, SECRET, NOW).is_err(),
            "mutation at byte {} was accepted",
            pos
        );
    }
}

#[test]
fn decode_accepts_independently_encoded_token() {
    let mut claims = serde_json::Map::new();
    claims.insert("sub".to_owned(), serde_json::Value::String(USER_ID.to_owned()));
    claims.insert(
        "exp".to_owned(),
        serde_json::Value::Number(serde_json::Number::from(NOW + 600)),
    );
    let token = jsonwebtoken::encode(
        &jsonwebtoken::Header::default(),
        &serde_json::Value::Object(claims),
        &jsonwebtoken::EncodingKey::from_secret(SECRET.as_bytes()),
    )
    .unwrap();
    let decoded = decode_jwt(&token, SECRET, NOW).unwrap();
    assert_eq!(decoded.sub, USER_ID);
    assert_eq!(decoded.exp, NOW + 600);
}

#[test]
fn decode_rejects_foreign_algorithm() {
    let mut claims = serde_json::Map::new();
    claims.insert("sub".to_owned(), serde_json::Value::String(USER_ID.to_owned()));
    claims.insert(
        "exp".to_owned(),
        serde_json::Value::Number(serde_json::Number::from(NOW + 600)),
    );
    let token = jsonwebtoken::encode(
        &jsonwebtoken::Header::new(jsonwebtoken::Algorithm::HS384),
        &serde_json::Value::Object(claims),
        &jsonwebtoken::EncodingKey::from_secret(SECRET.as_bytes()),
    )
    .unwrap();
    let err = decode_jwt(&token, SECRET, NOW).unwrap_err();
    assert_eq!(err, TokenError::AlgorithmMismatch);
}

#[test]
fn claims_new_builds_subject_and_expiry() {
    let claims = Claims::new(&uid(), 24, NOW);
    assert_eq!(claims.sub, USER_ID);
    assert_eq!(claims.exp, NOW + 24 * 3600);
}

#[test]
fn authenticate_accepts_bearer_token() {
    let token = create_jwt(&uid(), SECRET, 24, NOW).unwrap();
    let header = format!("Bearer {}", token);
    let user = authenticate(Some(&header), Some(SECRET), NOW).unwrap();
    assert_eq!(user.user_id.as_str(), USER_ID);
}

#[test]
fn authenticate_rejects_missing_or_non_bearer_header() {
    let rej = authenticate(None, Some(SECRET), NOW).unwrap_err();
    assert_eq!(rej, Rejection::MissingHeader);
    assert_eq!(rej.status(), 401);
    assert_eq!(rej.message(), "Missing authorization header");
    let token = create_jwt(&uid(), SECRET, 24, NOW).unwrap();
    let basic = format!("Basic {}", token);
    assert_eq!(
        authenticate(Some(&basic), Some(SECRET), NOW).unwrap_err(),
        Rejection::MissingHeader
    );
}

#[test]
fn authenticate_reports_missing_secret_as_server_fault() {
    let token = create_jwt(&uid(), SECRET, 24, NOW).unwrap();
    let header = format!("Bearer {}", token);
    let rej = authenticate(Some(&header), None, NOW).unwrap_err();
    assert_eq!(rej, Rejection::NotConfigured);
    assert_eq!(rej.status(), 500);
    assert_eq!(rej.message(), "JWT secret not configured");
}

#[test]
fn authenticate_collapses_all_decode_failures() {
    let token = create_jwt(&uid(), OTHER_SECRET, 24, NOW).unwrap();
    let header = format!("Bearer {}", token);
    let wrong_key = authenticate(Some(&header), Some(SECRET), NOW).unwrap_err();
    assert_eq!(wrong_key, Rejection::InvalidToken);
    assert_eq!(wrong_key.message(), "Invalid or expired token");
    let expired_token = create_jwt(&uid(), SECRET, 1, NOW - 7200).unwrap();
    let header = format!("Bearer {}", expired_token);
    let expired = authenticate(Some(&header), Some(SECRET), NOW).unwrap_err();
    assert_eq!(expired, Rejection::InvalidToken);
    assert_eq!(expired.message(), "Invalid or expired token");
    let garbage = "Bearer not-a-token".to_owned();
    let garbled = authenticate(Some(&garbage), Some(SECRET), NOW).unwrap_err();
    assert_eq!(garbled, Rejection::InvalidToken);
}

#[test]
fn authenticate_rejects_non_identifier_subject() {
    let mut claims = serde_json::Map::new();
    claims.insert("sub".to_owned(), serde_json::Value::String("root".to_owned()));
    claims.insert(
        "exp".to_owned(),
        serde_json::Value::Number(serde_json::Number::from(NOW + 600)),
    );
    let token = jsonwebtoken::encode(
        &jsonwebtoken::Header::default(),
        &serde_json::Value::Object(claims),
        &jsonwebtoken::EncodingKey::from_secret(SECRET.as_bytes()),
    )
    .unwrap();
    let header = format!("Bearer {}", token);
    let rej = authenticate(Some(&header), Some(SECRET), NOW).unwrap_err();
    assert_eq!(rej, Rejection::InvalidSubject);
    assert_eq!(rej.message(), "Invalid user ID in token");
}

#[test]
fn id_parse_accepts_only_canonical_form() {
    assert!(Id::parse(USER_ID).is_some());
    assert_eq!(Id::parse(USER_ID).unwrap().to_text(), USER_ID);
    assert!(Id::parse("123E4567-E89B-12D3-A456-426614174000").is_none());
    assert!(Id::parse("123e4567e89b12d3a456426614174000").is_none());
    assert!(Id::parse("{123e4567-e89b-12d3-a456-426614174000}").is_none());
    assert!(Id::parse("123e4567-e89b-12d3-a456-42661417400").is_none());
    assert!(Id::parse("123e4567-e89b-12d3-a456-4266141740000").is_none());
    assert!(Id::parse("123e4567-e89b-12d3-a456-42661417400g").is_none());
    assert!(Id::parse("").is_none());
}

#[test]
fn decode_accepts_noncanonical_payload_with_same_claims() {
    let mut claims = serde_json::Map::new();
    claims.insert("sub".to_owned(), serde_json::Value::String(USER_ID.to_owned()));
    claims.insert(
        "exp".to_owned(),
        serde_json::Value::Number(serde_json::Number::from(NOW + 600)),
    );
    claims.insert("extra".to_owned(), serde_json::Value::Bool(true));
    let token = jsonwebtoken::encode(
        &jsonwebtoken::Header::default(),
        &serde_json::Value::Object(claims),
        &jsonwebtoken::EncodingKey::from_secret(SECRET.as_bytes()),
    )
    .unwrap();
    let minted = create_jwt(&uid(), SECRET, 24, NOW).unwrap();
    assert_ne!(token, minted);
    let decoded = decode_jwt(&token, SECRET, NOW).unwrap();
    assert_eq!(decoded.sub, USER_ID);
    assert_eq!(decoded.exp, NOW + 600);
    let header = format!("Bearer {}", token);
    let user = authenticate(Some(&header), Some(SECRET), NOW).unwrap();
    assert_eq!(user.user_id.as_str(), USER_ID);
}
