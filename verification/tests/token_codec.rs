use rs_kafka_mongo::auth::utils::{
    check_claims, create_jwt_at, report_decode_error, validate_jwt, validate_jwt_at, create_jwt,
    DecodeError, DecodeFault, JWTError, RawClaims,
};
use rs_kafka_mongo::config::Config;

fn config(secret: &str, hours: u64) -> Config {
    Config {
        server_addr: "0.0.0.0:8000".to_string(),
        database_url: "mongodb://localhost:27017".to_string(),
        database_name: "shop".to_string(),
        kafka_brokers: "localhost:9092".to_string(),
        kafka_product_events_topic: "product_events".to_string(),
        jwt_secret: secret.to_string(),
        jwt_expiration_hours: hours,
    }
}

fn with_last_char_changed(token: &str) -> String {
    let mut chars: Vec<char> = token.chars().collect();
    let last = chars.len() - 1;
    chars[last] = if chars[last] == 'A' { 'B' } else { 'A' };
    chars.into_iter().collect()
}

#[test]
fn issued_token_carries_subject_and_expiry() {
    let cfg = config("top-secret", 24);
    let token = create_jwt_at("user-1", &cfg, 1_700_000_000).unwrap();
    assert_eq!(token.matches('.').count(), 2);
    let claims = validate_jwt_at(&token, &cfg, 1_700_000_000).unwrap();
    assert_eq!(claims.sub, "user-1");
    assert_eq!(claims.exp, 1_700_000_000 + 24 * 3600);
}

#[test]
fn issuance_is_deterministic_for_one_second() {
    let cfg = config("top-secret", 1);
    let a = create_jwt_at("user-1", &cfg, 1_700_000_000).unwrap();
    let b = create_jwt_at("user-1", &cfg, 1_700_000_000).unwrap();
    let c = create_jwt_at("user-1", &cfg, 1_700_000_001).unwrap();
    assert_eq!(a, b);
    assert_ne!(a, c);
}

#[test]
fn token_is_good_until_the_second_before_expiry() {
    let cfg = config("k", 2);
    let issued = 1_000_000;
    let exp = issued + 2 * 3600;
    let token = create_jwt_at("abc", &cfg, issued).unwrap();
    assert!(validate_jwt_at(&token, &cfg, issued).is_ok());
    assert!(validate_jwt_at(&token, &cfg, exp - 1).is_ok());
    assert!(matches!(validate_jwt_at(&token, &cfg, exp), Err(JWTError::Expired)));
    assert!(matches!(validate_jwt_at(&token, &cfg, exp + 1), Err(JWTError::Expired)));
    assert!(matches!(validate_jwt_at(&token, &cfg, i64::MAX), Err(JWTError::Expired)));
}

#[test]
fn token_is_good_before_the_epoch() {
    let cfg = config("k", 1);
    let token = create_jwt_at("abc", &cfg, 0).unwrap();
    assert!(validate_jwt_at(&token, &cfg, -5).is_ok());
}

#[test]
fn tampered_fresh_token_is_refused_as_invalid() {
    let cfg = config("k", 1);
    let token = create_jwt_at("abc", &cfg, 1_000).unwrap();
    let forged = with_last_char_changed(&token);
    assert!(matches!(
        validate_jwt_at(&forged, &cfg, 1_000),
        Err(JWTError::ValidationFailed(_))
    ));
}

#[test]
fn tampered_expired_token_is_refused_as_invalid_not_expired() {
    let cfg = config("k", 1);
    let token = create_jwt_at("abc", &cfg, 1_000).unwrap();
    let forged = with_last_char_changed(&token);
    assert!(matches!(
        validate_jwt_at(&forged, &cfg, 1_000_000),
        Err(JWTError::ValidationFailed(_))
    ));
}

#[test]
fn emptied_signature_is_refused_as_invalid() {
    let cfg = config("k", 1);
    let token = create_jwt_at("abc", &cfg, 1_000).unwrap();
    let cut = token.rfind('.').unwrap();
    let emptied = token[..=cut].to_string();
    for at in [1_000, 1_000_000] {
        assert!(matches!(
            validate_jwt_at(&emptied, &cfg, at),
            Err(JWTError::ValidationFailed(_))
        ));
    }
}

#[test]
fn tail_with_a_dot_in_it_is_malformed_fresh_or_expired() {
    let cfg = config("k", 1);
    let token = create_jwt_at("abc", &cfg, 1_000).unwrap();
    let cut = token.rfind('.').unwrap();
    for tail in ["x.y", ".", "..", "a.b.c"] {
        let forged = format!("{}{}", &token[..=cut], tail);
        for at in [1_000, 1_000_000] {
            assert!(matches!(validate_jwt_at(&forged, &cfg, at), Err(JWTError::InvalidFormat)));
        }
    }
}

#[test]
fn signature_that_is_not_base64_is_refused_as_invalid() {
    let cfg = config("k", 1);
    let token = create_jwt_at("abc", &cfg, 1_000).unwrap();
    let cut = token.rfind('.').unwrap();
    for tail in ["!!!", "\u{e9}", " ", "=", "AAAA"] {
        let forged = format!("{}{}", &token[..=cut], tail);
        assert!(matches!(
            validate_jwt_at(&forged, &cfg, 1_000),
            Err(JWTError::ValidationFailed(_))
        ));
    }
}

#[test]
fn token_under_another_secret_is_refused() {
    let token = create_jwt_at("abc", &config("k1", 1), 1_000).unwrap();
    assert!(matches!(
        validate_jwt_at(&token, &config("k2", 1), 1_000),
        Err(JWTError::ValidationFailed(_))
    ));
}

#[test]
fn text_without_three_parts_is_malformed() {
    let cfg = config("k", 1);
    assert!(matches!(validate_jwt_at("", &cfg, 0), Err(JWTError::InvalidFormat)));
    assert!(matches!(validate_jwt_at("abc", &cfg, 0), Err(JWTError::InvalidFormat)));
    assert!(matches!(validate_jwt_at("a.b", &cfg, 0), Err(JWTError::InvalidFormat)));
}

#[test]
fn parts_that_are_not_encoded_are_malformed() {
    let cfg = config("s", 1);
    for text in ["a.b.c", "..", "!.!.!", "e30.e30.", "bm90IGpzb24.e30.x", "\u{e9}.\u{e9}.\u{e9}"] {
        assert!(matches!(validate_jwt_at(text, &cfg, 0), Err(JWTError::InvalidFormat)));
    }
}

#[test]
fn payload_that_is_not_json_is_malformed_though_the_signature_is_good() {
    let cfg = config("k", 1);
    let header = "eyJ0eXAiOiJKV1QiLCJhbGciOiJIUzI1NiJ9";
    let key = jsonwebtoken::EncodingKey::from_secret(b"k");
    for payload in ["bm90IGpzb24", "!!!"] {
        let message = format!("{}.{}", header, payload);
        let signature =
            jsonwebtoken::crypto::sign(message.as_bytes(), &key, jsonwebtoken::Algorithm::HS256)
                .unwrap();
        let token = format!("{}.{}", message, signature);
        assert!(matches!(validate_jwt_at(&token, &cfg, 0), Err(JWTError::InvalidFormat)));
    }
}

#[test]
fn well_formed_token_for_another_algorithm_is_refused_as_invalid() {
    let cfg = config("k", 1);
    let header = "eyJ0eXAiOiJKV1QiLCJhbGciOiJIUzM4NCJ9";
    let token = format!("{}.e30.c2ln", header);
    assert!(matches!(validate_jwt_at(&token, &cfg, 0), Err(JWTError::ValidationFailed(_))));
}

#[test]
fn well_signed_token_without_expiry_is_refused_as_invalid() {
    let cfg = config("k", 1);
    let header = "eyJ0eXAiOiJKV1QiLCJhbGciOiJIUzI1NiJ9";
    let message = format!("{}.eyJzdWIiOiJ1In0", header);
    let key = jsonwebtoken::EncodingKey::from_secret(b"k");
    let signature =
        jsonwebtoken::crypto::sign(message.as_bytes(), &key, jsonwebtoken::Algorithm::HS256)
            .unwrap();
    let token = format!("{}.{}", message, signature);
    assert!(matches!(validate_jwt_at(&token, &cfg, 0), Err(JWTError::ValidationFailed(_))));
}

#[test]
fn expiry_out_of_range_fails_issuance() {
    let cfg = config("k", u64::MAX);
    match create_jwt_at("abc", &cfg, 0) {
        Err(JWTError::CreationFailed(cause)) => assert_eq!(cause, "expiry out of range"),
        other => panic!("unexpected: {:?}", other),
    }
    let cfg = config("k", 0);
    assert!(matches!(create_jwt_at("abc", &cfg, -1), Err(JWTError::CreationFailed(_))));
    assert!(create_jwt_at("abc", &cfg, 0).is_ok());
}

#[test]
fn zero_hours_gives_a_token_that_is_already_expired() {
    let cfg = config("k", 0);
    let token = create_jwt_at("abc", &cfg, 500).unwrap();
    assert!(matches!(validate_jwt_at(&token, &cfg, 500), Err(JWTError::Expired)));
    assert!(validate_jwt_at(&token, &cfg, 499).is_ok());
}

#[test]
fn subject_with_quotes_and_unicode_round_trips() {
    let cfg = config("k", 1);
    let sub = "a\"b\\c\n\u{e9}\u{1F600}";
    let token = create_jwt_at(sub, &cfg, 10).unwrap();
    assert_eq!(validate_jwt_at(&token, &cfg, 10).unwrap().sub, sub);
}

#[test]
fn check_claims_decides_by_the_clock() {
    let raw = RawClaims { sub: Some("u".to_string()), exp: Some(100) };
    let claims = check_claims(raw, 99).unwrap();
    assert_eq!(claims.sub, "u");
    assert_eq!(claims.exp, 100);
    let raw = RawClaims { sub: Some("u".to_string()), exp: Some(100) };
    assert!(matches!(check_claims(raw, 100), Err(JWTError::Expired)));
}

#[test]
fn check_claims_refuses_incomplete_claims() {
    let raw = RawClaims { sub: None, exp: Some(100) };
    match check_claims(raw, 0) {
        Err(JWTError::ValidationFailed(cause)) => assert_eq!(cause, "incomplete claims"),
        other => panic!("unexpected: {:?}", other),
    }
    let raw = RawClaims { sub: Some("u".to_string()), exp: None };
    assert!(matches!(check_claims(raw, 0), Err(JWTError::ValidationFailed(_))));
}

#[test]
fn decode_errors_are_reported_by_kind() {
    let e = DecodeError { kind: DecodeFault::InvalidToken, message: "m".to_string() };
    assert!(matches!(report_decode_error(e), JWTError::InvalidFormat));
    let e = DecodeError { kind: DecodeFault::InvalidSignature, message: "m".to_string() };
    match report_decode_error(e) {
        JWTError::ValidationFailed(cause) => assert_eq!(cause, "m"),
        other => panic!("unexpected: {:?}", other),
    }
    let e = DecodeError { kind: DecodeFault::Encoding, message: "m".to_string() };
    assert!(matches!(report_decode_error(e), JWTError::InvalidFormat));
    let e = DecodeError { kind: DecodeFault::Other, message: "n".to_string() };
    match report_decode_error(e) {
        JWTError::ValidationFailed(cause) => assert_eq!(cause, "n"),
        other => panic!("unexpected: {:?}", other),
    }
}

#[test]
fn error_messages_name_the_cause() {
    assert_eq!(
        JWTError::CreationFailed("x".to_string()).message(),
        "JWT creation error: x"
    );
    assert_eq!(
        JWTError::ValidationFailed("y".to_string()).message(),
        "JWT validation error: y"
    );
    assert_eq!(JWTError::Expired.message(), "JWT has expired");
    assert_eq!(JWTError::InvalidFormat.message(), "Invalid JWT format");
}

#[test]
fn token_of_now_is_valid_now() {
    let cfg = config("k", 1);
    let token = create_jwt("abc", &cfg).unwrap();
    let claims = validate_jwt(&token, &cfg).unwrap();
    assert_eq!(claims.sub, "abc");
}
