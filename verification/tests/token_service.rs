use server::errors::AuthError;
use server::jwt_service::{
    claims_from_raw, JwtService, RawClaims, TokenClass, ACCESS_LIFETIME_SECS,
    REFRESH_LIFETIME_SECS,
};

const ALICE: u128 = 0x550e8400_e29b_41d4_a716_446655440000;
const ALICE_TEXT: &str = "550e8400-e29b-41d4-a716-446655440000";
const NOW: i64 = 1_700_000_000;

fn service() -> JwtService {
    JwtService::new(Some("a-test-secret"))
}

/// Signs an arbitrary payload the way a holder of the secret could.
fn sign(secret: &str, fields: Vec<(&str, serde_json::Value)>) -> String {
    let mut payload = serde_json::Map::new();
    for (name, value) in fields {
        payload.insert(name.to_string(), value);
    }
    jsonwebtoken::encode(
        &jsonwebtoken::Header::default(),
        &payload,
        &jsonwebtoken::EncodingKey::from_secret(secret.as_bytes()),
    )
    .unwrap()
}

fn text(value: &str) -> serde_json::Value {
    serde_json::Value::from(value)
}

fn number(value: u64) -> serde_json::Value {
    serde_json::Value::from(value)
}

#[test]
fn access_token_round_trip() {
    let service = service();
    let token = service.mint_at(ALICE, "a@x.com", TokenClass::Access, NOW).unwrap();
    let claims = service.verify_token_at(&token, NOW).unwrap();
    assert_eq!(claims.sub, ALICE_TEXT);
    assert_eq!(claims.email, "a@x.com");
    assert_eq!(claims.token_type, "access");
    assert_eq!(claims.iat, 1_700_000_000);
    assert_eq!(claims.exp, 1_700_000_900);
    assert_eq!(claims.exp - claims.iat, ACCESS_LIFETIME_SECS);
    assert_eq!(ACCESS_LIFETIME_SECS, 900);
}

#[test]
fn refresh_token_round_trip() {
    let service = service();
    let token = service.mint_at(ALICE, "a@x.com", TokenClass::Refresh, NOW).unwrap();
    let claims = service.verify_token_at(&token, NOW + 2_591_999).unwrap();
    assert_eq!(claims.sub, ALICE_TEXT);
    assert_eq!(claims.token_type, "refresh");
    assert_eq!(claims.exp, 1_702_592_000);
    assert_eq!(claims.exp - claims.iat, REFRESH_LIFETIME_SECS);
    assert_eq!(REFRESH_LIFETIME_SECS, 2_592_000);
}

#[test]
fn token_is_three_dotted_parts_and_not_the_claims() {
    let token = service().mint_at(ALICE, "a@x.com", TokenClass::Access, NOW).unwrap();
    assert_eq!(token.split('.').count(), 3);
    assert!(!token.contains("a@x.com"));
    assert!(!token.contains(ALICE_TEXT));
}

#[test]
fn minting_is_a_function_of_its_inputs() {
    let first = service().mint_at(ALICE, "a@x.com", TokenClass::Access, NOW).unwrap();
    let second = service().mint_at(ALICE, "a@x.com", TokenClass::Access, NOW).unwrap();
    let later = service().mint_at(ALICE, "a@x.com", TokenClass::Access, NOW + 1).unwrap();
    let other = service().mint_at(ALICE, "a@x.com", TokenClass::Refresh, NOW).unwrap();
    assert_eq!(first, second);
    assert_ne!(first, later);
    assert_ne!(first, other);
}

#[test]
fn token_verifies_up_to_its_expiry_and_not_after() {
    let service = service();
    let token = service.mint_at(ALICE, "a@x.com", TokenClass::Access, NOW).unwrap();
    assert!(service.verify_token_at(&token, NOW + 899).is_ok());
    assert!(service.verify_token_at(&token, NOW + 900).is_ok());
    assert_eq!(service.verify_token_at(&token, NOW + 901).err(), Some(AuthError::TokenExpired));
    assert_eq!(service.verify_token_at(&token, i64::MAX).err(), Some(AuthError::TokenExpired));
}

#[test]
fn token_verifies_before_it_was_issued() {
    let service = service();
    let token = service.mint_at(ALICE, "a@x.com", TokenClass::Access, NOW).unwrap();
    assert!(service.verify_token_at(&token, 0).is_ok());
    assert!(service.verify_token_at(&token, -5).is_ok());
}

#[test]
fn expiry_allows_no_leeway() {
    let token = sign(
        "a-test-secret",
        vec![
            ("sub", text(ALICE_TEXT)),
            ("email", text("a@x.com")),
            ("exp", number(1_700_000_000)),
            ("iat", number(1_699_999_100)),
            ("token_type", text("access")),
        ],
    );
    let service = service();
    assert!(service.verify_token_at(&token, 1_700_000_000).is_ok());
    assert_eq!(
        service.verify_token_at(&token, 1_700_000_001).err(),
        Some(AuthError::TokenExpired)
    );
    assert_eq!(
        service.verify_token_at(&token, 1_700_000_030).err(),
        Some(AuthError::TokenExpired)
    );
}

#[test]
fn expired_token_with_bad_signature_is_rejected_too() {
    let token = sign(
        "another-secret",
        vec![
            ("sub", text(ALICE_TEXT)),
            ("email", text("a@x.com")),
            ("exp", number(1_000)),
            ("iat", number(100)),
            ("token_type", text("access")),
        ],
    );
    assert_eq!(service().verify_token_at(&token, NOW).err(), Some(AuthError::TokenInvalid));
}

#[test]
fn flipping_any_byte_of_a_token_makes_it_invalid() {
    let service = service();
    let token = service.mint_at(ALICE, "a@x.com", TokenClass::Access, NOW).unwrap();
    assert!(token.is_ascii());
    for position in 0..token.len() {
        let mut bytes = token.clone().into_bytes();
        bytes[position] ^= 0x01;
        let tampered = String::from_utf8(bytes).unwrap();
        assert_ne!(tampered, token);
        assert_eq!(
            service.verify_token_at(&tampered, NOW).err(),
            Some(AuthError::TokenInvalid),
            "position {}",
            position
        );
    }
}

#[test]
fn token_of_another_secret_is_invalid() {
    let token = JwtService::new(Some("another-secret"))
        .mint_at(ALICE, "a@x.com", TokenClass::Access, NOW)
        .unwrap();
    assert_eq!(service().verify_token_at(&token, NOW).err(), Some(AuthError::TokenInvalid));
}

#[test]
fn text_that_is_no_token_is_invalid() {
    let service = service();
    for garbage in ["", "abc", "a.b.c", "..", "a.jwt.token", "Bearer x"] {
        assert_eq!(service.verify_token_at(garbage, NOW).err(), Some(AuthError::TokenInvalid));
    }
}

#[test]
fn token_that_lacks_a_claim_is_invalid() {
    let all = vec![
        ("sub", text(ALICE_TEXT)),
        ("email", text("a@x.com")),
        ("exp", number(1_700_000_900)),
        ("iat", number(1_700_000_000)),
        ("token_type", text("access")),
    ];
    assert!(service().verify_token_at(&sign("a-test-secret", all.clone()), NOW).is_ok());
    for left_out in ["sub", "email", "exp", "iat", "token_type"] {
        let fields = all.iter().filter(|(name, _)| *name != left_out).cloned().collect();
        let token = sign("a-test-secret", fields);
        assert_eq!(
            service().verify_token_at(&token, NOW).err(),
            Some(AuthError::TokenInvalid),
            "without {}",
            left_out
        );
    }
}

#[test]
fn token_with_a_claim_of_the_wrong_kind_is_invalid() {
    let token = sign(
        "a-test-secret",
        vec![
            ("sub", number(7)),
            ("email", text("a@x.com")),
            ("exp", number(1_700_000_900)),
            ("iat", number(1_700_000_000)),
            ("token_type", text("access")),
        ],
    );
    assert_eq!(service().verify_token_at(&token, NOW).err(), Some(AuthError::TokenInvalid));
    let token = sign(
        "a-test-secret",
        vec![
            ("sub", text(ALICE_TEXT)),
            ("email", text("a@x.com")),
            ("exp", number(1_700_000_900)),
            ("iat", text("yesterday")),
            ("token_type", text("access")),
        ],
    );
    assert_eq!(service().verify_token_at(&token, NOW).err(), Some(AuthError::TokenInvalid));
}

#[test]
fn verification_does_not_look_at_the_class() {
    let token = sign(
        "a-test-secret",
        vec![
            ("sub", text(ALICE_TEXT)),
            ("email", text("a@x.com")),
            ("exp", number(1_700_000_900)),
            ("iat", number(1_700_000_000)),
            ("token_type", text("something-else")),
            ("extra", text("ignored")),
        ],
    );
    let claims = service().verify_token_at(&token, NOW).unwrap();
    assert_eq!(claims.token_type, "something-else");
}

#[test]
fn minting_before_the_epoch_fails() {
    let minted = service().mint_at(ALICE, "a@x.com", TokenClass::Access, -1);
    assert_eq!(minted.err(), Some(AuthError::TokenMintFailed));
}

#[test]
fn minting_at_the_epoch_works() {
    let service = service();
    let token = service.mint_at(ALICE, "", TokenClass::Access, 0).unwrap();
    let claims = service.verify_token_at(&token, 900).unwrap();
    assert_eq!(claims.iat, 0);
    assert_eq!(claims.exp, 900);
    assert_eq!(claims.email, "");
}

#[test]
fn email_with_quotes_and_letters_of_any_script_round_trips() {
    let service = service();
    let email = "\"Алиса\" <a\\b@x.com>\n";
    let token = service.mint_at(ALICE, email, TokenClass::Refresh, NOW).unwrap();
    assert_eq!(service.verify_token_at(&token, NOW).unwrap().email, email);
}

#[test]
fn service_without_a_configured_secret_uses_the_default() {
    let token = JwtService::new(None).mint_at(ALICE, "a@x.com", TokenClass::Access, NOW).unwrap();
    let same = JwtService::new(Some("default_secret_key"));
    assert!(same.verify_token_at(&token, NOW).is_ok());
    assert!(service().verify_token_at(&token, NOW).is_err());
}

#[test]
fn a_copy_of_the_service_shares_the_secret() {
    let service = service();
    let copy = service.clone();
    let token = service.mint_at(ALICE, "a@x.com", TokenClass::Access, NOW).unwrap();
    assert!(copy.verify_token_at(&token, NOW).is_ok());
}

#[test]
fn tokens_minted_against_the_clock_verify_against_the_clock() {
    let service = service();
    let access = service.generate_access_token(ALICE, "a@x.com").unwrap();
    let refresh = service.generate_refresh_token(ALICE, "a@x.com").unwrap();
    let access_claims = service.verify_token(&access).unwrap();
    let refresh_claims = service.verify_token(&refresh).unwrap();
    assert_eq!(access_claims.sub, ALICE_TEXT);
    assert_eq!(access_claims.token_type, "access");
    assert_eq!(access_claims.exp - access_claims.iat, 900);
    assert_eq!(refresh_claims.token_type, "refresh");
    assert_eq!(refresh_claims.exp - refresh_claims.iat, 2_592_000);
    assert!(access_claims.iat > 1_600_000_000);
    assert_eq!(service.get_user_id_from_token(&access), Ok(ALICE));
}

#[test]
fn user_id_is_read_from_the_subject() {
    let service = service();
    let token = service.mint_at(ALICE, "a@x.com", TokenClass::Access, NOW).unwrap();
    assert_eq!(service.get_user_id_from_token_at(&token, NOW), Ok(ALICE));
    assert_eq!(
        service.get_user_id_from_token_at(&token, NOW + 901),
        Err(AuthError::TokenExpired)
    );
    assert_eq!(service.get_user_id_from_token_at("nonsense", NOW), Err(AuthError::TokenInvalid));
}

#[test]
fn subject_that_is_no_identifier_is_malformed() {
    let token = sign(
        "a-test-secret",
        vec![
            ("sub", text("alice")),
            ("email", text("a@x.com")),
            ("exp", number(1_700_000_900)),
            ("iat", number(1_700_000_000)),
            ("token_type", text("access")),
        ],
    );
    let service = service();
    assert!(service.verify_token_at(&token, NOW).is_ok());
    assert_eq!(
        service.get_user_id_from_token_at(&token, NOW),
        Err(AuthError::MalformedCredential)
    );
}

#[test]
fn class_labels_and_lifetimes() {
    assert_eq!(TokenClass::Access.label(), "access");
    assert_eq!(TokenClass::Refresh.label(), "refresh");
    assert_eq!(TokenClass::Access.lifetime(), 15 * 60);
    assert_eq!(TokenClass::Refresh.lifetime(), 30 * 24 * 60 * 60);
}

#[test]
fn payload_with_a_missing_claim_gives_no_claims() {
    let whole = RawClaims {
        sub: Some("s".to_string()),
        email: Some("e".to_string()),
        exp: Some(2),
        iat: Some(1),
        token_type: Some("access".to_string()),
    };
    let claims = claims_from_raw(whole).unwrap();
    assert_eq!(claims.sub, "s");
    assert_eq!(claims.email, "e");
    assert_eq!(claims.exp, 2);
    assert_eq!(claims.iat, 1);
    assert_eq!(claims.token_type, "access");
    let partial = RawClaims {
        sub: Some("s".to_string()),
        email: None,
        exp: Some(2),
        iat: Some(1),
        token_type: Some("access".to_string()),
    };
    assert!(claims_from_raw(partial).is_none());
}
