use auth_service::models::email::Email;
use auth_service::models::data_store::BannedTokenStore;
use auth_service::services::hashmap_banned_token_store::HashsetBannedTokenStore;
use auth_service::utils::auth::{
    compute_expiry,
    create_auth_cookie,
    create_removal_cookie,
    create_token,
    decode_token,
    generate_auth_token,
    generate_auth_token_at,
    generate_auth_token_wrap_into_cookie,
    is_expired,
    judge_token,
    validate_token,
    validate_token_at,
    validate_token_without_state,
    Claims,
    GenerateTokenError,
    SameSite,
    TokenError,
    TOKEN_TTL_SECONDS,
};
use auth_service::utils::constants::JWT_COOKIE_NAME;
use chrono::Utc;

const SECRET: &str = "secret";

fn email() -> Email {
    Email::new("teste@example.com".to_string()).unwrap()
}

#[test]
fn test_generate_auth_cookie() {
    let cookie = generate_auth_token_wrap_into_cookie(&email(), SECRET).unwrap();
    assert_eq!(cookie.name, JWT_COOKIE_NAME);
    assert_eq!(cookie.value.len() > 0, true);
    assert_eq!(cookie.value.split('.').count() == 3, true);
    assert_eq!(cookie.http_only, true);
    assert_eq!(cookie.same_site, SameSite::Lax);
}

#[test]
fn test_create_auth_cookie() {
    let token = "teste_token".to_string();
    let cookie = create_auth_cookie(token.clone());
    assert_eq!(cookie.name, JWT_COOKIE_NAME);
    assert_eq!(cookie.value.len() > 0, true);
    assert_eq!(cookie.value.split('.').count() > 0, true);
    assert_eq!(cookie.http_only, true);
    assert_eq!(cookie.same_site, SameSite::Lax);
    assert_eq!(cookie.value, token);
    assert_eq!(cookie.path, "/");
    assert_eq!(cookie.secure, false);
}

#[test]
fn test_generate_auth_token() {
    let cookie = generate_auth_token_wrap_into_cookie(&email(), SECRET).unwrap();
    assert_eq!(cookie.name, JWT_COOKIE_NAME);
    assert_eq!(cookie.value.len() > 0, true);
    assert_eq!(cookie.value.split('.').count() == 3, true);
    assert_eq!(cookie.http_only, true);
    assert_eq!(cookie.same_site, SameSite::Lax);
}

#[test]
fn test_validate_token_with_valid_token() {
    let email = email();
    let cookie = generate_auth_token_wrap_into_cookie(&email, SECRET).unwrap();
    let resultado = validate_token_without_state(&cookie.value, SECRET);
    assert!(resultado.is_ok());

    let claims = resultado.unwrap();
    assert_eq!(claims.sub, email.as_str());

    let experiracao = Utc::now()
        .checked_add_signed(chrono::Duration::minutes(9))
        .expect("valid timestamp")
        .timestamp();

    assert!(claims.exp > experiracao as u64);
}

#[test]
fn test_validate_token_with_invalid_token() {
    let invalid_token = "token_invalido";
    let resultado = validate_token_without_state(invalid_token, SECRET);
    assert!(resultado.is_err());
    assert_eq!(resultado.err(), Some(TokenError::Malformed));
}

#[test]
fn removal_cookie_is_empty_and_secure() {
    let cookie = create_removal_cookie();
    assert_eq!(cookie.name, "jwt-rust-live-bootcamp");
    assert_eq!(cookie.value, "");
    assert_eq!(cookie.path, "/");
    assert!(cookie.http_only);
    assert!(cookie.secure);
    assert_eq!(cookie.same_site, SameSite::Lax);
}

#[test]
fn expiry_is_issue_time_plus_ten_minutes() {
    assert_eq!(TOKEN_TTL_SECONDS, 600);
    assert_eq!(compute_expiry(0), Some(600));
    assert_eq!(compute_expiry(1_700_000_000), Some(1_700_000_600));
    assert_eq!(compute_expiry(-600), Some(0));
    assert_eq!(compute_expiry(-601), None);
    assert_eq!(compute_expiry(i64::MAX - 600), Some((i64::MAX as u64)));
    assert_eq!(compute_expiry(i64::MAX - 599), None);
}

#[test]
fn a_token_expires_at_its_expiry_time() {
    assert!(!is_expired(1_000, 999));
    assert!(is_expired(1_000, 1_000));
    assert!(is_expired(1_000, 1_001));
    assert!(!is_expired(1_000, -5));
    assert!(!is_expired(0, -1));
    assert!(is_expired(0, 0));
}

#[test]
fn minted_token_carries_subject_and_expiry() {
    let token = generate_auth_token_at(&email(), SECRET, 1_700_000_000).unwrap();
    // The same address, key and instant give the same token, which is the one
    // that signing the two claims gives.
    assert_eq!(generate_auth_token_at(&email(), SECRET, 1_700_000_000).unwrap(), token);
    let claims = Claims { sub: "teste@example.com".to_string(), exp: 1_700_000_600 };
    assert_eq!(create_token(&claims, SECRET).unwrap(), token);
    assert!(generate_auth_token_at(&email(), SECRET, 1_700_000_001).unwrap() != token);
    let claims = decode_token(&token, SECRET).unwrap();
    assert_eq!(claims.sub, "teste@example.com");
    assert_eq!(claims.exp, 1_700_000_600);
}

#[test]
fn minting_fails_where_the_expiry_cannot_be_written() {
    match generate_auth_token_at(&email(), SECRET, i64::MAX) {
        Err(GenerateTokenError::UnexpectedError) => {},
        _ => panic!("expected an unexpected error"),
    }
    match generate_auth_token_at(&email(), SECRET, -601) {
        Err(e) => assert_eq!(e.to_string(), "Erro inesperado durante a geração do token"),
        Ok(_) => panic!("minted a token that expires before the epoch"),
    }
}

#[test]
fn token_verifies_before_its_expiry_and_not_from_then_on() {
    let registry = HashsetBannedTokenStore::new();
    let issued: i64 = 1_700_000_000;
    let token = generate_auth_token_at(&email(), SECRET, issued).unwrap();
    for now in [issued - 10, issued, issued + 1, issued + 599] {
        let claims = validate_token_at(&registry, &token, SECRET, now).unwrap();
        assert_eq!(claims.sub, "teste@example.com");
        assert_eq!(claims.exp, 1_700_000_600);
    }
    for now in [issued + 600, issued + 601, issued + 660, issued + 100_000] {
        assert_eq!(validate_token_at(&registry, &token, SECRET, now).err(), Some(TokenError::Expired));
    }
}

#[test]
fn token_signed_with_another_key_has_a_bad_signature() {
    let registry = HashsetBannedTokenStore::new();
    let token = generate_auth_token_at(&email(), "another secret", 1_700_000_000).unwrap();
    assert_eq!(decode_token(&token, SECRET).err(), Some(TokenError::BadSignature));
    assert_eq!(
        validate_token_at(&registry, &token, SECRET, 1_700_000_000).err(),
        Some(TokenError::BadSignature)
    );
}

#[test]
fn tampered_token_is_refused() {
    let token = generate_auth_token_at(&email(), SECRET, 1_700_000_000).unwrap();
    let parts: Vec<&str> = token.split('.').collect();
    assert_eq!(parts.len(), 3);
    let other = generate_auth_token_at(
        &Email::new("other@example.com".to_string()).unwrap(),
        SECRET,
        1_700_000_000,
    )
    .unwrap();
    let other_parts: Vec<&str> = other.split('.').collect();
    // The claims of one token under the signature of another.
    let forged = format!("{}.{}.{}", parts[0], other_parts[1], parts[2]);
    assert_eq!(decode_token(&forged, SECRET).err(), Some(TokenError::BadSignature));
}

#[test]
fn what_is_no_token_is_malformed() {
    for text in ["", "token_invalido", "a.b", "a.b.c", "....", "invalid_token"] {
        assert_eq!(decode_token(text, SECRET).err(), Some(TokenError::Malformed), "{:?}", text);
    }
}

#[test]
fn revoked_token_is_refused_though_it_would_hold() {
    let mut registry = HashsetBannedTokenStore::new();
    let issued: i64 = 1_700_000_000;
    let token = generate_auth_token_at(&email(), SECRET, issued).unwrap();
    assert!(validate_token_at(&registry, &token, SECRET, issued + 1).is_ok());
    assert_eq!(registry.ban_token(&token), Some(()));
    assert_eq!(
        validate_token_at(&registry, &token, SECRET, issued + 1).err(),
        Some(TokenError::Revoked)
    );
    // Expiry is looked at before the registry.
    assert_eq!(
        validate_token_at(&registry, &token, SECRET, issued + 600).err(),
        Some(TokenError::Expired)
    );
}

#[test]
fn judge_token_orders_its_checks() {
    let claims = || Claims { sub: "teste@example.com".to_string(), exp: 100 };
    assert_eq!(judge_token(Ok(claims()), 99, false).unwrap().exp, 100);
    assert_eq!(judge_token(Ok(claims()), 99, true).err(), Some(TokenError::Revoked));
    assert_eq!(judge_token(Ok(claims()), 100, true).err(), Some(TokenError::Expired));
    assert_eq!(judge_token(Err(TokenError::BadSignature), 0, true).err(), Some(TokenError::BadSignature));
    assert_eq!(judge_token(Err(TokenError::Malformed), 1_000, false).err(), Some(TokenError::Malformed));
}

#[test]
fn create_token_signs_the_claims_given() {
    let claims = Claims { sub: "someone".to_string(), exp: 4_102_444_800 };
    let token = create_token(&claims, SECRET).unwrap();
    let decoded = decode_token(&token, SECRET).unwrap();
    assert_eq!(decoded.sub, "someone");
    assert_eq!(decoded.exp, 4_102_444_800);
    // Signing is deterministic.
    assert_eq!(create_token(&claims, SECRET).unwrap(), token);
}

#[test]
fn fresh_token_verifies_now() {
    let registry = HashsetBannedTokenStore::new();
    let before = Utc::now().timestamp();
    let token = generate_auth_token(&email(), SECRET).unwrap();
    let claims = validate_token(&registry, &token, SECRET).unwrap();
    assert_eq!(claims.sub, "teste@example.com");
    assert!(claims.exp >= (before + 600) as u64);
    assert!(claims.exp <= (Utc::now().timestamp() + 600) as u64);
}

#[test]
fn signing_failure_is_written_out() {
    let cause = jsonwebtoken::errors::Error::from(jsonwebtoken::errors::ErrorKind::InvalidKeyFormat);
    let expected = format!("Erro na geração do token: {}", cause);
    let error = GenerateTokenError::TokenError(cause);
    assert_eq!(error.to_string(), expected);
    assert_eq!(expected, "Erro na geração do token: InvalidKeyFormat");
    assert_eq!(
        GenerateTokenError::UnexpectedError.to_string(),
        "Erro inesperado durante a geração do token"
    );
}
