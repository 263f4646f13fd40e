use auth_service::log_error_chain;
use auth_service::models::data_store::{TwoFACode, TwoFACodeStoreError, UserStoreError};
use auth_service::models::email::Email;
use auth_service::models::email_client::{EmailClient, EmailClientError};
use auth_service::models::error::{AuthAPIError, InternalFault};
use auth_service::services::data_stores::db::{id_from_column, id_to_column, user_from_row};
use auth_service::services::email_client::MockEmailClient;
use auth_service::services::hashmap_2fa_code_store::HashMapTwoFACodeStore;
use auth_service::routes::login::handle_2fa;
use auth_service::models::login::LoginOutcome;
use auth_service::services::postmark_email_client::{
    build_request,
    delivery_result,
    email_endpoint,
    resolve_base_url,
};
use auth_service::services::redis_2fa_code_store::{
    check_lookup,
    check_stored_code,
    check_vacant,
    encode_entry,
    get_key_based_on_email,
};
use auth_service::services::redis_banner_token_store::{get_redis_banned_key, is_banned_reply};
use auth_service::utils::constants::{required_setting, setting_or};
use auth_service::utils::text::{joined, same_text, six_digits};
use auth_service::models::password::HashedPassword;

#[test]
fn error_report_lists_the_causes() {
    let causes = vec!["Os { code: 2 }".to_string(), "Inner".to_string()];
    let report = log_error_chain("Outer", &causes);
    assert_eq!(
        report,
        "\n------------------------------\nOuter\nCaused by: Os { code: 2 }\nCaused by: Inner\n\n------------------------------\n"
    );
    let report = log_error_chain("Alone", &Vec::new());
    assert_eq!(report, "\n------------------------------\nAlone\n\n------------------------------\n");
}

#[test]
fn redis_keys() {
    assert_eq!(get_redis_banned_key("a.b.c"), "banned_token:a.b.c");
    assert_eq!(get_redis_banned_key(""), "banned_token:");
    let email = Email::new("test@example.com".to_string()).unwrap();
    assert_eq!(get_key_based_on_email(&email), "two_fa_code:test@example.com");
}

#[test]
fn banned_reply() {
    assert_eq!(is_banned_reply(&Ok(Some("banned".to_string()))), Some(true));
    assert_eq!(is_banned_reply(&Ok(None)), Some(false));
    // A lookup that failed does not read as "not revoked".
    assert_eq!(is_banned_reply(&Err(())), None);
}

#[test]
fn stored_entry_round_trip() {
    let email = Email::new("test@example.com".to_string()).unwrap();
    let code = TwoFACode::parse("123456".to_string()).unwrap();
    let text = encode_entry(&email, &code).unwrap();
    assert_eq!(text, "[\"test@example.com\",\"123456\"]");
    assert_eq!(encode_entry(&email, &code), Some(text.clone()));
    assert_eq!(check_stored_code(&text, &code).unwrap().as_str(), "test@example.com");
    let other = TwoFACode::parse("654321".to_string()).unwrap();
    assert_eq!(check_stored_code(&text, &other).err(), Some(TwoFACodeStoreError::InvalidCode));
    assert_eq!(check_lookup(Some(text), &code).unwrap().as_str(), "test@example.com");
    assert_eq!(check_lookup(None, &code).err(), Some(TwoFACodeStoreError::NotFoundCode));
}

#[test]
fn stored_entry_that_does_not_read_back() {
    let code = TwoFACode::parse("123456".to_string()).unwrap();
    for text in ["", "{}", "[\"test@example.com\"]", "[\"a\",\"123456\",\"c\"]", "[1,2]"] {
        assert_eq!(
            check_stored_code(text, &code).err(),
            Some(TwoFACodeStoreError::UnexpectedError),
            "{:?}",
            text
        );
    }
    // The code is right, the address is none.
    assert_eq!(
        check_stored_code("[\"nobody\",\"123456\"]", &code).err(),
        Some(TwoFACodeStoreError::UnexpectedError)
    );
    // The code is wrong: that is said first.
    assert_eq!(
        check_stored_code("[\"nobody\",\"654321\"]", &code).err(),
        Some(TwoFACodeStoreError::InvalidCode)
    );
}

#[test]
fn pending_id_is_taken() {
    assert_eq!(check_vacant(&None), Ok(()));
    assert_eq!(check_vacant(&Some("anything".to_string())), Err(TwoFACodeStoreError::CodeAlreadyExists));
}

#[test]
fn send_email_sends_the_expected_request() {
    let sender = Email::new("sender@example.com".to_string()).unwrap();
    let recipient = Email::new("test@example.com".to_string()).unwrap();
    let request = build_request(&sender, &recipient, "Subject", "<p>Body</p>");
    assert_eq!(request.from, "sender@example.com");
    assert_eq!(request.to, "test@example.com");
    assert_eq!(request.subject, "Subject");
    assert_eq!(request.html_body, "<p>Body</p>");
    assert_eq!(request.text_body, "<p>Body</p>");
    assert_eq!(request.message_stream, "test");
    assert_eq!(email_endpoint("https://api.postmarkapp.com"), "https://api.postmarkapp.com/email");
    assert_eq!(resolve_base_url(None), "https://api.postmarkapp.com");
    assert_eq!(resolve_base_url(Some("http://localhost:1".to_string())), "http://localhost:1");
}

#[test]
fn send_email_fails_if_the_server_returns_500() {
    let outcome = delivery_result(false, "Internal Server Error");
    assert!(outcome.is_err());
    match outcome {
        Err(EmailClientError::SendError(message)) => {
            assert_eq!(message, "Falha ao enviar o email. Erro: Internal Server Error");
        },
        _ => panic!("expected a send error"),
    }
    assert!(delivery_result(true, "").is_ok());
}

#[test]
fn mock_email_client_reports_success() {
    let recipient = Email::new("test@example.com".to_string()).unwrap();
    assert!(MockEmailClient.send_email(&recipient, "Subject", "Body").is_ok());
}

#[test]
fn account_id_keeps_its_bits_in_the_column() {
    assert_eq!(id_to_column(0), 0);
    assert_eq!(id_to_column(1), 1);
    assert_eq!(id_to_column(u64::MAX), -1);
    assert_eq!(id_to_column(1 << 63), i64::MIN);
    assert_eq!(id_from_column(-1), u64::MAX);
    assert_eq!(id_from_column(i64::MIN), 1 << 63);
    for id in [0, 7, u64::MAX, 1 << 63, (1 << 63) - 1, 0xdead_beef_dead_beef] {
        assert_eq!(id_from_column(id_to_column(id)), id);
    }
}

#[test]
fn account_from_row() {
    let hash = HashedPassword::compute_password_hash("password1").unwrap();
    let user = user_from_row(-1, "test@example.com".to_string(), hash.clone(), true)
        .unwrap_or_else(|e| panic!("{:?}", e));
    assert_eq!(user.id, u64::MAX);
    assert_eq!(user.email.as_str(), "test@example.com");
    assert_eq!(user.password.as_str(), hash);
    assert!(user.requires_2_fa);
    assert_eq!(
        user_from_row(1, "nobody".to_string(), hash.clone(), false).err(),
        Some(UserStoreError::UnexpectedError)
    );
    assert_eq!(
        user_from_row(1, "test@example.com".to_string(), "hashed_password1".to_string(), false).err(),
        Some(UserStoreError::UnexpectedError)
    );
}

#[test]
fn settings() {
    assert_eq!(required_setting(Some("value".to_string())), Some("value".to_string()));
    assert_eq!(required_setting(Some(String::new())), None);
    assert_eq!(required_setting(None), None);
    assert_eq!(setting_or(None, "redis://localhost:6379"), Some("redis://localhost:6379".to_string()));
    assert_eq!(setting_or(Some("redis://redis:6379".to_string()), "x"), Some("redis://redis:6379".to_string()));
    assert_eq!(setting_or(Some(String::new()), "x"), None);
    assert_eq!(setting_or(None, ""), None);
}

#[test]
fn six_digit_text() {
    assert_eq!(six_digits(0), "000000");
    assert_eq!(six_digits(7), "000007");
    assert_eq!(six_digits(42), "000042");
    assert_eq!(six_digits(123_456), "123456");
    assert_eq!(six_digits(999_999), "999999");
    assert_eq!(six_digits(100_000), "100000");
    assert_eq!(six_digits(90_909), "090909");
    for n in [0u32, 5, 10, 99, 1_000, 54_321, 999_999] {
        assert_eq!(six_digits(n), format!("{:06}", n));
    }
    // Above six digits the lowest six are written.
    assert_eq!(six_digits(1_234_567), "234567");
    assert_eq!(six_digits(u32::MAX), "967295");
}

#[test]
fn text_helpers() {
    assert_eq!(joined("abc", "def"), "abcdef");
    assert_eq!(joined("", ""), "");
    assert!(same_text("abc", "abc"));
    assert!(!same_text("abc", "abd"));
    assert!(!same_text("abc", "ab"));
}

#[test]
fn error_statuses_and_texts() {
    let cases = [
        (AuthAPIError::UserAlreadyExists, 409, "Usuário já existe"),
        (AuthAPIError::UserNotFound, 404, "Usuário não encontrado"),
        (AuthAPIError::InvalidCredentials, 401, "Credenciais inválidas"),
        (
            AuthAPIError::InternalError(InternalFault::CredentialStore),
            500,
            "Erro interno: falha no armazenamento de usuários",
        ),
        (AuthAPIError::MissingToken, 400, "Token ausente"),
        (AuthAPIError::InvalidToken, 401, "Token inválido"),
        (AuthAPIError::ExpiredToken, 401, "Token expirado"),
        (AuthAPIError::InvalidEmail, 400, "Formato de email inválido"),
        (AuthAPIError::InvalidPassword, 400, "Senha inválida"),
        (AuthAPIError::InvalidCode, 401, "Código 2FA inválido"),
        (
            AuthAPIError::MalformedCode,
            400,
            "Token inválido: Código 2FA deve ser um número de 6 dígitos",
        ),
        (AuthAPIError::CodeNotFound, 401, "Código 2FA não encontrado"),
        (AuthAPIError::MalformedToken, 401, "Token malformado"),
        (AuthAPIError::BadSignature, 401, "Assinatura do token inválida"),
        (AuthAPIError::RevokedToken, 401, "Token revogado"),
    ];
    for (error, status, text) in cases {
        assert_eq!(error.status_code(), status);
        assert_eq!(error.to_string(), text);
    }
}

#[test]
fn second_factor_starts_at_a_fresh_store_with_a_client_that_delivers() {
    for _ in 0..20 {
        let mut codes = HashMapTwoFACodeStore::default();
        let email = Email::new("teste@gmail.com".to_string()).unwrap();
        match handle_2fa(&email, &mut codes, &MockEmailClient) {
            Ok(LoginOutcome::SecondFactorPending { login_attempt_id }) => {
                assert!(!login_attempt_id.as_str().is_empty());
            },
            _ => panic!("expected a pending second factor"),
        }
    }
}
