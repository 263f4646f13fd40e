use auth_service::models::data_store::{
    check_user_password,
    LoginAttemptId,
    TwoFACode,
    TwoFACodeStoreError,
    UserStoreError,
};
use auth_service::models::email::Email;
use auth_service::models::email_client::EmailClientError;
use auth_service::models::error::{AuthAPIError, InternalFault};
use auth_service::models::login::{LoginOutcome, LoginRequest};
use auth_service::models::password::HashedPassword;
use auth_service::models::signup::SignupRequest;
use auth_service::models::user::User;
use auth_service::routes::login::{
    challenge_filed,
    challenge_outcome,
    login_identity,
    mint_session_token,
    second_factor_needed,
    two_fa_message,
    TWO_FA_SUBJECT,
};
use auth_service::routes::logout::{logout_answer, may_log_out};
use auth_service::routes::signup::{new_account, signup_answer};
use auth_service::routes::verify_2fa::{confirmation_answer, confirmed_identity, confirmed_response};
use auth_service::routes::verify_token::{require_token, show_token_error, token_answer};
use auth_service::utils::auth::{decode_token, Claims, TokenError};

fn account(requires_2_fa: bool) -> User {
    let email = Email::new("teste@email.com".to_string()).unwrap();
    let password = match HashedPassword::new("password".to_string()) {
        Ok(hash) => hash,
        Err(e) => panic!("{}", e.to_string()),
    };
    User { id: 7, email, password, requires_2_fa }
}

#[test]
fn new_account_prepares_what_is_filed() {
    let payload = SignupRequest {
        email: "teste@email.com".to_string(),
        password: "password".to_string(),
        requires_2_fa: true,
    };
    let user = match new_account(payload) {
        Ok(user) => user,
        Err(e) => panic!("{:?}", e),
    };
    assert_eq!(user.email.as_str(), "teste@email.com");
    assert!(user.requires_2_fa);
    assert_eq!(user.password.verify_raw_password("password"), Ok(true));
    let refused = new_account(SignupRequest {
        email: "teste".to_string(),
        password: "password".to_string(),
        requires_2_fa: false,
    });
    assert_eq!(refused.err(), Some(AuthAPIError::InvalidEmail));
    let refused = new_account(SignupRequest {
        email: "teste@email.com".to_string(),
        password: "passwor".to_string(),
        requires_2_fa: false,
    });
    assert_eq!(refused.err(), Some(AuthAPIError::InvalidPassword));
}

#[test]
fn signup_answer_for_each_reply_of_the_store() {
    assert_eq!(signup_answer(Ok(())).unwrap().message, "Usuário criado com sucesso");
    assert_eq!(
        signup_answer(Err(UserStoreError::UserAlreadyExists)).err(),
        Some(AuthAPIError::UserAlreadyExists)
    );
    for failure in [
        UserStoreError::UnexpectedError,
        UserStoreError::UserNotFound,
        UserStoreError::InvalidCredentials,
    ] {
        assert_eq!(
            signup_answer(Err(failure)).err(),
            Some(AuthAPIError::InternalError(InternalFault::CredentialStore))
        );
    }
}

#[test]
fn login_identity_checks_shapes_first() {
    let request = LoginRequest { email: "teste@email.com".to_string(), password: "password".to_string() };
    assert_eq!(login_identity(&request).unwrap().as_str(), "teste@email.com");
    let request = LoginRequest { email: "teste".to_string(), password: "password".to_string() };
    assert_eq!(login_identity(&request).err(), Some(AuthAPIError::InvalidEmail));
    let request = LoginRequest { email: "teste@email.com".to_string(), password: "pass".to_string() };
    assert_eq!(login_identity(&request).err(), Some(AuthAPIError::InvalidPassword));
}

#[test]
fn password_check_on_a_fetched_account() {
    let checked = check_user_password(Ok(account(false)), "password");
    assert_eq!(checked.unwrap_or_else(|e| panic!("{:?}", e)).id, 7);
    assert_eq!(
        check_user_password(Ok(account(false)), "passw0rd").err(),
        Some(UserStoreError::InvalidCredentials)
    );
    assert_eq!(
        check_user_password(Err(UserStoreError::UserNotFound), "password").err(),
        Some(UserStoreError::UserNotFound)
    );
    assert_eq!(
        check_user_password(Err(UserStoreError::UnexpectedError), "password").err(),
        Some(UserStoreError::UnexpectedError)
    );
}

#[test]
fn second_factor_needed_for_each_reply_of_the_store() {
    assert_eq!(second_factor_needed(&Ok(account(true))), Ok(true));
    assert_eq!(second_factor_needed(&Ok(account(false))), Ok(false));
    assert_eq!(
        second_factor_needed(&Err(UserStoreError::UserNotFound)),
        Err(AuthAPIError::InvalidCredentials)
    );
    assert_eq!(
        second_factor_needed(&Err(UserStoreError::InvalidCredentials)),
        Err(AuthAPIError::InvalidCredentials)
    );
    assert_eq!(
        second_factor_needed(&Err(UserStoreError::UnexpectedError)),
        Err(AuthAPIError::InternalError(InternalFault::CredentialStore))
    );
    assert_eq!(
        second_factor_needed(&Err(UserStoreError::UserAlreadyExists)),
        Err(AuthAPIError::InternalError(InternalFault::CredentialStore))
    );
}

#[test]
fn challenge_steps() {
    let code = match TwoFACode::parse("004200".to_string()) {
        Ok(code) => code,
        Err(message) => panic!("{}", message),
    };
    assert_eq!(two_fa_message(&code), "Seu código de autenticação de dois fatores é: 004200");
    assert_eq!(TWO_FA_SUBJECT, "Código de Autenticação de Dois Fatores");
    assert_eq!(challenge_filed(Ok(())), Ok(()));
    for failure in [TwoFACodeStoreError::CodeAlreadyExists, TwoFACodeStoreError::UnexpectedError] {
        assert_eq!(
            challenge_filed(Err(failure)),
            Err(AuthAPIError::InternalError(InternalFault::ChallengeStore))
        );
    }
    let id = LoginAttemptId::parse("attempt1".to_string()).unwrap();
    match challenge_outcome(Ok(()), id.clone()) {
        Ok(LoginOutcome::SecondFactorPending { login_attempt_id }) => assert!(login_attempt_id == id),
        _ => panic!("expected a pending second factor"),
    }
    for failure in [
        EmailClientError::InternalServerError,
        EmailClientError::InvalidRecipient,
        EmailClientError::SendError("down".to_string()),
    ] {
        assert_eq!(
            challenge_outcome(Err(failure), id.clone()).err(),
            Some(AuthAPIError::InternalError(InternalFault::MessageDelivery))
        );
    }
}

#[test]
fn confirmation_steps() {
    let email = Email::new("teste@email.com".to_string()).unwrap();
    assert_eq!(confirmed_identity(Ok(email.clone())).unwrap().as_str(), "teste@email.com");
    assert_eq!(
        confirmed_identity(Err(TwoFACodeStoreError::NotFoundCode)).err(),
        Some(AuthAPIError::CodeNotFound)
    );
    assert_eq!(
        confirmed_identity(Err(TwoFACodeStoreError::InvalidCode)).err(),
        Some(AuthAPIError::InvalidCode)
    );
    for failure in [
        TwoFACodeStoreError::UnexpectedError,
        TwoFACodeStoreError::ExpiredCode,
        TwoFACodeStoreError::CodeAlreadyExists,
    ] {
        assert_eq!(
            confirmed_identity(Err(failure)).err(),
            Some(AuthAPIError::InternalError(InternalFault::ChallengeStore))
        );
    }
    assert_eq!(confirmation_answer(Ok(()), "a.b.c".to_string()), Ok("a.b.c".to_string()));
    assert_eq!(
        confirmation_answer(Err(TwoFACodeStoreError::UnexpectedError), "a.b.c".to_string()),
        Err(AuthAPIError::InternalError(InternalFault::ChallengeStore))
    );
    assert_eq!(confirmed_response().message, "Token válido");
    let token = mint_session_token(&email, "secret").unwrap();
    assert_eq!(decode_token(&token, "secret").unwrap().sub, "teste@email.com");
}

#[test]
fn logout_steps() {
    let holds = Ok(Claims { sub: "teste@email.com".to_string(), exp: 10 });
    assert_eq!(may_log_out(&holds), Ok(()));
    assert_eq!(may_log_out(&Err(TokenError::Expired)), Err(AuthAPIError::ExpiredToken));
    for failure in [TokenError::Malformed, TokenError::BadSignature, TokenError::Revoked] {
        assert_eq!(may_log_out(&Err(failure)), Err(AuthAPIError::InvalidToken));
    }
    let cookie = logout_answer(Some(())).unwrap();
    assert_eq!(cookie.value, "");
    let error = logout_answer(None).err().unwrap();
    assert_eq!(error, AuthAPIError::InternalError(InternalFault::RevocationStore));
    assert_eq!(error.to_string(), "Erro interno: falha ao banir token");
}

#[test]
fn verify_token_steps() {
    assert_eq!(require_token(""), Err(AuthAPIError::MissingToken));
    assert_eq!(require_token("a"), Ok(()));
    assert_eq!(show_token_error(TokenError::Malformed), AuthAPIError::MalformedToken);
    assert_eq!(show_token_error(TokenError::BadSignature), AuthAPIError::BadSignature);
    assert_eq!(show_token_error(TokenError::Expired), AuthAPIError::ExpiredToken);
    assert_eq!(show_token_error(TokenError::Revoked), AuthAPIError::RevokedToken);
    let claims = token_answer(Ok(Claims { sub: "teste@email.com".to_string(), exp: 10 })).unwrap();
    assert_eq!(claims.sub, "teste@email.com");
    assert_eq!(claims.exp, 10);
    assert_eq!(token_answer(Err(TokenError::Revoked)).err(), Some(AuthAPIError::RevokedToken));
}

#[test]
fn internal_faults_have_their_texts() {
    let cases = [
        (InternalFault::PasswordHashing, "falha ao computar hash da senha"),
        (InternalFault::CredentialStore, "falha no armazenamento de usuários"),
        (InternalFault::ChallengeStore, "falha no armazenamento de códigos 2FA"),
        (InternalFault::MessageDelivery, "falha ao enviar email com código 2FA"),
        (InternalFault::TokenMinting, "falha ao gerar token de autenticação"),
        (InternalFault::RevocationStore, "falha ao banir token"),
    ];
    for (fault, text) in cases {
        assert_eq!(fault.to_str(), text);
        let error = AuthAPIError::InternalError(fault);
        assert_eq!(error.to_string(), format!("Erro interno: {}", text));
        assert_eq!(error.status_code(), 500);
    }
}
