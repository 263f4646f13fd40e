use vstd::prelude::*;
use vstd::string::*;

use crate::models::data_store::LoginAttemptId;

verus! {

/// HTTP status of a login that is complete.
pub const STATUS_OK: u16 = 200;

/// HTTP status of a login that waits for its second factor.
pub const STATUS_PARTIAL_CONTENT: u16 = 206;

/// What a client submits to log in. It holds a raw secret, so it does not
/// print.
pub struct LoginRequest {
    pub email: String,
    pub password: String,
}

/// What a client is told when a second factor is asked for.
#[derive(Debug)]
pub struct TwoFactorAuthResponse {
    pub message: String,
    pub login_attempt_id: String,
}

/// The body of the answer to a login.
#[derive(Debug)]
pub enum LoginResponse {
    RegularAuth,
    TwoFactorAuthRequired(TwoFactorAuthResponse),
}

/// How a login that did not fail ended. It may hold a session token, so it
/// does not print.
pub enum LoginOutcome {
    /// The caller is authenticated and holds a session token.
    Authenticated { token: String },
    /// A code was sent out; the caller confirms it under this id.
    SecondFactorPending { login_attempt_id: LoginAttemptId },
}

impl LoginOutcome {
    /// The HTTP status that stands for the outcome.
    pub fn status_code(&self) -> (r: u16)
        ensures
            r == (if self is Authenticated {
                STATUS_OK
            } else {
                STATUS_PARTIAL_CONTENT
            }),
    {
        match self {
            LoginOutcome::Authenticated { .. } => STATUS_OK,
            LoginOutcome::SecondFactorPending { .. } => STATUS_PARTIAL_CONTENT,
        }
    }

    /// The body that tells the caller of the outcome.
    pub fn response(&self) -> (r: LoginResponse)
        ensures
            match (self, r) {
                (LoginOutcome::Authenticated { .. }, LoginResponse::RegularAuth) => true,
                (
                    LoginOutcome::SecondFactorPending { login_attempt_id },
                    LoginResponse::TwoFactorAuthRequired(body),
                ) => body.login_attempt_id@ == login_attempt_id@ && body.message@
                    == "2FA é necessária para este usuário. Por favor, verifique seu dispositivo de autenticação."@,
                _ => false,
            },
    {
        match self {
            LoginOutcome::Authenticated { .. } => LoginResponse::RegularAuth,
            LoginOutcome::SecondFactorPending { login_attempt_id } => {
                LoginResponse::TwoFactorAuthRequired(
                    TwoFactorAuthResponse {
                        message: "2FA é necessária para este usuário. Por favor, verifique seu dispositivo de autenticação.".to_string(),
                        login_attempt_id: login_attempt_id.as_str().to_string(),
                    },
                )
            },
        }
    }
}

} // verus!
