use vstd::prelude::*;
use vstd::string::*;

use crate::utils::text::joined;

verus! {

/// The part of the service that failed behind an internal error.
#[derive(Debug, PartialEq, Eq, Structural)]
pub enum InternalFault {
    PasswordHashing,
    CredentialStore,
    ChallengeStore,
    MessageDelivery,
    TokenMinting,
    RevocationStore,
}

impl InternalFault {
    pub open spec fn description(&self) -> Seq<char> {
        match self {
            InternalFault::PasswordHashing => "falha ao computar hash da senha"@,
            InternalFault::CredentialStore => "falha no armazenamento de usuários"@,
            InternalFault::ChallengeStore => "falha no armazenamento de códigos 2FA"@,
            InternalFault::MessageDelivery => "falha ao enviar email com código 2FA"@,
            InternalFault::TokenMinting => "falha ao gerar token de autenticação"@,
            InternalFault::RevocationStore => "falha ao banir token"@,
        }
    }

    pub fn to_str(&self) -> (r: &'static str)
        ensures
            r@ == self.description(),
    {
        match self {
            InternalFault::PasswordHashing => "falha ao computar hash da senha",
            InternalFault::CredentialStore => "falha no armazenamento de usuários",
            InternalFault::ChallengeStore => "falha no armazenamento de códigos 2FA",
            InternalFault::MessageDelivery => "falha ao enviar email com código 2FA",
            InternalFault::TokenMinting => "falha ao gerar token de autenticação",
            InternalFault::RevocationStore => "falha ao banir token",
        }
    }
}

/// Every way in which an operation of the service fails.
#[derive(Debug, PartialEq, Eq, Structural)]
pub enum AuthAPIError {
    /// The address is registered already.
    UserAlreadyExists,
    /// No account is filed under the address.
    UserNotFound,
    /// The address is unknown or the secret is wrong; which, is not told.
    InvalidCredentials,
    /// A backend failed; the part is named, the detail is not.
    InternalError(InternalFault),
    /// No token, or no code, was presented.
    MissingToken,
    /// The token presented for a logout does not hold.
    InvalidToken,
    /// The token has reached its expiry time.
    ExpiredToken,
    /// The address is not well formed.
    InvalidEmail,
    /// The raw secret is too short.
    InvalidPassword,
    /// The one-time code is not the pending one.
    InvalidCode,
    /// What was submitted as one-time code is not six digits.
    MalformedCode,
    /// No login attempt is pending under the id.
    CodeNotFound,
    /// The token cannot be decoded.
    MalformedToken,
    /// The signature of the token is not one that the key made.
    BadSignature,
    /// The token would hold, and has been revoked.
    RevokedToken,
}

/// HTTP status codes that the errors map to.
pub const STATUS_BAD_REQUEST: u16 = 400;

pub const STATUS_UNAUTHORIZED: u16 = 401;

pub const STATUS_NOT_FOUND: u16 = 404;

pub const STATUS_CONFLICT: u16 = 409;

pub const STATUS_INTERNAL_SERVER_ERROR: u16 = 500;

impl AuthAPIError {
    /// What a caller is told, apart from internal errors, whose text names the
    /// part that failed.
    pub open spec fn plain_message(&self) -> Seq<char> {
        match self {
            AuthAPIError::UserAlreadyExists => "Usuário já existe"@,
            AuthAPIError::UserNotFound => "Usuário não encontrado"@,
            AuthAPIError::InvalidCredentials => "Credenciais inválidas"@,
            AuthAPIError::InternalError(_) => "Erro interno: "@,
            AuthAPIError::MissingToken => "Token ausente"@,
            AuthAPIError::InvalidToken => "Token inválido"@,
            AuthAPIError::ExpiredToken => "Token expirado"@,
            AuthAPIError::InvalidEmail => "Formato de email inválido"@,
            AuthAPIError::InvalidPassword => "Senha inválida"@,
            AuthAPIError::InvalidCode => "Código 2FA inválido"@,
            AuthAPIError::MalformedCode => "Token inválido: Código 2FA deve ser um número de 6 dígitos"@,
            AuthAPIError::CodeNotFound => "Código 2FA não encontrado"@,
            AuthAPIError::MalformedToken => "Token malformado"@,
            AuthAPIError::BadSignature => "Assinatura do token inválida"@,
            AuthAPIError::RevokedToken => "Token revogado"@,
        }
    }

    /// The text of the error.
    pub open spec fn message(&self) -> Seq<char> {
        match self {
            AuthAPIError::InternalError(fault) => self.plain_message() + fault.description(),
            _ => self.plain_message(),
        }
    }

    fn plain_str(&self) -> (r: &'static str)
        ensures
            r@ == self.plain_message(),
    {
        match self {
            AuthAPIError::UserAlreadyExists => "Usuário já existe",
            AuthAPIError::UserNotFound => "Usuário não encontrado",
            AuthAPIError::InvalidCredentials => "Credenciais inválidas",
            AuthAPIError::InternalError(_) => "Erro interno: ",
            AuthAPIError::MissingToken => "Token ausente",
            AuthAPIError::InvalidToken => "Token inválido",
            AuthAPIError::ExpiredToken => "Token expirado",
            AuthAPIError::InvalidEmail => "Formato de email inválido",
            AuthAPIError::InvalidPassword => "Senha inválida",
            AuthAPIError::InvalidCode => "Código 2FA inválido",
            AuthAPIError::MalformedCode => "Token inválido: Código 2FA deve ser um número de 6 dígitos",
            AuthAPIError::CodeNotFound => "Código 2FA não encontrado",
            AuthAPIError::MalformedToken => "Token malformado",
            AuthAPIError::BadSignature => "Assinatura do token inválida",
            AuthAPIError::RevokedToken => "Token revogado",
        }
    }

    pub fn to_string(&self) -> (r: String)
        ensures
            r@ == self.message(),
    {
        match self {
            AuthAPIError::InternalError(fault) => joined(self.plain_str(), fault.to_str()),
            _ => self.plain_str().to_string(),
        }
    }

    /// The HTTP status that stands for the error.
    pub open spec fn status(&self) -> u16 {
        match self {
            AuthAPIError::UserAlreadyExists => STATUS_CONFLICT,
            AuthAPIError::UserNotFound => STATUS_NOT_FOUND,
            AuthAPIError::InternalError(_) => STATUS_INTERNAL_SERVER_ERROR,
            AuthAPIError::MissingToken => STATUS_BAD_REQUEST,
            AuthAPIError::InvalidEmail => STATUS_BAD_REQUEST,
            AuthAPIError::InvalidPassword => STATUS_BAD_REQUEST,
            AuthAPIError::MalformedCode => STATUS_BAD_REQUEST,
            _ => STATUS_UNAUTHORIZED,
        }
    }

    pub fn status_code(&self) -> (r: u16)
        ensures
            r == self.status(),
    {
        match self {
            AuthAPIError::UserAlreadyExists => STATUS_CONFLICT,
            AuthAPIError::UserNotFound => STATUS_NOT_FOUND,
            AuthAPIError::InternalError(_) => STATUS_INTERNAL_SERVER_ERROR,
            AuthAPIError::MissingToken => STATUS_BAD_REQUEST,
            AuthAPIError::InvalidEmail => STATUS_BAD_REQUEST,
            AuthAPIError::InvalidPassword => STATUS_BAD_REQUEST,
            AuthAPIError::MalformedCode => STATUS_BAD_REQUEST,
            _ => STATUS_UNAUTHORIZED,
        }
    }
}

} // verus!
