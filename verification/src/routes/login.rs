use vstd::prelude::*;
use vstd::string::*;

use crate::models::data_store::{
    user_result_view,
    validate_user_verdict,
    Challenge,
    LoginAttemptId,
    TwoFACode,
    TwoFACodeStore,
    TwoFACodeStoreError,
    UserStore,
    UserStoreError,
};
use crate::models::email::Email;
use crate::models::email_client::{EmailClient, EmailClientError};
use crate::models::error::{AuthAPIError, InternalFault};
use crate::models::login::{LoginOutcome, LoginRequest};
use crate::models::user::{Account, User};
use crate::routes::signup::{check_credentials_shape, credentials_shape};
use crate::utils::auth::{generate_auth_token, is_token_for};
use crate::utils::text::{is_six_digits, joined};

verus! {

/// Subject of the message that carries a one-time code.
pub const TWO_FA_SUBJECT: &'static str = "Código de Autenticação de Dois Fatores";

/// Reads the address of a login after checking the shapes of address and
/// secret, without touching any store.
pub fn login_identity(request: &LoginRequest) -> (r: Result<Email, AuthAPIError>)
    ensures
        match r {
            Ok(email) => credentials_shape(request.email@, request.password@) is Ok && email@
                == request.email@,
            Err(e) => credentials_shape(request.email@, request.password@) == Err::<
                (),
                AuthAPIError,
            >(e),
        },
{
    match check_credentials_shape(request.email.as_str(), request.password.as_str()) {
        Err(e) => { return Err(e); },
        Ok(()) => {},
    }
    match Email::new(request.email.clone()) {
        Ok(email) => Ok(email),
        Err(_) => Err(AuthAPIError::InvalidEmail),
    }
}

/// How a login goes on after the credential store has validated the secret:
/// whether a second factor is needed, or the error to show. An unknown
/// address and a wrong secret are shown as the same error.
pub open spec fn second_factor_verdict(validated: Result<Account, UserStoreError>) -> Result<
    bool,
    AuthAPIError,
> {
    match validated {
        Ok(account) => Ok(account.requires_2_fa),
        Err(UserStoreError::UserNotFound) => Err(AuthAPIError::InvalidCredentials),
        Err(UserStoreError::InvalidCredentials) => Err(AuthAPIError::InvalidCredentials),
        Err(_) => Err(AuthAPIError::InternalError(InternalFault::CredentialStore)),
    }
}

/// Decides how a login goes on, given what the credential store answered.
pub fn second_factor_needed(validated: &Result<User, UserStoreError>) -> (r: Result<
    bool,
    AuthAPIError,
>)
    ensures
        r == second_factor_verdict(user_result_view(*validated)),
{
    match validated {
        Ok(user) => Ok(user.requires_2_fa),
        Err(UserStoreError::UserNotFound) => Err(AuthAPIError::InvalidCredentials),
        Err(UserStoreError::InvalidCredentials) => Err(AuthAPIError::InvalidCredentials),
        Err(_) => Err(AuthAPIError::InternalError(InternalFault::CredentialStore)),
    }
}

/// The text of the message that carries `code`.
pub fn two_fa_message(code: &TwoFACode) -> (r: String)
    ensures
        r@ == "Seu código de autenticação de dois fatores é: "@ + code@,
        is_six_digits(code@),
{
    joined("Seu código de autenticação de dois fatores é: ", code.as_str())
}

/// What the caller is told once the challenge store has answered to a new
/// attempt: any refusal is a failure of the store, an id that is taken
/// included, since ids are drawn at random.
pub fn challenge_filed(added: Result<(), TwoFACodeStoreError>) -> (r: Result<(), AuthAPIError>)
    ensures
        r == (if added is Ok {
            Ok::<(), AuthAPIError>(())
        } else {
            Err::<(), AuthAPIError>(AuthAPIError::InternalError(InternalFault::ChallengeStore))
        }),
{
    match added {
        Ok(()) => Ok(()),
        Err(_) => Err(AuthAPIError::InternalError(InternalFault::ChallengeStore)),
    }
}

/// How starting a second factor ends, given whether the code was delivered.
pub fn challenge_outcome(sent: Result<(), EmailClientError>, login_attempt_id: LoginAttemptId) -> (r:
    Result<LoginOutcome, AuthAPIError>)
    ensures
        match r {
            Ok(LoginOutcome::SecondFactorPending { login_attempt_id: id }) => sent is Ok && id
                == login_attempt_id,
            Ok(_) => false,
            Err(e) => sent is Err && e == AuthAPIError::InternalError(
                InternalFault::MessageDelivery,
            ),
        },
{
    match sent {
        Ok(()) => Ok(LoginOutcome::SecondFactorPending { login_attempt_id }),
        Err(_) => Err(AuthAPIError::InternalError(InternalFault::MessageDelivery)),
    }
}

/// Whether `after` is `before` with one new attempt under the id `id`, which
/// is not empty, issued for `email` with some six-digit code.
pub open spec fn challenge_added(
    before: Map<Seq<char>, Challenge>,
    after: Map<Seq<char>, Challenge>,
    id: Seq<char>,
    email: Seq<char>,
) -> bool {
    &&& id.len() > 0
    &&& !before.contains_key(id)
    &&& after.contains_key(id)
    &&& after == before.insert(id, after[id])
    &&& after[id].email == email
    &&& is_six_digits(after[id].code)
}

/// What starting a second factor guarantees. `store_dependable` and
/// `client_dependable` tell whether the challenge store and the mail client
/// cannot fail. A store that cannot fail refuses only an id that is pending
/// already; a client that cannot fail delivers. A delivery that fails leaves
/// the new attempt pending: it is not retracted.
pub open spec fn handle_2fa_post(
    before: Map<Seq<char>, Challenge>,
    after: Map<Seq<char>, Challenge>,
    store_dependable: bool,
    client_dependable: bool,
    email: Seq<char>,
    r: Result<LoginOutcome, AuthAPIError>,
) -> bool {
    match r {
        Ok(LoginOutcome::SecondFactorPending { login_attempt_id }) => challenge_added(
            before,
            after,
            login_attempt_id@,
            email,
        ),
        Err(AuthAPIError::InternalError(InternalFault::ChallengeStore)) => after == before && (
        store_dependable ==> exists|id: Seq<char>| before.contains_key(id)),
        Err(AuthAPIError::InternalError(InternalFault::MessageDelivery)) => !client_dependable
            && exists|id: Seq<char>| challenge_added(before, after, id, email),
        _ => false,
    }
}

/// Files a pending attempt under `login_attempt_id` and has `code` delivered
/// to `email`.
pub fn start_challenge<C: TwoFACodeStore, E: EmailClient>(
    email: &Email,
    login_attempt_id: LoginAttemptId,
    code: TwoFACode,
    two_fa_code_store: &mut C,
    email_client: &E,
) -> (r: Result<LoginOutcome, AuthAPIError>)
    ensures
        handle_2fa_post(
            old(two_fa_code_store).pending(),
            final(two_fa_code_store).pending(),
            old(two_fa_code_store).dependable(),
            email_client.dependable(),
            email@,
            r,
        ),
        r matches Ok(LoginOutcome::SecondFactorPending { login_attempt_id: id }) ==> id@
            == login_attempt_id@ && final(two_fa_code_store).pending()[id@].code == code@,
        old(two_fa_code_store).dependable() ==> (r matches Err(
            AuthAPIError::InternalError(InternalFault::ChallengeStore),
        ) <==> old(two_fa_code_store).pending().contains_key(login_attempt_id@)),
        final(two_fa_code_store).dependable() == old(two_fa_code_store).dependable(),
{
    let body = two_fa_message(&code);
    let id_text = login_attempt_id.as_str();
    let ghost id = id_text@;
    let added = two_fa_code_store.add_code(email.clone(), login_attempt_id.clone(), code);
    match challenge_filed(added) {
        Ok(()) => {},
        Err(e) => { return Err(e); },
    }
    assert(challenge_added(
        old(two_fa_code_store).pending(),
        two_fa_code_store.pending(),
        id,
        email@,
    ));
    let sent = email_client.send_email(email, TWO_FA_SUBJECT, body.as_str());
    challenge_outcome(sent, login_attempt_id)
}

/// Starts a second factor for `email` under a fresh random id and a fresh
/// random code.
pub fn handle_2fa<C: TwoFACodeStore, E: EmailClient>(
    email: &Email,
    two_fa_code_store: &mut C,
    email_client: &E,
) -> (r: Result<LoginOutcome, AuthAPIError>)
    ensures
        handle_2fa_post(
            old(two_fa_code_store).pending(),
            final(two_fa_code_store).pending(),
            old(two_fa_code_store).dependable(),
            email_client.dependable(),
            email@,
            r,
        ),
        final(two_fa_code_store).dependable() == old(two_fa_code_store).dependable(),
{
    let login_attempt_id = LoginAttemptId::default();
    let two_fa_code = TwoFACode::default();
    start_challenge(email, login_attempt_id, two_fa_code, two_fa_code_store, email_client)
}

/// What a login without second factor guarantees: the session token.
pub open spec fn handle_no_2fa_post(
    email: Seq<char>,
    secret: Seq<char>,
    r: Result<LoginOutcome, AuthAPIError>,
) -> bool {
    r matches Ok(LoginOutcome::Authenticated { token }) && is_token_for(token@, secret, email)
}

/// Mints the session token of `email`. A token always comes out: the clock
/// shows no instant without expiry time, and signing does not fail.
pub fn mint_session_token(email: &Email, secret: &str) -> (r: Result<String, AuthAPIError>)
    ensures
        r matches Ok(token) && is_token_for(token@, secret@, email@),
{
    match generate_auth_token(email, secret) {
        Ok(token) => Ok(token),
        Err(_) => Err(AuthAPIError::InternalError(InternalFault::TokenMinting)),
    }
}

/// Completes a login that needs no second factor: mints the session token.
pub fn handle_no_2fa(email: &Email, secret: &str) -> (r: Result<LoginOutcome, AuthAPIError>)
    ensures
        handle_no_2fa_post(email@, secret@, r),
{
    match mint_session_token(email, secret) {
        Ok(token) => Ok(LoginOutcome::Authenticated { token }),
        Err(e) => Err(e),
    }
}

/// What a login guarantees. `accounts` are the accounts of the credential
/// store and `dependable` tells whether that store cannot fail; `before` and
/// `after` are the pending attempts of the challenge store around the call,
/// `store_dependable` and `client_dependable` tell whether the challenge
/// store and the mail client cannot fail. An unknown address and a wrong
/// secret give the same error.
pub open spec fn login_post(
    accounts: Map<Seq<char>, Account>,
    dependable: bool,
    before: Map<Seq<char>, Challenge>,
    after: Map<Seq<char>, Challenge>,
    store_dependable: bool,
    client_dependable: bool,
    email: Seq<char>,
    password: Seq<char>,
    secret: Seq<char>,
    r: Result<LoginOutcome, AuthAPIError>,
) -> bool {
    match credentials_shape(email, password) {
        Err(shape) => r matches Err(e) && e == shape && after == before,
        Ok(()) => match r {
            Err(AuthAPIError::InternalError(InternalFault::CredentialStore)) => after == before
                && !dependable,
            Err(AuthAPIError::InvalidCredentials) => validate_user_verdict(
                accounts,
                email,
                password,
            ) is Err && after == before,
            _ => validate_user_verdict(accounts, email, password) matches Ok(account) && (
            if account.requires_2_fa {
                handle_2fa_post(before, after, store_dependable, client_dependable, email, r)
            } else {
                handle_no_2fa_post(email, secret, r) && after == before
            }),
        },
    }
}

/// Authenticates a caller. The shapes are checked before any store is
/// touched; then the credential store validates the secret; then either the
/// session token is minted or a second factor is started.
pub fn login<U: UserStore, C: TwoFACodeStore, E: EmailClient>(
    user_store: &U,
    two_fa_code_store: &mut C,
    email_client: &E,
    secret: &str,
    request: LoginRequest,
) -> (r: Result<LoginOutcome, AuthAPIError>)
    ensures
        login_post(
            user_store.accounts(),
            user_store.dependable(),
            old(two_fa_code_store).pending(),
            final(two_fa_code_store).pending(),
            old(two_fa_code_store).dependable(),
            email_client.dependable(),
            request.email@,
            request.password@,
            secret@,
            r,
        ),
        final(two_fa_code_store).dependable() == old(two_fa_code_store).dependable(),
{
    let email = match login_identity(&request) {
        Ok(email) => email,
        Err(e) => { return Err(e); },
    };
    let validated = user_store.validate_user(&email, request.password.as_str());
    match second_factor_needed(&validated) {
        Err(e) => Err(e),
        Ok(true) => handle_2fa(&email, two_fa_code_store, email_client),
        Ok(false) => handle_no_2fa(&email, secret),
    }
}

} // verus!
