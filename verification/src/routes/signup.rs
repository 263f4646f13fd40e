use vstd::prelude::*;
use vstd::string::*;

use crate::models::data_store::{UserStore, UserStoreError};
use crate::models::email::{is_valid_email, Email};
use crate::models::error::{AuthAPIError, InternalFault};
use crate::models::password::{is_hash_of, is_hashable, is_valid_password, HashedPassword};
use crate::models::signup::SignupRequest;
use crate::models::user::{Account, User};
use crate::SignupResponse;

verus! {

/// What the shapes of an address and a raw secret come to: the address is
/// looked at first.
pub open spec fn credentials_shape(email: Seq<char>, password: Seq<char>) -> Result<
    (),
    AuthAPIError,
> {
    if !is_valid_email(email) {
        Err(AuthAPIError::InvalidEmail)
    } else if !is_valid_password(password) {
        Err(AuthAPIError::InvalidPassword)
    } else {
        Ok(())
    }
}

/// Checks the shapes of an address and a raw secret, without touching any
/// store.
pub fn check_credentials_shape(email: &str, password: &str) -> (r: Result<(), AuthAPIError>)
    ensures
        r == credentials_shape(email@, password@),
{
    if Email::validate(email).is_err() {
        return Err(AuthAPIError::InvalidEmail);
    }
    if HashedPassword::validate(password).is_err() {
        return Err(AuthAPIError::InvalidPassword);
    }
    Ok(())
}

/// Whether the raw secret of a registration has an acceptable shape.
pub fn is_valid_password_credentials(payload: &SignupRequest) -> (r: bool)
    ensures
        r == is_valid_password(payload.password@),
{
    HashedPassword::validate(payload.password.as_str()).is_ok()
}

/// Whether the address of a registration has an acceptable shape.
pub fn is_valid_email_credentials(payload: &SignupRequest) -> (r: bool)
    ensures
        r == is_valid_email(payload.email@),
{
    Email::validate(payload.email.as_str()).is_ok()
}

/// What preparing an account guarantees: a malformed input is named, and an
/// account that comes out carries the address, the flag, and as credential a
/// hash of the raw secret under the fixed costs. An account comes out for
/// every well-formed input whose secret the hasher takes.
pub open spec fn new_account_post(
    email: Seq<char>,
    password: Seq<char>,
    requires_2_fa: bool,
    r: Result<User, AuthAPIError>,
) -> bool {
    match credentials_shape(email, password) {
        Err(shape) => r matches Err(e) && e == shape,
        Ok(()) => match r {
            Ok(user) => user.email@ == email && user.requires_2_fa == requires_2_fa
                && is_hash_of(user.password@, password),
            Err(e) => e == AuthAPIError::InternalError(InternalFault::PasswordHashing)
                && !is_hashable(password),
        },
    }
}

/// Prepares the account of a registration: checks the shapes, hashes the
/// secret and draws an id. No store is touched.
pub fn new_account(payload: SignupRequest) -> (r: Result<User, AuthAPIError>)
    ensures
        new_account_post(payload.email@, payload.password@, payload.requires_2_fa, r),
{
    let SignupRequest { email, password, requires_2_fa } = payload;
    match check_credentials_shape(email.as_str(), password.as_str()) {
        Err(e) => { return Err(e); },
        Ok(()) => {},
    }
    let email = match Email::new(email) {
        Ok(email) => email,
        Err(_) => { return Err(AuthAPIError::InvalidEmail); },
    };
    match HashedPassword::new(password) {
        Ok(hashed) => Ok(User::new(email, hashed, requires_2_fa)),
        Err(_) => Err(AuthAPIError::InternalError(InternalFault::PasswordHashing)),
    }
}

/// What a registration answers, given what the store said to the new account.
pub open spec fn signup_verdict(added: Result<(), UserStoreError>) -> Result<(), AuthAPIError> {
    match added {
        Ok(()) => Ok(()),
        Err(UserStoreError::UserAlreadyExists) => Err(AuthAPIError::UserAlreadyExists),
        Err(_) => Err(AuthAPIError::InternalError(InternalFault::CredentialStore)),
    }
}

/// Turns the store's answer to a new account into the answer to the caller.
pub fn signup_answer(added: Result<(), UserStoreError>) -> (r: Result<SignupResponse, AuthAPIError>)
    ensures
        match r {
            Ok(response) => signup_verdict(added) is Ok && response.message@
                == "Usuário criado com sucesso"@,
            Err(e) => signup_verdict(added) == Err::<(), AuthAPIError>(e),
        },
{
    match added {
        Ok(()) => Ok(SignupResponse { message: "Usuário criado com sucesso".to_string() }),
        Err(UserStoreError::UserAlreadyExists) => Err(AuthAPIError::UserAlreadyExists),
        Err(_) => Err(AuthAPIError::InternalError(InternalFault::CredentialStore)),
    }
}

/// What a registration guarantees. `before` and `after` are the accounts of
/// the store around the call, `dependable` tells whether the store cannot
/// fail: then a well-formed registration of a free address, with a secret
/// that the hasher takes, files the account.
pub open spec fn signup_post(
    before: Map<Seq<char>, Account>,
    after: Map<Seq<char>, Account>,
    dependable: bool,
    email: Seq<char>,
    password: Seq<char>,
    requires_2_fa: bool,
    r: Result<SignupResponse, AuthAPIError>,
) -> bool {
    match r {
        Ok(response) => {
            &&& credentials_shape(email, password) is Ok
            &&& response.message@ == "Usuário criado com sucesso"@
            &&& !before.contains_key(email)
            &&& after.contains_key(email)
            &&& after == before.insert(email, after[email])
            &&& after[email].email == email
            &&& after[email].requires_2_fa == requires_2_fa
            &&& is_hash_of(after[email].credential, password)
        },
        Err(e) => {
            &&& after == before
            &&& match credentials_shape(email, password) {
                Err(shape) => e == shape,
                Ok(()) => match e {
                    AuthAPIError::UserAlreadyExists => before.contains_key(email),
                    AuthAPIError::InternalError(fault) => (fault
                        == InternalFault::PasswordHashing && !is_hashable(password)) || (fault
                        == InternalFault::CredentialStore && !dependable),
                    _ => false,
                },
            }
        },
    }
}

/// Registers an account: checks the shapes, hashes the secret, and files the
/// account unless the address is taken. A malformed input is refused before
/// the store is touched.
pub fn signup<U: UserStore>(user_store: &mut U, payload: SignupRequest) -> (r: Result<
    SignupResponse,
    AuthAPIError,
>)
    ensures
        signup_post(
            old(user_store).accounts(),
            final(user_store).accounts(),
            old(user_store).dependable(),
            payload.email@,
            payload.password@,
            payload.requires_2_fa,
            r,
        ),
        final(user_store).dependable() == old(user_store).dependable(),
{
    let user = match new_account(payload) {
        Ok(user) => user,
        Err(e) => { return Err(e); },
    };
    let added = user_store.add_user(user);
    signup_answer(added)
}

} // verus!
