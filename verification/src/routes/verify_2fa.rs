use vstd::prelude::*;
use vstd::string::*;

use crate::models::data_store::{
    email_result_view,
    validate_code_verdict,
    Challenge,
    LoginAttemptId,
    TwoFACode,
    TwoFACodeStore,
    TwoFACodeStoreError,
};
use crate::models::email::{is_valid_email, Email};
use crate::models::error::{AuthAPIError, InternalFault};
use crate::models::verify_2fa::{Verify2FARequest, Verify2FAResponse};
use crate::routes::login::mint_session_token;
use crate::utils::auth::is_token_for;
use crate::utils::text::{is_six_digits, trim, trimmed};

verus! {

/// What the shape of a code comes to, once the white space around it is
/// gone: none at all is a missing code, anything but six digits a malformed
/// one.
pub open spec fn code_shape(code: Seq<char>) -> Result<(), AuthAPIError> {
    if code.len() == 0 {
        Err(AuthAPIError::MissingToken)
    } else if !is_six_digits(code) {
        Err(AuthAPIError::MalformedCode)
    } else {
        Ok(())
    }
}

/// Reads a code that has no white space around it any more, without
/// touching any store.
pub fn read_code(code: String) -> (r: Result<TwoFACode, AuthAPIError>)
    ensures
        match r {
            Ok(parsed) => code_shape(code@) is Ok && parsed@ == code@,
            Err(e) => code_shape(code@) == Err::<(), AuthAPIError>(e),
        },
{
    if code.as_str().is_empty() {
        return Err(AuthAPIError::MissingToken);
    }
    match TwoFACode::parse(code) {
        Ok(parsed) => Ok(parsed),
        Err(_) => Err(AuthAPIError::MalformedCode),
    }
}

/// Reads a code as it was submitted: the white space at its ends is dropped,
/// then [`read_code`] reads the rest.
pub fn parse_submitted_code(code: String) -> (r: Result<TwoFACode, AuthAPIError>)
    ensures
        match r {
            Ok(parsed) => code_shape(trimmed(code@)) is Ok && parsed@ == trimmed(code@),
            Err(e) => code_shape(trimmed(code@)) == Err::<(), AuthAPIError>(e),
        },
{
    read_code(trim(code.as_str()).to_string())
}

/// What a confirmation as it comes in is read as: the address must be well
/// formed; no attempt is pending under an empty id.
pub open spec fn confirmation_shape(email: Seq<char>, id: Seq<char>) -> Result<(), AuthAPIError> {
    if !is_valid_email(email) {
        Err(AuthAPIError::InvalidEmail)
    } else if id.len() == 0 {
        Err(AuthAPIError::CodeNotFound)
    } else {
        Ok(())
    }
}

/// Reads a confirmation from the strings that a caller submitted. The code
/// is taken as it is: [`verify_2fa`] reads it.
pub fn confirmation_request(email: String, login_attempt_id: String, code: String) -> (r: Result<
    Verify2FARequest,
    AuthAPIError,
>)
    ensures
        match r {
            Ok(request) => {
                &&& confirmation_shape(email@, login_attempt_id@) is Ok
                &&& request.email@ == email@
                &&& request.login_attempt_id@ == login_attempt_id@
                &&& request.token@ == code@
            },
            Err(e) => confirmation_shape(email@, login_attempt_id@) == Err::<(), AuthAPIError>(e),
        },
{
    let email = match Email::new(email) {
        Ok(email) => email,
        Err(_) => { return Err(AuthAPIError::InvalidEmail); },
    };
    let login_attempt_id = match LoginAttemptId::parse(login_attempt_id) {
        Ok(id) => id,
        Err(_) => { return Err(AuthAPIError::CodeNotFound); },
    };
    Ok(Verify2FARequest { email, login_attempt_id, token: code })
}

/// What the caller is shown once the challenge store has checked the code:
/// the address that the attempt was issued for, or the error.
pub open spec fn confirmation_verdict(validated: Result<Seq<char>, TwoFACodeStoreError>) -> Result<
    Seq<char>,
    AuthAPIError,
> {
    match validated {
        Ok(identity) => Ok(identity),
        Err(TwoFACodeStoreError::NotFoundCode) => Err(AuthAPIError::CodeNotFound),
        Err(TwoFACodeStoreError::InvalidCode) => Err(AuthAPIError::InvalidCode),
        Err(_) => Err(AuthAPIError::InternalError(InternalFault::ChallengeStore)),
    }
}

/// Turns the challenge store's answer to a code into the address to mint a
/// token for, or the error to show.
pub fn confirmed_identity(validated: Result<Email, TwoFACodeStoreError>) -> (r: Result<
    Email,
    AuthAPIError,
>)
    ensures
        match r {
            Ok(identity) => confirmation_verdict(email_result_view(validated)) == Ok::<
                Seq<char>,
                AuthAPIError,
            >(identity@),
            Err(e) => confirmation_verdict(email_result_view(validated)) == Err::<
                Seq<char>,
                AuthAPIError,
            >(e),
        },
{
    match validated {
        Ok(identity) => Ok(identity),
        Err(TwoFACodeStoreError::NotFoundCode) => Err(AuthAPIError::CodeNotFound),
        Err(TwoFACodeStoreError::InvalidCode) => Err(AuthAPIError::InvalidCode),
        Err(_) => Err(AuthAPIError::InternalError(InternalFault::ChallengeStore)),
    }
}

/// How a confirmation ends once the attempt was asked to be removed: the
/// token is handed out only if the attempt is gone.
pub fn confirmation_answer(removed: Result<(), TwoFACodeStoreError>, token: String) -> (r: Result<
    String,
    AuthAPIError,
>)
    ensures
        match r {
            Ok(handed) => removed is Ok && handed@ == token@,
            Err(e) => removed is Err && e == AuthAPIError::InternalError(
                InternalFault::ChallengeStore,
            ),
        },
{
    match removed {
        Ok(()) => Ok(token),
        Err(_) => Err(AuthAPIError::InternalError(InternalFault::ChallengeStore)),
    }
}

/// What confirming the attempt `id` with the six digits `code` guarantees.
/// `before` and `after` are the pending attempts around the call,
/// `dependable` tells whether the store cannot fail. With a store that
/// cannot fail the right code always yields the token. Only a confirmation
/// that succeeds consumes the attempt: after a wrong code it is still
/// pending.
pub open spec fn confirm_post(
    before: Map<Seq<char>, Challenge>,
    after: Map<Seq<char>, Challenge>,
    dependable: bool,
    id: Seq<char>,
    code: Seq<char>,
    secret: Seq<char>,
    r: Result<String, AuthAPIError>,
) -> bool {
    match r {
        Ok(token) => validate_code_verdict(before, id, code) matches Ok(identity) && is_token_for(
            token@,
            secret,
            identity,
        ) && after == before.remove(id),
        Err(AuthAPIError::InternalError(InternalFault::ChallengeStore)) => after == before
            && !dependable,
        Err(shown) => after == before && confirmation_verdict(
            validate_code_verdict(before, id, code),
        ) == Err::<Seq<char>, AuthAPIError>(shown),
    }
}

/// Confirms the attempt `login_attempt_id` with `code`: checks the code
/// against the pending attempt, mints the session token for the address that
/// the attempt was issued for, and only then removes the attempt.
pub fn confirm_code<C: TwoFACodeStore>(
    two_fa_code_store: &mut C,
    secret: &str,
    login_attempt_id: &LoginAttemptId,
    code: &TwoFACode,
) -> (r: Result<String, AuthAPIError>)
    ensures
        confirm_post(
            old(two_fa_code_store).pending(),
            final(two_fa_code_store).pending(),
            old(two_fa_code_store).dependable(),
            login_attempt_id@,
            code@,
            secret@,
            r,
        ),
        final(two_fa_code_store).dependable() == old(two_fa_code_store).dependable(),
{
    let validated = two_fa_code_store.validate_code(login_attempt_id, code);
    let identity = match confirmed_identity(validated) {
        Ok(identity) => identity,
        Err(e) => { return Err(e); },
    };
    let session_token = match mint_session_token(&identity, secret) {
        Ok(session_token) => session_token,
        Err(e) => { return Err(e); },
    };
    let removed = two_fa_code_store.remove_code(login_attempt_id);
    confirmation_answer(removed, session_token)
}

/// What a confirmation guarantees, `code` being what was submitted without
/// the white space at its ends: a code of another shape is refused and
/// nothing changes, six digits are confirmed as [`confirm_post`] says.
pub open spec fn verify_2fa_post(
    before: Map<Seq<char>, Challenge>,
    after: Map<Seq<char>, Challenge>,
    dependable: bool,
    id: Seq<char>,
    code: Seq<char>,
    secret: Seq<char>,
    r: Result<String, AuthAPIError>,
) -> bool {
    match code_shape(code) {
        Err(shape) => r matches Err(e) && e == shape && after == before,
        Ok(()) => confirm_post(before, after, dependable, id, code, secret, r),
    }
}

/// Confirms a second factor: reads the submitted code, and confirms the
/// attempt with it. The token is minted for the address that the attempt was
/// issued for, before the attempt is removed.
pub fn verify_2fa<C: TwoFACodeStore>(
    two_fa_code_store: &mut C,
    secret: &str,
    request: Verify2FARequest,
) -> (r: Result<String, AuthAPIError>)
    ensures
        verify_2fa_post(
            old(two_fa_code_store).pending(),
            final(two_fa_code_store).pending(),
            old(two_fa_code_store).dependable(),
            request.login_attempt_id@,
            trimmed(request.token@),
            secret@,
            r,
        ),
        final(two_fa_code_store).dependable() == old(two_fa_code_store).dependable(),
{
    let Verify2FARequest { email: _, login_attempt_id, token } = request;
    let two_fa_code = match parse_submitted_code(token) {
        Ok(code) => code,
        Err(e) => { return Err(e); },
    };
    confirm_code(two_fa_code_store, secret, &login_attempt_id, &two_fa_code)
}

/// The body that tells a caller that the second factor is confirmed.
pub fn confirmed_response() -> (r: Verify2FAResponse)
    ensures
        r.message@ == "Token válido"@,
{
    Verify2FAResponse { message: "Token válido".to_string() }
}

} // verus!
