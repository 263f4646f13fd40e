use vstd::prelude::*;
use vstd::string::*;

use crate::models::data_store::BannedTokenStore;
use crate::models::error::{AuthAPIError, InternalFault};
use crate::models::verify_token::{VerifyTokenRequest, VerifyTokenResponse};
use crate::utils::auth::{
    current_timestamp,
    is_clock_time,
    jwt_decoded,
    key_bytes,
    token_verdict,
    validate_token_at,
    Claims,
    TokenError,
};

use crate::utils::text::{trim, trimmed};

verus! {

/// The error that a caller is given for a token that was not honoured.
pub open spec fn token_error_shown(e: TokenError) -> AuthAPIError {
    match e {
        TokenError::Malformed => AuthAPIError::MalformedToken,
        TokenError::BadSignature => AuthAPIError::BadSignature,
        TokenError::Expired => AuthAPIError::ExpiredToken,
        TokenError::Revoked => AuthAPIError::RevokedToken,
    }
}

/// What verifying `token` at time `now` answers, `revoked` telling whether
/// the registry lists it: its subject and expiry time, or why it does not
/// hold.
pub open spec fn verify_token_verdict(
    token: Seq<char>,
    secret: Seq<char>,
    now: int,
    revoked: bool,
) -> Result<(Seq<char>, u64), AuthAPIError> {
    if token.len() == 0 {
        Err(AuthAPIError::MissingToken)
    } else {
        match token_verdict(jwt_decoded(token, key_bytes(secret)), now, revoked) {
            Ok(claims) => Ok(claims),
            Err(e) => Err(token_error_shown(e)),
        }
    }
}

/// The claims inside an answer, if it holds any.
pub open spec fn verified_view(r: Result<Claims, AuthAPIError>) -> Result<
    (Seq<char>, u64),
    AuthAPIError,
> {
    match r {
        Ok(claims) => Ok(claims@),
        Err(e) => Err(e),
    }
}

/// The error that a caller is given for a token that was not honoured.
pub fn show_token_error(e: TokenError) -> (r: AuthAPIError)
    ensures
        r == token_error_shown(e),
{
    match e {
        TokenError::Malformed => AuthAPIError::MalformedToken,
        TokenError::BadSignature => AuthAPIError::BadSignature,
        TokenError::Expired => AuthAPIError::ExpiredToken,
        TokenError::Revoked => AuthAPIError::RevokedToken,
    }
}

/// Refuses a token that is empty, before anything else is looked at.
pub fn require_token(token: &str) -> (r: Result<(), AuthAPIError>)
    ensures
        r == (if token@.len() == 0 {
            Err::<(), AuthAPIError>(AuthAPIError::MissingToken)
        } else {
            Ok::<(), AuthAPIError>(())
        }),
{
    if token.is_empty() {
        Err(AuthAPIError::MissingToken)
    } else {
        Ok(())
    }
}

/// Turns the end of a token's verification into the answer to the caller.
pub fn token_answer(verified: Result<Claims, TokenError>) -> (r: Result<Claims, AuthAPIError>)
    ensures
        match verified {
            Ok(claims) => r == Ok::<Claims, AuthAPIError>(claims),
            Err(e) => r == Err::<Claims, AuthAPIError>(token_error_shown(e)),
        },
{
    match verified {
        Ok(claims) => Ok(claims),
        Err(e) => Err(show_token_error(e)),
    }
}

/// Whether a token is listed as revoked, given what the registry answered:
/// where it could not be asked, that is an internal error, and the token is
/// not taken for valid.
pub fn revocation_answer(asked: Option<bool>) -> (r: Result<bool, AuthAPIError>)
    ensures
        r == (match asked {
            Some(listed) => Ok::<bool, AuthAPIError>(listed),
            None => Err::<bool, AuthAPIError>(
                AuthAPIError::InternalError(InternalFault::RevocationStore),
            ),
        }),
{
    match asked {
        Some(listed) => Ok(listed),
        None => Err(AuthAPIError::InternalError(InternalFault::RevocationStore)),
    }
}

/// Verifies the token `token`, which has no white space around it any more,
/// as of `now`, and answers with what it asserts.
pub fn verify_presented_at<B: BannedTokenStore>(
    banned_token_store: &B,
    secret: &str,
    token: &str,
    now: i64,
) -> (r: Result<Claims, AuthAPIError>)
    ensures
        verified_view(r) == verify_token_verdict(
            token@,
            secret@,
            now as int,
            banned_token_store.banned().contains(token@),
        ),
{
    match require_token(token) {
        Ok(()) => {},
        Err(e) => { return Err(e); },
    }
    token_answer(validate_token_at(banned_token_store, token, secret, now))
}

/// Reads the token of a request: the white space at its ends is dropped, and
/// what is left must not be empty.
pub fn read_token<'a>(request: &'a VerifyTokenRequest) -> (r: Result<&'a str, AuthAPIError>)
    ensures
        match r {
            Ok(token) => token@ == trimmed(request.token@) && token@.len() > 0,
            Err(e) => trimmed(request.token@).len() == 0 && e == AuthAPIError::MissingToken,
        },
{
    let token = trim(request.token.as_str());
    match require_token(token) {
        Ok(()) => Ok(token),
        Err(e) => Err(e),
    }
}

/// Verifies the token of a request as of `now`: the white space at its ends
/// is dropped, then [`verify_presented_at`] verifies the rest.
pub fn verify_token_at<B: BannedTokenStore>(
    banned_token_store: &B,
    secret: &str,
    request: &VerifyTokenRequest,
    now: i64,
) -> (r: Result<Claims, AuthAPIError>)
    ensures
        verified_view(r) == verify_token_verdict(
            trimmed(request.token@),
            secret@,
            now as int,
            banned_token_store.banned().contains(trimmed(request.token@)),
        ),
{
    verify_presented_at(banned_token_store, secret, trim(request.token.as_str()), now)
}

/// Verifies the token of a request at the present time.
pub fn verify_token<B: BannedTokenStore>(
    banned_token_store: &B,
    secret: &str,
    request: &VerifyTokenRequest,
) -> (r: Result<Claims, AuthAPIError>)
    ensures
        exists|now: int|
            is_clock_time(now) && verified_view(r) == verify_token_verdict(
                trimmed(request.token@),
                secret@,
                now,
                banned_token_store.banned().contains(trimmed(request.token@)),
            ),
{
    let now = current_timestamp();
    let r = verify_token_at(banned_token_store, secret, request, now);
    assert(is_clock_time(now as int) && verified_view(r) == verify_token_verdict(
        trimmed(request.token@),
        secret@,
        now as int,
        banned_token_store.banned().contains(trimmed(request.token@)),
    ));
    r
}

/// The body that tells a caller that the token holds.
pub fn token_valid_response() -> (r: VerifyTokenResponse)
    ensures
        r.message@ == "Token válido"@,
{
    VerifyTokenResponse { message: "Token válido".to_string() }
}

} // verus!
