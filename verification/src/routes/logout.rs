use vstd::prelude::*;

use crate::models::data_store::BannedTokenStore;
use crate::models::error::{AuthAPIError, InternalFault};
use crate::utils::auth::{
    create_removal_cookie,
    current_timestamp,
    is_clock_time,
    jwt_decoded,
    key_bytes,
    token_verdict,
    validate_token_at,
    AuthCookie,
    Claims,
    TokenError,
};

verus! {

/// The token that a caller presented, if any.
pub open spec fn submitted(token: Option<&str>) -> Option<Seq<char>> {
    match token {
        Some(token) => Some(token@),
        None => None,
    }
}

/// The token to log out, unless the caller presented none.
pub fn presented_token<'a>(token: Option<&'a str>) -> (r: Result<&'a str, AuthAPIError>)
    ensures
        match r {
            Ok(presented) => submitted(token) == Some(presented@),
            Err(e) => token is None && e == AuthAPIError::MissingToken,
        },
{
    match token {
        Some(presented) => Ok(presented),
        None => Err(AuthAPIError::MissingToken),
    }
}

/// Whether a token may be logged out, given how its verification ended:
/// only one that still holds may.
pub open spec fn logout_verdict(verified: Result<(Seq<char>, u64), TokenError>) -> Result<
    (),
    AuthAPIError,
> {
    match verified {
        Ok(_) => Ok(()),
        Err(TokenError::Expired) => Err(AuthAPIError::ExpiredToken),
        Err(_) => Err(AuthAPIError::InvalidToken),
    }
}

/// Decides whether a token may be logged out, given how its verification
/// ended.
pub fn may_log_out(verified: &Result<Claims, TokenError>) -> (r: Result<(), AuthAPIError>)
    ensures
        r == logout_verdict(
            match *verified {
                Ok(claims) => Ok(claims@),
                Err(e) => Err(e),
            },
        ),
{
    match verified {
        Ok(_) => Ok(()),
        Err(TokenError::Expired) => Err(AuthAPIError::ExpiredToken),
        Err(_) => Err(AuthAPIError::InvalidToken),
    }
}

/// How a logout ends, given what the registry answered to the revocation:
/// with the cookie that makes the client drop its own, or with an internal
/// error.
pub fn logout_answer(revoked: Option<()>) -> (r: Result<AuthCookie, AuthAPIError>)
    ensures
        match r {
            Ok(cookie) => revoked is Some && cookie.is_session_cookie(Seq::<char>::empty(), true),
            Err(e) => revoked is None && e == AuthAPIError::InternalError(
                InternalFault::RevocationStore,
            ),
        },
{
    match revoked {
        Some(()) => Ok(create_removal_cookie()),
        None => Err(AuthAPIError::InternalError(InternalFault::RevocationStore)),
    }
}

/// What a logout at time `now` guarantees. `before` and `after` are the
/// revoked tokens around the call, `dependable` tells whether the registry
/// cannot fail. Only a token that is still valid can be logged out; the
/// answer then carries the cookie that makes the client drop its own.
pub open spec fn logout_post(
    before: Set<Seq<char>>,
    after: Set<Seq<char>>,
    dependable: bool,
    token: Option<Seq<char>>,
    secret: Seq<char>,
    now: int,
    r: Result<AuthCookie, AuthAPIError>,
) -> bool {
    match token {
        None => r matches Err(e) && e == AuthAPIError::MissingToken && after == before,
        Some(token) => match logout_verdict(
            token_verdict(jwt_decoded(token, key_bytes(secret)), now, before.contains(token)),
        ) {
            Err(refusal) => r matches Err(e) && e == refusal && after == before,
            Ok(()) => match r {
                Ok(cookie) => cookie.is_session_cookie(Seq::<char>::empty(), true) && after
                    == before.insert(token),
                Err(e) => e == AuthAPIError::InternalError(InternalFault::RevocationStore)
                    && after == before && !dependable,
            },
        },
    }
}

/// Logs a session out as of `now`: verifies the token, then revokes it.
pub fn logout_at<B: BannedTokenStore>(
    banned_token_store: &mut B,
    secret: &str,
    token: Option<&str>,
    now: i64,
) -> (r: Result<AuthCookie, AuthAPIError>)
    ensures
        logout_post(
            old(banned_token_store).banned(),
            final(banned_token_store).banned(),
            old(banned_token_store).dependable(),
            submitted(token),
            secret@,
            now as int,
            r,
        ),
        final(banned_token_store).dependable() == old(banned_token_store).dependable(),
{
    let token = match presented_token(token) {
        Ok(token) => token,
        Err(e) => { return Err(e); },
    };
    let verified = validate_token_at(&*banned_token_store, token, secret, now);
    match may_log_out(&verified) {
        Ok(()) => {},
        Err(e) => { return Err(e); },
    }
    let revoked = banned_token_store.ban_token(token);
    logout_answer(revoked)
}

/// Logs a session out at the present time.
pub fn logout<B: BannedTokenStore>(banned_token_store: &mut B, secret: &str, token: Option<&str>) -> (r:
    Result<AuthCookie, AuthAPIError>)
    ensures
        exists|now: int|
            is_clock_time(now) && #[trigger] logout_post(
                old(banned_token_store).banned(),
                final(banned_token_store).banned(),
                old(banned_token_store).dependable(),
                submitted(token),
                secret@,
                now,
                r,
            ),
        final(banned_token_store).dependable() == old(banned_token_store).dependable(),
{
    let now = current_timestamp();
    let r = logout_at(banned_token_store, secret, token, now);
    assert(is_clock_time(now as int) && logout_post(
        old(banned_token_store).banned(),
        banned_token_store.banned(),
        old(banned_token_store).dependable(),
        submitted(token),
        secret@,
        now as int,
        r,
    ));
    r
}

} // verus!
