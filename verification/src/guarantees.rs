//! What holds across operations of the service. Each statement speaks of the
//! states around the calls and of their answers, tied together by what the
//! operations guarantee. Where a statement asks that a store cannot fail, it
//! is because a store that can may answer any call with an internal error.

use vstd::prelude::*;
use vstd::utf8::encode_utf8;

use crate::models::data_store::{credential_accepts, Challenge};
use crate::models::email::is_valid_email;
use crate::models::error::{AuthAPIError, InternalFault};
use crate::models::login::LoginOutcome;
use crate::models::password::{
    argon2_check,
    is_hashable,
    is_valid_password,
    password_verdict,
    PasswordError,
};
use crate::models::user::Account;
use crate::routes::login::login_post;
use crate::routes::signup::{credentials_shape, signup_post};
use crate::routes::verify_2fa::verify_2fa_post;
use crate::routes::verify_token::verify_token_verdict;
use crate::utils::auth::{
    expiry_of,
    is_token_for,
    jwt_decoded,
    key_bytes,
    token_carries,
    token_verdict,
    TokenError,
    TOKEN_TTL_SECONDS,
};
use crate::utils::text::is_six_digits;
use crate::SignupResponse;

verus! {

/// Whether an answer reports that a backend failed.
pub open spec fn is_internal_error<T>(r: Result<T, AuthAPIError>) -> bool {
    r matches Err(AuthAPIError::InternalError(_))
}

/// Register, then authenticate. With a credential store that cannot fail,
/// an address that no account is filed under is registered, with any secret
/// that is acceptable and that the hasher takes; logging in with the same
/// raw secret then yields a session token for the address and starts no
/// second factor; and that token, verified before it expires and while it is
/// not revoked, names the address. This is said of an account that asks for
/// no second factor.
pub proof fn register_then_authenticate(
    accounts: Map<Seq<char>, Account>,
    registered: Map<Seq<char>, Account>,
    pending: Map<Seq<char>, Challenge>,
    pending_after: Map<Seq<char>, Challenge>,
    email: Seq<char>,
    password: Seq<char>,
    secret: Seq<char>,
    store_dependable: bool,
    client_dependable: bool,
    signed_up: Result<SignupResponse, AuthAPIError>,
    logged_in: Result<LoginOutcome, AuthAPIError>,
)
    requires
        is_valid_email(email),
        is_valid_password(password),
        !accounts.contains_key(email),
        is_hashable(password),
        signup_post(accounts, registered, true, email, password, false, signed_up),
        login_post(
            registered,
            true,
            pending,
            pending_after,
            store_dependable,
            client_dependable,
            email,
            password,
            secret,
            logged_in,
        ),
    ensures
        signed_up is Ok,
        logged_in matches Ok(LoginOutcome::Authenticated { token }) && is_token_for(
            token@,
            secret,
            email,
        ) && forall|exp: u64, now: int|
            #![trigger token_carries(token@, secret, email, exp), verify_token_verdict(token@, secret, now, false)]
            token_carries(token@, secret, email, exp) && now < exp ==> verify_token_verdict(
                token@,
                secret,
                now,
                false,
            ) == Ok::<(Seq<char>, u64), AuthAPIError>((email, exp)),
        pending_after == pending,
{
}

/// No existence leak. With a credential store that cannot fail, logging in
/// to a registered address with a secret that its credential does not accept
/// fails with the very error that logging in to an address without account
/// fails with, and neither login starts a second factor.
pub proof fn wrong_secret_fails_like_unknown_address(
    accounts: Map<Seq<char>, Account>,
    known: Seq<char>,
    wrong_password: Seq<char>,
    unknown: Seq<char>,
    any_password: Seq<char>,
    secret: Seq<char>,
    pending: Map<Seq<char>, Challenge>,
    pending_after: Map<Seq<char>, Challenge>,
    other_pending: Map<Seq<char>, Challenge>,
    other_pending_after: Map<Seq<char>, Challenge>,
    store_dependable: bool,
    client_dependable: bool,
    for_known: Result<LoginOutcome, AuthAPIError>,
    for_unknown: Result<LoginOutcome, AuthAPIError>,
)
    requires
        credentials_shape(known, wrong_password) is Ok,
        credentials_shape(unknown, any_password) is Ok,
        accounts.contains_key(known),
        !credential_accepts(accounts[known].credential, wrong_password),
        !accounts.contains_key(unknown),
        login_post(
            accounts,
            true,
            pending,
            pending_after,
            store_dependable,
            client_dependable,
            known,
            wrong_password,
            secret,
            for_known,
        ),
        login_post(
            accounts,
            true,
            other_pending,
            other_pending_after,
            store_dependable,
            client_dependable,
            unknown,
            any_password,
            secret,
            for_unknown,
        ),
    ensures
        for_known matches Err(shown) && for_unknown matches Err(also_shown) && shown == also_shown
            && shown == AuthAPIError::InvalidCredentials,
        pending_after == pending,
        other_pending_after == other_pending,
{
}

/// Hash, then verify. Whatever hash comes out for a raw secret, checking the
/// same secret against it answers `true`.
pub proof fn hash_then_verify(encoded: Seq<char>, password: Seq<char>)
    requires
        credential_accepts(encoded, password),
    ensures
        password_verdict(argon2_check(encoded, encode_utf8(password))) == Ok::<bool, PasswordError>(
            true,
        ),
{
}

/// Revoking is idempotent. Once a token has been revoked, revoking it again
/// changes nothing and the token is still listed, whether or not the backend
/// answered the second time. `first` and `second` are the sets after each
/// revocation, as a registry guarantees them.
pub proof fn revoke_twice(
    banned: Set<Seq<char>>,
    first: Set<Seq<char>>,
    second: Set<Seq<char>>,
    token: Seq<char>,
    second_answer: Option<()>,
)
    requires
        first == banned.insert(token),
        second == (if second_answer is Some {
            first.insert(token)
        } else {
            first
        }),
    ensures
        second == first,
        second.contains(token),
{
}

/// A login with second factor starts a challenge. With a credential store, a
/// challenge store and a mail client that cannot fail, and nothing pending
/// yet, logging in to an account that asks for a second factor, with a
/// secret that its credential accepts, ends with one new pending attempt for
/// the address, under the id that is handed out, with six digits as code.
pub proof fn login_starts_the_second_factor(
    accounts: Map<Seq<char>, Account>,
    pending: Map<Seq<char>, Challenge>,
    pending_after: Map<Seq<char>, Challenge>,
    email: Seq<char>,
    password: Seq<char>,
    secret: Seq<char>,
    logged_in: Result<LoginOutcome, AuthAPIError>,
)
    requires
        credentials_shape(email, password) is Ok,
        accounts.contains_key(email),
        accounts[email].requires_2_fa,
        credential_accepts(accounts[email].credential, password),
        forall|id: Seq<char>| !pending.contains_key(id),
        login_post(accounts, true, pending, pending_after, true, true, email, password, secret, logged_in),
    ensures
        logged_in matches Ok(LoginOutcome::SecondFactorPending { login_attempt_id })
            && login_attempt_id@.len() > 0 && pending_after.contains_key(login_attempt_id@)
            && pending_after[login_attempt_id@].email == email && is_six_digits(
            pending_after[login_attempt_id@].code,
        ) && pending_after == pending.insert(login_attempt_id@, pending_after[login_attempt_id@]),
{
}

/// The second factor completes a login. When a login ends with a pending
/// attempt, confirming that attempt with the code that waits under it, at a
/// challenge store that cannot fail, yields a session token for the address
/// that logged in, and uses the attempt up.
pub proof fn second_factor_completes_login(
    accounts: Map<Seq<char>, Account>,
    pending: Map<Seq<char>, Challenge>,
    pending_after_login: Map<Seq<char>, Challenge>,
    pending_after_confirmation: Map<Seq<char>, Challenge>,
    email: Seq<char>,
    password: Seq<char>,
    secret: Seq<char>,
    users_dependable: bool,
    store_dependable: bool,
    client_dependable: bool,
    logged_in: Result<LoginOutcome, AuthAPIError>,
    id: Seq<char>,
    confirmed: Result<String, AuthAPIError>,
)
    requires
        login_post(
            accounts,
            users_dependable,
            pending,
            pending_after_login,
            store_dependable,
            client_dependable,
            email,
            password,
            secret,
            logged_in,
        ),
        logged_in matches Ok(LoginOutcome::SecondFactorPending { login_attempt_id })
            && login_attempt_id@ == id,
        verify_2fa_post(
            pending_after_login,
            pending_after_confirmation,
            true,
            id,
            pending_after_login[id].code,
            secret,
            confirmed,
        ),
    ensures
        confirmed matches Ok(token) && is_token_for(token@, secret, email),
        !pending_after_confirmation.contains_key(id),
        accounts.contains_key(email) && accounts[email].requires_2_fa,
{
}

/// A code is used once. At a challenge store that cannot fail, confirming a
/// pending attempt with its code succeeds with a token for the address of
/// the attempt, and confirming it with the same code again finds no attempt
/// and changes nothing.
pub proof fn second_factor_is_single_use(
    pending: Map<Seq<char>, Challenge>,
    after_first: Map<Seq<char>, Challenge>,
    after_second: Map<Seq<char>, Challenge>,
    id: Seq<char>,
    code: Seq<char>,
    secret: Seq<char>,
    first: Result<String, AuthAPIError>,
    second: Result<String, AuthAPIError>,
)
    requires
        pending.contains_key(id),
        pending[id].code == code,
        is_six_digits(code),
        verify_2fa_post(pending, after_first, true, id, code, secret, first),
        verify_2fa_post(after_first, after_second, true, id, code, secret, second),
    ensures
        first matches Ok(token) && is_token_for(token@, secret, pending[id].email),
        after_first == pending.remove(id),
        second matches Err(shown) && shown == AuthAPIError::CodeNotFound,
        after_second == after_first,
{
}

/// A confirmed attempt is gone, at any challenge store. After a confirmation
/// that succeeded, the same confirmation does not succeed again: it finds no
/// attempt, unless the store fails.
pub proof fn confirmed_attempt_is_gone(
    pending: Map<Seq<char>, Challenge>,
    after_first: Map<Seq<char>, Challenge>,
    after_second: Map<Seq<char>, Challenge>,
    id: Seq<char>,
    code: Seq<char>,
    secret: Seq<char>,
    dependable: bool,
    first: Result<String, AuthAPIError>,
    second: Result<String, AuthAPIError>,
)
    requires
        verify_2fa_post(pending, after_first, dependable, id, code, secret, first),
        verify_2fa_post(after_first, after_second, dependable, id, code, secret, second),
        first is Ok,
    ensures
        second matches Err(shown) && (shown == AuthAPIError::CodeNotFound || shown
            == AuthAPIError::InternalError(InternalFault::ChallengeStore)),
        after_second == after_first,
{
}

/// A wrong code does not use the attempt up. At a challenge store that
/// cannot fail, six digits other than the pending code are refused as an
/// invalid code, and the attempt is still pending afterwards, so the right
/// code can follow.
pub proof fn wrong_code_keeps_the_attempt(
    pending: Map<Seq<char>, Challenge>,
    after: Map<Seq<char>, Challenge>,
    id: Seq<char>,
    wrong_code: Seq<char>,
    secret: Seq<char>,
    answer: Result<String, AuthAPIError>,
)
    requires
        pending.contains_key(id),
        is_six_digits(wrong_code),
        pending[id].code != wrong_code,
        verify_2fa_post(pending, after, true, id, wrong_code, secret, answer),
    ensures
        answer matches Err(shown) && shown == AuthAPIError::InvalidCode,
        after == pending,
{
}

/// Expiry. A token minted at `issued` holds at every instant before `issued`
/// plus the time to live, and is expired at that instant and at every later
/// one.
pub proof fn token_expires_on_time(
    token: Seq<char>,
    secret: Seq<char>,
    subject: Seq<char>,
    issued: int,
    checked: int,
)
    requires
        expiry_of(issued) matches Some(exp) && token_carries(token, secret, subject, exp),
    ensures
        checked < issued + TOKEN_TTL_SECONDS ==> token_verdict(
            jwt_decoded(token, key_bytes(secret)),
            checked,
            false,
        ) is Ok,
        checked >= issued + TOKEN_TTL_SECONDS ==> token_verdict(
            jwt_decoded(token, key_bytes(secret)),
            checked,
            false,
        ) == Err::<(Seq<char>, u64), TokenError>(TokenError::Expired),
        checked < issued + TOKEN_TTL_SECONDS ==> verify_token_verdict(token, secret, checked, false)
            == Ok::<(Seq<char>, u64), AuthAPIError>((subject, (issued + TOKEN_TTL_SECONDS) as u64)),
        checked >= issued + TOKEN_TTL_SECONDS ==> verify_token_verdict(
            token,
            secret,
            checked,
            false,
        ) == Err::<(Seq<char>, u64), AuthAPIError>(AuthAPIError::ExpiredToken),
{
}

/// Revocation wins over a good signature. A token that would hold by its
/// signature and expiry alone is refused as revoked once the registry lists
/// it.
pub proof fn revoked_token_is_refused(
    token: Seq<char>,
    secret: Seq<char>,
    subject: Seq<char>,
    exp: u64,
    now: int,
)
    requires
        token_carries(token, secret, subject, exp),
        now < exp,
    ensures
        verify_token_verdict(token, secret, now, true) == Err::<(Seq<char>, u64), AuthAPIError>(
            AuthAPIError::RevokedToken,
        ),
        verify_token_verdict(token, secret, now, false) == Ok::<(Seq<char>, u64), AuthAPIError>(
            (subject, exp),
        ),
{
}

/// No way back to valid. A token that is refused stays refused at every
/// later instant, whatever else is revoked in between: the registry only
/// grows, and time only passes.
pub proof fn refused_token_stays_refused(
    decoded: Result<(Seq<char>, u64), TokenError>,
    earlier: int,
    later: int,
    revoked_earlier: bool,
    revoked_later: bool,
)
    requires
        earlier <= later,
        revoked_earlier ==> revoked_later,
        token_verdict(decoded, earlier, revoked_earlier) is Err,
    ensures
        token_verdict(decoded, later, revoked_later) is Err,
{
}

/// One account for an address. Once an address is registered, registering it
/// again at a credential store that cannot fail is refused as taken, whatever
/// acceptable secret and flag come with it, and the account that is filed
/// stays as it is.
pub proof fn address_registers_once(
    accounts: Map<Seq<char>, Account>,
    registered: Map<Seq<char>, Account>,
    afterwards: Map<Seq<char>, Account>,
    email: Seq<char>,
    password: Seq<char>,
    requires_2_fa: bool,
    other_password: Seq<char>,
    other_requires_2_fa: bool,
    first: Result<SignupResponse, AuthAPIError>,
    second: Result<SignupResponse, AuthAPIError>,
)
    requires
        signup_post(accounts, registered, true, email, password, requires_2_fa, first),
        signup_post(
            registered,
            afterwards,
            true,
            email,
            other_password,
            other_requires_2_fa,
            second,
        ),
        first is Ok,
        is_valid_password(other_password),
        is_hashable(other_password),
    ensures
        second matches Err(shown) && shown == AuthAPIError::UserAlreadyExists,
        afterwards == registered,
{
}

} // verus!
