use vstd::prelude::*;
use vstd::string::*;
use vstd::utf8::encode_utf8;

use crate::models::data_store::BannedTokenStore;
use crate::models::email::Email;
use crate::utils::constants::JWT_COOKIE_NAME;
use crate::utils::text::joined;

verus! {

/// Seconds for which a freshly minted token is valid.
pub const TOKEN_TTL_SECONDS: i64 = 600;

/// The error type of `jsonwebtoken`, carried through as it comes. Trusted:
/// nothing is known of what it holds.
#[verifier::external_type_specification]
#[verifier::external_body]
pub struct ExJwtError(jsonwebtoken::errors::Error);

/// Why no token was minted.
#[derive(Debug)]
pub enum GenerateTokenError {
    /// Signing failed.
    TokenError(jsonwebtoken::errors::Error),
    /// The expiry time cannot be represented.
    UnexpectedError,
}

impl GenerateTokenError {
    pub fn to_string(&self) -> (r: String)
        ensures
            self is UnexpectedError ==> r@ == "Erro inesperado durante a geração do token"@,
            self is TokenError ==> r@.len() >= "Erro na geração do token: "@.len() && r@.subrange(
                0,
                "Erro na geração do token: "@.len() as int,
            ) == "Erro na geração do token: "@,
    {
        match self {
            GenerateTokenError::TokenError(err) => {
                let described = describe_jwt_error(err);
                let r = joined("Erro na geração do token: ", described.as_str());
                assert(r@.subrange(0, "Erro na geração do token: "@.len() as int)
                    =~= "Erro na geração do token: "@);
                r
            },
            GenerateTokenError::UnexpectedError => {
                "Erro inesperado durante a geração do token".to_string()
            },
        }
    }
}

/// Why a token was not honoured.
#[derive(Debug, PartialEq, Eq, Structural)]
pub enum TokenError {
    /// The string cannot be decoded into signed claims.
    Malformed,
    /// The signature is not one that the key made.
    BadSignature,
    /// The signature holds and the expiry time has been reached.
    Expired,
    /// The token is valid by itself and has been revoked.
    Revoked,
}

/// What a token asserts: who it was issued to and until when it holds.
#[derive(Debug)]
pub struct Claims {
    pub sub: String,
    pub exp: u64,
}

impl View for Claims {
    type V = (Seq<char>, u64);

    open spec fn view(&self) -> (Seq<char>, u64) {
        (self.sub@, self.exp)
    }
}

/// The claims inside an answer, if it holds any.
pub open spec fn claims_result_view(r: Result<Claims, TokenError>) -> Result<
    (Seq<char>, u64),
    TokenError,
> {
    match r {
        Ok(claims) => Ok(claims@),
        Err(e) => Err(e),
    }
}

/// What decoding `token` under the key `secret` gives: the subject and the
/// expiry time that it carries, if its HS256 signature was made with `secret`
/// and its claims hold both; the fault otherwise. The expiry time is read, not
/// compared with any clock.
pub uninterp spec fn jwt_decoded(token: Seq<char>, secret: Seq<u8>) -> Result<
    (Seq<char>, u64),
    TokenError,
>;

/// The answer of decoding a token that carries the subject `sub` and the
/// expiry time `exp` under a good signature.
pub open spec fn carries(sub: Seq<char>, exp: u64) -> Result<(Seq<char>, u64), TokenError> {
    Ok((sub, exp))
}

/// The token that signing gives for the subject `sub` and the expiry time
/// `exp` under the key `secret`: the HS256 header, the two claims and the
/// signature over both, each in base64 and joined by dots.
pub uninterp spec fn jwt_signed(sub: Seq<char>, exp: u64, secret: Seq<u8>) -> Seq<char>;

/// Whether `r` is the answer of signing `sub` and `exp` under `secret`.
pub open spec fn is_signed(
    r: Result<String, jsonwebtoken::errors::Error>,
    sub: Seq<char>,
    exp: u64,
    secret: Seq<u8>,
) -> bool {
    r matches Ok(token) && token@ == jwt_signed(sub, exp, secret)
}

/// Calls `jsonwebtoken::encode` with the default header (HS256), the claims
/// `exp` and `sub`, and the key `EncodingKey::from_secret(secret)`. Trusted:
/// with a secret as key and HS256 in the header, `encode` has no way to fail:
/// the key's family is the header's, a header and a map with string keys
/// always serialise, and HMAC signing returns no error. Header, claims and
/// HMAC are written without any chance or clock, so the token depends on the
/// three arguments alone and is named [`jwt_signed`]; decoding it under the
/// same secret gives the two claims back, since decoding recomputes the
/// signature over the same bytes and reads the same JSON; and the token is
/// not empty, since it joins three parts with dots.
#[verifier::external_body]
fn jwt_sign(sub: &str, exp: u64, secret: &[u8]) -> (r: Result<String, jsonwebtoken::errors::Error>)
    ensures
        r is Ok,
        r matches Ok(token) ==> token@ == jwt_signed(sub@, exp, secret@),
        r matches Ok(token) ==> jwt_decoded(token@, secret@) == carries(sub@, exp),
        r matches Ok(token) ==> token@.len() > 0,
{
    let mut claims = serde_json::Map::new();
    claims.insert("exp".to_owned(), serde_json::Value::from(exp));
    claims.insert("sub".to_owned(), serde_json::Value::from(sub));
    let key = jsonwebtoken::EncodingKey::from_secret(secret);
    jsonwebtoken::encode(&jsonwebtoken::Header::default(), &claims, &key)
}

/// Calls `jsonwebtoken::decode` with `DecodingKey::from_secret(secret)` and
/// the default validation (HS256, `exp` required) with the comparison of `exp`
/// against the clock switched off, then reads the claims `sub` and `exp`.
/// Trusted: without that comparison the answer depends on the two arguments
/// alone, and is named [`jwt_decoded`]; the only faults it gives are
/// `BadSignature`, for the crate's `InvalidSignature`, and `Malformed`.
#[verifier::external_body]
fn jwt_open(token: &str, secret: &[u8]) -> (r: Result<Claims, TokenError>)
    ensures
        claims_result_view(r) == jwt_decoded(token@, secret@),
        r matches Err(e) ==> e == TokenError::Malformed || e == TokenError::BadSignature,
{
    let mut rules = jsonwebtoken::Validation::default();
    rules.validate_exp = false;
    let key = jsonwebtoken::DecodingKey::from_secret(secret);
    match jsonwebtoken::decode::<serde_json::Value>(token, &key, &rules) {
        Ok(data) => match (data.claims["sub"].as_str(), data.claims["exp"].as_u64()) {
            (Some(sub), Some(exp)) => Ok(Claims { sub: sub.to_owned(), exp }),
            _ => Err(TokenError::Malformed),
        },
        Err(e) => match e.kind() {
            jsonwebtoken::errors::ErrorKind::InvalidSignature => Err(TokenError::BadSignature),
            _ => Err(TokenError::Malformed),
        },
    }
}

/// Writes a `jsonwebtoken` error out with `to_string`. Trusted: nothing is
/// stated of the text.
#[verifier::external_body]
fn describe_jwt_error(error: &jsonwebtoken::errors::Error) -> String {
    error.to_string()
}

/// One more than the latest instant that the clock can show: the day of an
/// instant has to fit 32 bits.
pub const CLOCK_END: i64 = 185_542_587_187_200;

/// Whether `now` is an instant that the clock can show.
pub open spec fn is_clock_time(now: int) -> bool {
    0 <= now < CLOCK_END
}

/// Reads the clock: `chrono::Utc::now().timestamp()`, in seconds since the
/// epoch. Trusted: which instant comes back is up to the clock; every one is
/// counted from the epoch on as a duration, which is not negative, and
/// `Utc::now` builds its value only where the day number fits 32 bits.
#[verifier::external_body]
pub(crate) fn current_timestamp() -> (r: i64)
    ensures
        is_clock_time(r as int),
{
    chrono::Utc::now().timestamp()
}

/// The expiry time of a token minted at `now`, where it can be represented.
pub open spec fn expiry_of(now: int) -> Option<u64> {
    if 0 <= now + TOKEN_TTL_SECONDS <= i64::MAX {
        Some((now + TOKEN_TTL_SECONDS) as u64)
    } else {
        None
    }
}

/// The key bytes of a secret given as text.
pub open spec fn key_bytes(secret: Seq<char>) -> Seq<u8> {
    encode_utf8(secret)
}

/// Whether `token` is a token signed with `secret` that carries the subject
/// `sub` and the expiry time `exp`.
pub open spec fn token_carries(token: Seq<char>, secret: Seq<char>, sub: Seq<char>, exp: u64) -> bool {
    &&& token.len() > 0
    &&& jwt_decoded(token, key_bytes(secret)) == carries(sub, exp)
}

/// Whether `token` is a session token for `email` under the key `secret`,
/// whenever it expires.
pub open spec fn is_token_for(token: Seq<char>, secret: Seq<char>, email: Seq<char>) -> bool {
    exists|exp: u64| token_carries(token, secret, email, exp)
}

/// What comes of a decoded token at time `now`: the expiry is checked first,
/// the registry of revoked tokens after it.
pub open spec fn token_verdict(
    decoded: Result<(Seq<char>, u64), TokenError>,
    now: int,
    revoked: bool,
) -> Result<(Seq<char>, u64), TokenError> {
    match decoded {
        Err(e) => Err(e),
        Ok(claims) => if now >= claims.1 {
            Err(TokenError::Expired)
        } else if revoked {
            Err(TokenError::Revoked)
        } else {
            Ok(claims)
        },
    }
}

/// Computes the expiry time of a token minted at `now`.
pub fn compute_expiry(now: i64) -> (r: Option<u64>)
    ensures
        r == expiry_of(now as int),
{
    match now.checked_add(TOKEN_TTL_SECONDS) {
        Some(expiry) => if expiry >= 0 {
            Some(expiry as u64)
        } else {
            None
        },
        None => None,
    }
}

/// Whether a token that expires at `exp` has expired at `now`: it has from
/// the instant `exp` on.
pub fn is_expired(exp: u64, now: i64) -> (r: bool)
    ensures
        r == (now >= exp),
{
    now >= 0 && now as u64 >= exp
}

/// What minting a token for `email` as of `now` comes to. Where the expiry
/// time cannot be represented nothing is signed; else the answer is the token
/// that signing the address and the expiry time gives.
pub open spec fn minted_at(
    email: Seq<char>,
    secret: Seq<char>,
    now: int,
    r: Result<String, GenerateTokenError>,
) -> bool {
    match expiry_of(now) {
        None => r matches Err(GenerateTokenError::UnexpectedError),
        Some(exp) => r matches Ok(token) && token@ == jwt_signed(email, exp, key_bytes(secret))
            && token_carries(token@, secret, email, exp),
    }
}

/// Mints a token for `email` at the present time: the answer is what
/// [`generate_auth_token_at`] gives for the instant that the clock showed.
/// Every such instant has an expiry time, so a token always comes out.
pub fn generate_auth_token(email: &Email, secret: &str) -> (r: Result<String, GenerateTokenError>)
    ensures
        exists|now: int| is_clock_time(now) && #[trigger] minted_at(email@, secret@, now, r),
        r matches Ok(token) && is_token_for(token@, secret@, email@),
{
    let now = current_timestamp();
    let r = generate_auth_token_at(email, secret, now);
    assert(minted_at(email@, secret@, now as int, r));
    r
}

/// Mints a token for `email` as of `now`: its subject is the address, its
/// expiry `now` plus [`TOKEN_TTL_SECONDS`].
pub fn generate_auth_token_at(email: &Email, secret: &str, now: i64) -> (r: Result<
    String,
    GenerateTokenError,
>)
    ensures
        minted_at(email@, secret@, now as int, r),
{
    match compute_expiry(now) {
        Some(exp) => match jwt_sign(email.as_str(), exp, secret.as_bytes()) {
            Ok(token) => Ok(token),
            Err(e) => Err(GenerateTokenError::TokenError(e)),
        },
        None => Err(GenerateTokenError::UnexpectedError),
    }
}

/// Signs the given claims: the answer is the token that signing them gives.
pub fn create_token(claims: &Claims, secret: &str) -> (r: Result<
    String,
    jsonwebtoken::errors::Error,
>)
    ensures
        is_signed(r, claims.sub@, claims.exp, key_bytes(secret@)),
        r matches Ok(token) ==> token_carries(token@, secret@, claims.sub@, claims.exp),
{
    jwt_sign(claims.sub.as_str(), claims.exp, secret.as_bytes())
}

/// Decodes a token and checks its signature. Neither the clock nor the
/// registry of revoked tokens is asked.
pub fn decode_token(token: &str, secret: &str) -> (r: Result<Claims, TokenError>)
    ensures
        claims_result_view(r) == jwt_decoded(token@, key_bytes(secret@)),
        r matches Err(e) ==> e == TokenError::Malformed || e == TokenError::BadSignature,
{
    jwt_open(token, secret.as_bytes())
}

/// What remains of a decoded token at time `now`, given whether the registry
/// lists it as revoked.
pub fn judge_token(decoded: Result<Claims, TokenError>, now: i64, revoked: bool) -> (r: Result<
    Claims,
    TokenError,
>)
    ensures
        claims_result_view(r) == token_verdict(claims_result_view(decoded), now as int, revoked),
{
    match decoded {
        Ok(claims) => {
            if is_expired(claims.exp, now) {
                Err(TokenError::Expired)
            } else if revoked {
                Err(TokenError::Revoked)
            } else {
                Ok(claims)
            }
        },
        Err(e) => Err(e),
    }
}

/// Verifies a token as of `now`: signature, then expiry, then the registry.
pub fn validate_token_at<B: BannedTokenStore>(
    banned_token_store: &B,
    token: &str,
    secret: &str,
    now: i64,
) -> (r: Result<Claims, TokenError>)
    ensures
        claims_result_view(r) == token_verdict(
            jwt_decoded(token@, key_bytes(secret@)),
            now as int,
            banned_token_store.banned().contains(token@),
        ),
{
    let decoded = decode_token(token, secret);
    let revoked = banned_token_store.is_token_banned(token);
    judge_token(decoded, now, revoked)
}

/// Verifies a token at the present time.
pub fn validate_token<B: BannedTokenStore>(banned_token_store: &B, token: &str, secret: &str) -> (r:
    Result<Claims, TokenError>)
    ensures
        exists|now: int|
            is_clock_time(now) && claims_result_view(r) == token_verdict(
                jwt_decoded(token@, key_bytes(secret@)),
                now,
                banned_token_store.banned().contains(token@),
            ),
{
    let now = current_timestamp();
    let r = validate_token_at(banned_token_store, token, secret, now);
    assert(is_clock_time(now as int) && claims_result_view(r) == token_verdict(
        jwt_decoded(token@, key_bytes(secret@)),
        now as int,
        banned_token_store.banned().contains(token@),
    ));
    r
}

/// Verifies a token at the present time without asking any registry.
pub fn validate_token_without_state(token: &str, secret: &str) -> (r: Result<Claims, TokenError>)
    ensures
        exists|now: int|
            is_clock_time(now) && claims_result_view(r) == token_verdict(
                jwt_decoded(token@, key_bytes(secret@)),
                now,
                false,
            ),
{
    let now = current_timestamp();
    let r = judge_token(decode_token(token, secret), now, false);
    assert(is_clock_time(now as int) && claims_result_view(r) == token_verdict(
        jwt_decoded(token@, key_bytes(secret@)),
        now as int,
        false,
    ));
    r
}

/// Which requests a browser sends a cookie along with.
#[derive(Debug, Clone, Copy, PartialEq, Eq, Structural)]
pub enum SameSite {
    Strict,
    Lax,
    Unrestricted,
}

/// The cookie that carries a session token, as plain values. It does not
/// print, since the token is a credential.
pub struct AuthCookie {
    pub name: String,
    pub value: String,
    pub path: String,
    pub http_only: bool,
    pub secure: bool,
    pub same_site: SameSite,
}

impl AuthCookie {
    /// Whether the cookie is the session cookie with `value` in it, scoped to
    /// the whole site, kept from scripts and sent on same-site requests and
    /// top-level navigation.
    pub open spec fn is_session_cookie(&self, value: Seq<char>, secure: bool) -> bool {
        &&& self.name@ == JWT_COOKIE_NAME@
        &&& self.value@ == value
        &&& self.path@ == "/"@
        &&& self.http_only
        &&& self.secure == secure
        &&& self.same_site == SameSite::Lax
    }
}

/// What minting a token for `email` as of `now` and wrapping it comes to:
/// the session cookie with that token in it, or the error that minting gave.
pub open spec fn cookie_minted_at(
    email: Seq<char>,
    secret: Seq<char>,
    now: int,
    r: Result<AuthCookie, GenerateTokenError>,
) -> bool {
    match expiry_of(now) {
        None => r matches Err(GenerateTokenError::UnexpectedError),
        Some(exp) => r matches Ok(cookie) && cookie.is_session_cookie(
            jwt_signed(email, exp, key_bytes(secret)),
            false,
        ) && token_carries(cookie.value@, secret, email, exp),
    }
}

/// Mints a token for `email` at the present time and wraps it into the
/// session cookie.
pub fn generate_auth_token_wrap_into_cookie(email: &Email, secret: &str) -> (r: Result<
    AuthCookie,
    GenerateTokenError,
>)
    ensures
        exists|now: int| is_clock_time(now) && #[trigger] cookie_minted_at(email@, secret@, now, r),
        r matches Ok(cookie) && cookie.is_session_cookie(cookie.value@, false) && is_token_for(
            cookie.value@,
            secret@,
            email@,
        ),
{
    let minted = generate_auth_token(email, secret);
    let ghost now = choose|now: int|
        is_clock_time(now) && #[trigger] minted_at(email@, secret@, now, minted);
    let r = match minted {
        Ok(token) => Ok(create_auth_cookie(token)),
        Err(e) => Err(e),
    };
    assert(cookie_minted_at(email@, secret@, now, r));
    r
}

/// The session cookie that carries `token`.
pub fn create_auth_cookie(token: String) -> (r: AuthCookie)
    ensures
        r.is_session_cookie(token@, false),
{
    AuthCookie {
        name: JWT_COOKIE_NAME.to_string(),
        value: token,
        path: "/".to_string(),
        http_only: true,
        secure: false,
        same_site: SameSite::Lax,
    }
}

/// The empty session cookie that makes a client drop the one it holds.
pub fn create_removal_cookie() -> (r: AuthCookie)
    ensures
        r.is_session_cookie(Seq::<char>::empty(), true),
{
    AuthCookie {
        name: JWT_COOKIE_NAME.to_string(),
        value: String::new(),
        path: "/".to_string(),
        http_only: true,
        secure: true,
        same_site: SameSite::Lax,
    }
}

} // verus!
