use vstd::prelude::*;
use vstd::string::*;

verus! {

/// Name of the cookie that carries the session token.
pub const JWT_COOKIE_NAME: &'static str = "jwt-rust-live-bootcamp";

/// Lifetime of a pending login attempt in a store that expires entries.
pub const TEN_MINUTES_IN_SECONDS: u64 = 600;

/// Prefix of the key under which a key-value store files a revoked token.
pub const BANNED_TOKEN_KEY_PREFIX: &'static str = "banned_token:";

/// Prefix of the key under which a key-value store files a pending attempt.
pub const TWO_FA_CODE_KEY_PREFIX: &'static str = "two_fa_code:";

/// Message stream that outgoing mail is sent on.
pub const MESSAGE_STREAM: &'static str = "test";

/// Name of the setting that holds the signing key.
pub const JWT_SECRET_ENV_VAR: &'static str = "JWT_SECRET";

/// Name of the setting that holds the address of the database.
pub const DATABASE_URL_ENV_VAR: &'static str = "DATABASE_URL";

/// Name of the setting that holds the address of the key-value store.
pub const REDIS_URL_ENV_VAR: &'static str = "REDIS_URL";

/// Name of the setting that holds the token of the mail service.
pub const POSTMARK_AUTH_TOKEN_ENV_VAR: &'static str = "POSTMARK_AUTH_TOKEN";

/// The value of a setting that the service cannot start without: the value
/// found, unless there is none or it is empty.
pub fn required_setting(found: Option<String>) -> (r: Option<String>)
    ensures
        match r {
            Some(value) => found matches Some(given) && given@ == value@ && value@.len() > 0,
            None => found matches Some(given) ==> given@.len() == 0,
        },
{
    match found {
        Some(value) => if value.as_str().is_empty() {
            None
        } else {
            Some(value)
        },
        None => None,
    }
}

/// The value of a setting that has a default: the value found, or `default`
/// where there is none; nothing if that is empty.
pub fn setting_or(found: Option<String>, default: &str) -> (r: Option<String>)
    ensures
        match r {
            Some(value) => value@.len() > 0 && value@ == (match found {
                Some(given) => given@,
                None => default@,
            }),
            None => (match found {
                Some(given) => given@,
                None => default@,
            }).len() == 0,
        },
{
    match found {
        Some(value) => required_setting(Some(value)),
        None => required_setting(Some(default.to_string())),
    }
}

} // verus!
