use vstd::prelude::*;

use crate::utils::constants::BANNED_TOKEN_KEY_PREFIX;
use crate::utils::text::joined;

verus! {

/// The key under which a key-value store files the revoked token `token`.
pub fn get_redis_banned_key(token: &str) -> (r: String)
    ensures
        r@ == BANNED_TOKEN_KEY_PREFIX@ + token@,
{
    joined(BANNED_TOKEN_KEY_PREFIX, token)
}

/// Whether a token is listed as revoked, given what the lookup of its key
/// came to: `Ok` with the value found, if any, or `Err` when the store could
/// not be asked. Then nothing is known, and the answer is `None`: a lookup
/// that failed never reads as "not revoked".
pub fn is_banned_reply(reply: &Result<Option<String>, ()>) -> (r: Option<bool>)
    ensures
        r == (match *reply {
            Ok(found) => Some(found is Some),
            Err(_) => None,
        }),
{
    match reply {
        Ok(Some(_)) => Some(true),
        Ok(None) => Some(false),
        Err(_) => None,
    }
}

} // verus!
