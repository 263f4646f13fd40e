use vstd::prelude::*;
use vstd::string::*;

use crate::models::data_store::{TwoFACode, TwoFACodeStoreError};
use crate::models::email::{is_valid_email, Email};
use crate::utils::constants::TWO_FA_CODE_KEY_PREFIX;
use crate::utils::text::{joined, same_text};

verus! {

/// A pending attempt as a key-value store holds it: the address, then the
/// code.
#[derive(Debug, Clone)]
pub struct TwoFATuple(pub String, pub String);

/// The key under which a key-value store files what belongs to `email`.
pub fn get_key_based_on_email(email: &Email) -> (r: String)
    ensures
        r@ == TWO_FA_CODE_KEY_PREFIX@ + email@,
{
    joined(TWO_FA_CODE_KEY_PREFIX, email.as_str())
}

/// The JSON text that writes the pair of strings `first` and `second` as an
/// array of two.
pub uninterp spec fn json_pair_text(first: Seq<char>, second: Seq<char>) -> Seq<char>;

/// The pair of strings that the JSON text `text` holds, if it is an array of
/// exactly two strings.
pub uninterp spec fn json_pair_decoded(text: Seq<char>) -> Option<(Seq<char>, Seq<char>)>;

/// The two strings inside an answer, if it holds any.
pub open spec fn pair_view(r: Option<TwoFATuple>) -> Option<(Seq<char>, Seq<char>)> {
    match r {
        Some(pair) => Some((pair.0@, pair.1@)),
        None => None,
    }
}

/// Calls `serde_json::to_string` on the pair. Trusted: serialising fails
/// only where a value refuses to be written or a map has a key that is no
/// string, and a pair of strings is neither, so a text always comes out; it
/// depends on the two strings alone and is named [`json_pair_text`]; reading
/// it back gives the two strings.
#[verifier::external_body]
fn json_encode_pair(first: &str, second: &str) -> (r: Option<String>)
    ensures
        r is Some,
        r matches Some(text) ==> text@ == json_pair_text(first@, second@),
        r matches Some(text) ==> json_pair_decoded(text@) == Some((first@, second@)),
{
    serde_json::to_string(&(first, second)).ok()
}

/// Calls `serde_json::from_str` for a pair of strings. Trusted: the answer
/// depends on the text alone and is named [`json_pair_decoded`].
#[verifier::external_body]
fn json_decode_pair(text: &str) -> (r: Option<TwoFATuple>)
    ensures
        pair_view(r) == json_pair_decoded(text@),
{
    serde_json::from_str::<(String, String)>(text).ok().map(|pair| TwoFATuple(pair.0, pair.1))
}

/// Writes a pending attempt as the text that a key-value store keeps: the
/// JSON text of the address and the code, which reads back as the two.
pub fn encode_entry(email: &Email, code: &TwoFACode) -> (r: Option<String>)
    ensures
        r matches Some(text) && text@ == json_pair_text(email@, code@) && json_pair_decoded(text@)
            == Some((email@, code@)),
{
    json_encode_pair(email.as_str(), code.as_str())
}

/// What a check of `code` against the stored text comes to, given what the
/// text holds.
pub open spec fn stored_entry_verdict(
    stored: Option<(Seq<char>, Seq<char>)>,
    code: Seq<char>,
) -> Result<Seq<char>, TwoFACodeStoreError> {
    match stored {
        None => Err(TwoFACodeStoreError::UnexpectedError),
        Some(entry) => if entry.1 != code {
            Err(TwoFACodeStoreError::InvalidCode)
        } else if !is_valid_email(entry.0) {
            Err(TwoFACodeStoreError::UnexpectedError)
        } else {
            Ok(entry.0)
        },
    }
}

/// What a check of `code` against a lookup's reply comes to: no value means
/// that no attempt is pending.
pub open spec fn lookup_verdict(reply: Option<Seq<char>>, code: Seq<char>) -> Result<
    Seq<char>,
    TwoFACodeStoreError,
> {
    match reply {
        None => Err(TwoFACodeStoreError::NotFoundCode),
        Some(text) => stored_entry_verdict(json_pair_decoded(text), code),
    }
}

/// Checks a code against the text that a key-value store returned for a
/// pending attempt.
pub fn check_stored_code(stored: &str, code: &TwoFACode) -> (r: Result<Email, TwoFACodeStoreError>)
    ensures
        match r {
            Ok(email) => stored_entry_verdict(json_pair_decoded(stored@), code@) == Ok::<
                Seq<char>,
                TwoFACodeStoreError,
            >(email@),
            Err(e) => stored_entry_verdict(json_pair_decoded(stored@), code@) == Err::<
                Seq<char>,
                TwoFACodeStoreError,
            >(e),
        },
{
    match json_decode_pair(stored) {
        None => Err(TwoFACodeStoreError::UnexpectedError),
        Some(TwoFATuple(address, stored_code)) => {
            if !same_text(stored_code.as_str(), code.as_str()) {
                return Err(TwoFACodeStoreError::InvalidCode);
            }
            match Email::new(address) {
                Ok(email) => Ok(email),
                Err(_) => Err(TwoFACodeStoreError::UnexpectedError),
            }
        },
    }
}

/// Checks a code against the reply of a lookup.
pub fn check_lookup(reply: Option<String>, code: &TwoFACode) -> (r: Result<
    Email,
    TwoFACodeStoreError,
>)
    ensures
        match r {
            Ok(email) => lookup_verdict(reply_view(reply), code@) == Ok::<
                Seq<char>,
                TwoFACodeStoreError,
            >(email@),
            Err(e) => lookup_verdict(reply_view(reply), code@) == Err::<
                Seq<char>,
                TwoFACodeStoreError,
            >(e),
        },
{
    match reply {
        None => Err(TwoFACodeStoreError::NotFoundCode),
        Some(text) => check_stored_code(text.as_str(), code),
    }
}

/// The text inside a lookup's reply, if it holds any.
pub open spec fn reply_view(reply: Option<String>) -> Option<Seq<char>> {
    match reply {
        Some(text) => Some(text@),
        None => None,
    }
}

/// Whether a new attempt may be filed, given the reply of a lookup of its
/// id: an id that is pending is taken, whatever code waits under it.
pub fn check_vacant(reply: &Option<String>) -> (r: Result<(), TwoFACodeStoreError>)
    ensures
        r == (if reply is Some {
            Err::<(), TwoFACodeStoreError>(TwoFACodeStoreError::CodeAlreadyExists)
        } else {
            Ok::<(), TwoFACodeStoreError>(())
        }),
{
    match reply {
        Some(_) => Err(TwoFACodeStoreError::CodeAlreadyExists),
        None => Ok(()),
    }
}

} // verus!
