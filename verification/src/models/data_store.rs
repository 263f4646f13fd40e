use vstd::prelude::*;
use vstd::std_specs::cmp::PartialEqSpecImpl;
use vstd::string::*;
use vstd::utf8::encode_utf8;

use crate::models::email::Email;
use crate::models::password::argon2_check;
use crate::models::user::{Account, User};
use crate::utils::random::{random_in_range, uuid_v4_text, UUID_TEXT_LEN};
use crate::utils::text::{is_digit, is_six_digits, lemma_six_digit_text, six_digits};

verus! {

/// What a credential store answers when it does not do what was asked.
#[derive(Debug, PartialEq, Eq, Structural)]
pub enum UserStoreError {
    /// An account is filed under the address already.
    UserAlreadyExists,
    /// No account is filed under the address.
    UserNotFound,
    /// The credential of the account does not accept the secret.
    InvalidCredentials,
    /// The backend could not be reached or failed; nothing was changed.
    UnexpectedError,
}

/// What a challenge store answers when it does not do what was asked.
#[derive(Debug, PartialEq, Eq, Structural)]
pub enum TwoFACodeStoreError {
    /// An attempt is pending under the id already.
    CodeAlreadyExists,
    /// An attempt is pending under the id, with another code.
    InvalidCode,
    /// No attempt is pending under the id.
    NotFoundCode,
    /// The backend could not be reached or failed; nothing was changed.
    UnexpectedError,
    /// The attempt is past its time. A store that drops such attempts by
    /// itself answers `NotFoundCode` instead.
    ExpiredCode,
}

/// One pending login attempt, as contracts speak of it: the address it was
/// issued for and the code that confirms it.
pub struct Challenge {
    pub email: Seq<char>,
    pub code: Seq<char>,
}

/// What `add_user` answers on accounts `accounts`, for a store whose backend
/// works.
pub open spec fn add_user_verdict(accounts: Map<Seq<char>, Account>, email: Seq<char>) -> Result<
    (),
    UserStoreError,
> {
    if accounts.contains_key(email) {
        Err(UserStoreError::UserAlreadyExists)
    } else {
        Ok(())
    }
}

/// What `get_user` answers, for a store whose backend works.
pub open spec fn get_user_verdict(accounts: Map<Seq<char>, Account>, email: Seq<char>) -> Result<
    Account,
    UserStoreError,
> {
    if accounts.contains_key(email) {
        Ok(accounts[email])
    } else {
        Err(UserStoreError::UserNotFound)
    }
}

/// Whether the raw secret `password` checks against the stored credential.
pub open spec fn credential_accepts(credential: Seq<char>, password: Seq<char>) -> bool {
    argon2_check(credential, encode_utf8(password)) == Some(true)
}

/// What `validate_user` answers, for a store whose backend works: the account
/// under `email` if `password` checks against its credential.
pub open spec fn validate_user_verdict(
    accounts: Map<Seq<char>, Account>,
    email: Seq<char>,
    password: Seq<char>,
) -> Result<Account, UserStoreError> {
    if !accounts.contains_key(email) {
        Err(UserStoreError::UserNotFound)
    } else if credential_accepts(accounts[email].credential, password) {
        Ok(accounts[email])
    } else {
        Err(UserStoreError::InvalidCredentials)
    }
}

/// The account inside a store's answer, if it holds one.
pub open spec fn user_result_view(r: Result<User, UserStoreError>) -> Result<
    Account,
    UserStoreError,
> {
    match r {
        Ok(user) => Ok(user@),
        Err(e) => Err(e),
    }
}

/// What a check of `password` against a fetched account comes to: an account
/// that was not fetched stays so, one whose credential does not accept the
/// secret is refused.
pub open spec fn password_check_verdict(
    fetched: Result<Account, UserStoreError>,
    password: Seq<char>,
) -> Result<Account, UserStoreError> {
    match fetched {
        Ok(account) => if credential_accepts(account.credential, password) {
            Ok(account)
        } else {
            Err(UserStoreError::InvalidCredentials)
        },
        Err(e) => Err(e),
    }
}

/// Holds a raw secret against the account that a store fetched. A credential
/// that cannot be read counts as one that does not accept the secret.
pub fn check_user_password(fetched: Result<User, UserStoreError>, raw_password: &str) -> (r: Result<
    User,
    UserStoreError,
>)
    ensures
        user_result_view(r) == password_check_verdict(user_result_view(fetched), raw_password@),
        r matches Ok(user) ==> fetched == Ok::<User, UserStoreError>(user),
{
    match fetched {
        Ok(user) => match user.password.verify_raw_password(raw_password) {
            Ok(true) => Ok(user),
            _ => Err(UserStoreError::InvalidCredentials),
        },
        Err(e) => Err(e),
    }
}

/// Durable mapping from address to account, with at most one account for an
/// address. A backend that fails answers `UnexpectedError` and changes nothing;
/// every other answer is the one its verdict function gives.
pub trait UserStore {
    /// The accounts held, by address.
    spec fn accounts(&self) -> Map<Seq<char>, Account>;

    /// Whether the backend cannot fail: a store in memory cannot, a store
    /// across a network can.
    spec fn dependable(&self) -> bool;

    fn add_user(&mut self, user: User) -> (r: Result<(), UserStoreError>)
        ensures
            r != Err::<(), UserStoreError>(UserStoreError::UnexpectedError) ==> r
                == add_user_verdict(old(self).accounts(), user.email@),
            old(self).dependable() ==> r != Err::<(), UserStoreError>(
                UserStoreError::UnexpectedError,
            ),
            final(self).dependable() == old(self).dependable(),
            final(self).accounts() == (if r is Ok {
                old(self).accounts().insert(user.email@, user@)
            } else {
                old(self).accounts()
            }),
    ;

    fn get_user(&self, email: &Email) -> (r: Result<User, UserStoreError>)
        ensures
            r != Err::<User, UserStoreError>(UserStoreError::UnexpectedError) ==> user_result_view(
                r,
            ) == get_user_verdict(self.accounts(), email@),
            self.dependable() ==> r != Err::<User, UserStoreError>(UserStoreError::UnexpectedError),
    ;

    fn validate_user(&self, email: &Email, raw_password: &str) -> (r: Result<User, UserStoreError>)
        ensures
            r != Err::<User, UserStoreError>(UserStoreError::UnexpectedError) ==> user_result_view(
                r,
            ) == validate_user_verdict(self.accounts(), email@, raw_password@),
            self.dependable() ==> r != Err::<User, UserStoreError>(UserStoreError::UnexpectedError),
    ;
}

/// The set of token strings that must no longer be honoured.
pub trait BannedTokenStore {
    /// The tokens revoked so far.
    spec fn banned(&self) -> Set<Seq<char>>;

    /// Whether the backend cannot fail.
    spec fn dependable(&self) -> bool;

    /// Revokes `token`. `None` means that the backend failed and nothing
    /// changed. Revoking a token again is no error.
    fn ban_token(&mut self, token: &str) -> (r: Option<()>)
        ensures
            old(self).dependable() ==> r is Some,
            final(self).dependable() == old(self).dependable(),
            final(self).banned() == (if r is Some {
                old(self).banned().insert(token@)
            } else {
                old(self).banned()
            }),
    ;

    fn is_token_banned(&self, token: &str) -> (r: bool)
        ensures
            r == self.banned().contains(token@),
    ;
}

/// What `add_code` answers, for a store whose backend works.
pub open spec fn add_code_verdict(pending: Map<Seq<char>, Challenge>, id: Seq<char>) -> Result<
    (),
    TwoFACodeStoreError,
> {
    if pending.contains_key(id) {
        Err(TwoFACodeStoreError::CodeAlreadyExists)
    } else {
        Ok(())
    }
}

/// What `validate_code` answers, for a store whose backend works: the address
/// of the pending attempt if the code is the one it waits for.
pub open spec fn validate_code_verdict(
    pending: Map<Seq<char>, Challenge>,
    id: Seq<char>,
    code: Seq<char>,
) -> Result<Seq<char>, TwoFACodeStoreError> {
    if !pending.contains_key(id) {
        Err(TwoFACodeStoreError::NotFoundCode)
    } else if pending[id].code == code {
        Ok(pending[id].email)
    } else {
        Err(TwoFACodeStoreError::InvalidCode)
    }
}

/// The address inside a store's answer, if it holds one.
pub open spec fn email_result_view(r: Result<Email, TwoFACodeStoreError>) -> Result<
    Seq<char>,
    TwoFACodeStoreError,
> {
    match r {
        Ok(email) => Ok(email@),
        Err(e) => Err(e),
    }
}

/// Short-lived mapping from a login attempt's id to the address and code that
/// wait for confirmation. A backend may drop an entry when its time is up; that
/// happens between calls, never within one.
pub trait TwoFACodeStore {
    /// The attempts that wait for confirmation, by id.
    spec fn pending(&self) -> Map<Seq<char>, Challenge>;

    /// Whether the backend cannot fail.
    spec fn dependable(&self) -> bool;

    fn new() -> Self where Self: Sized;

    fn add_code(&mut self, email: Email, login_attempt_id: LoginAttemptId, code: TwoFACode) -> (r:
        Result<(), TwoFACodeStoreError>)
        ensures
            r != Err::<(), TwoFACodeStoreError>(TwoFACodeStoreError::UnexpectedError) ==> r
                == add_code_verdict(old(self).pending(), login_attempt_id@),
            old(self).dependable() ==> r != Err::<(), TwoFACodeStoreError>(
                TwoFACodeStoreError::UnexpectedError,
            ),
            final(self).dependable() == old(self).dependable(),
            final(self).pending() == (if r is Ok {
                old(self).pending().insert(
                    login_attempt_id@,
                    Challenge { email: email@, code: code@ },
                )
            } else {
                old(self).pending()
            }),
    ;

    /// Checks a code against the pending attempt. The attempt stays pending
    /// whatever the answer, so that a wrong code can be tried again.
    fn validate_code(&self, login_attempt_id: &LoginAttemptId, code: &TwoFACode) -> (r: Result<
        Email,
        TwoFACodeStoreError,
    >)
        ensures
            r != Err::<Email, TwoFACodeStoreError>(TwoFACodeStoreError::UnexpectedError)
                ==> email_result_view(r) == validate_code_verdict(
                self.pending(),
                login_attempt_id@,
                code@,
            ),
            self.dependable() ==> r != Err::<Email, TwoFACodeStoreError>(
                TwoFACodeStoreError::UnexpectedError,
            ),
    ;

    /// Removes the pending attempt, whether or not there is one: afterwards
    /// nothing is pending under the id. Only a backend that fails refuses.
    fn remove_code(&mut self, login_attempt_id: &LoginAttemptId) -> (r: Result<
        (),
        TwoFACodeStoreError,
    >)
        ensures
            r matches Err(e) ==> e == TwoFACodeStoreError::UnexpectedError,
            old(self).dependable() ==> r is Ok,
            final(self).dependable() == old(self).dependable(),
            final(self).pending() == (if r is Ok {
                old(self).pending().remove(login_attempt_id@)
            } else {
                old(self).pending()
            }),
    ;
}

/// The opaque identifier of one login attempt. It is never empty.
#[derive(Debug, Hash)]
pub struct LoginAttemptId(String);

impl View for LoginAttemptId {
    type V = Seq<char>;

    closed spec fn view(&self) -> Seq<char> {
        self.0@
    }
}

impl Clone for LoginAttemptId {
    fn clone(&self) -> (r: Self)
        ensures
            r == *self,
    {
        proof {
            use_type_invariant(self);
        }
        LoginAttemptId(self.0.clone())
    }
}

impl PartialEq for LoginAttemptId {
    fn eq(&self, other: &Self) -> (r: bool) {
        self.0 == other.0
    }
}

impl Eq for LoginAttemptId {

}

impl PartialEqSpecImpl for LoginAttemptId {
    open spec fn obeys_eq_spec() -> bool {
        true
    }

    open spec fn eq_spec(&self, other: &Self) -> bool {
        self@ == other@
    }
}

impl LoginAttemptId {
    #[verifier::type_invariant]
    spec fn well_formed(&self) -> bool {
        self.0@.len() > 0
    }

    pub fn parse(id: String) -> (r: Result<LoginAttemptId, String>)
        ensures
            match r {
                Ok(parsed) => id@.len() > 0 && parsed@ == id@,
                Err(message) => id@.len() == 0 && message@
                    == "LoginAttemptId não pode ser vazio"@,
            },
    {
        if id.as_str().is_empty() {
            return Err("LoginAttemptId não pode ser vazio".to_string());
        }
        Ok(LoginAttemptId(id))
    }

    /// The identifier. Whoever holds one learns here that it is not empty.
    pub fn as_str(&self) -> (r: &str)
        ensures
            r@ == self@,
            self@.len() > 0,
    {
        proof {
            use_type_invariant(self);
        }
        self.0.as_str()
    }
}

impl AsRef<str> for LoginAttemptId {
    fn as_ref(&self) -> (r: &str)
        ensures
            r@ == self@,
    {
        self.as_str()
    }
}

impl Default for LoginAttemptId {
    /// A fresh random identifier: a UUID written with hyphens.
    fn default() -> (r: Self)
        ensures
            r@.len() == UUID_TEXT_LEN,
    {
        LoginAttemptId(uuid_v4_text())
    }
}

/// Digits in a one-time code.
pub const TWO_FA_CODE_LEN: usize = 6;

/// Largest number that a one-time code can write.
pub const TWO_FA_CODE_MAX: u32 = 999_999;

/// A one-time code: exactly six ASCII digits. It does not print.
pub struct TwoFACode(String);

impl View for TwoFACode {
    type V = Seq<char>;

    closed spec fn view(&self) -> Seq<char> {
        self.0@
    }
}

impl Clone for TwoFACode {
    fn clone(&self) -> (r: Self)
        ensures
            r == *self,
    {
        proof {
            use_type_invariant(self);
        }
        TwoFACode(self.0.clone())
    }
}

impl PartialEq for TwoFACode {
    fn eq(&self, other: &Self) -> (r: bool) {
        self.0 == other.0
    }
}

impl PartialEqSpecImpl for TwoFACode {
    open spec fn obeys_eq_spec() -> bool {
        true
    }

    open spec fn eq_spec(&self, other: &Self) -> bool {
        self@ == other@
    }
}

impl TwoFACode {
    #[verifier::type_invariant]
    spec fn well_formed(&self) -> bool {
        is_six_digits(self.0@)
    }

    pub fn parse(code: String) -> (r: Result<TwoFACode, String>)
        ensures
            match r {
                Ok(parsed) => is_six_digits(code@) && parsed@ == code@,
                Err(message) => !is_six_digits(code@) && message@
                    == "Código 2FA deve ser um número de 6 dígitos"@,
            },
    {
        let n: usize = code.as_str().unicode_len();
        if n != TWO_FA_CODE_LEN {
            return Err("Código 2FA deve ser um número de 6 dígitos".to_string());
        }
        let mut i: usize = 0;
        while i < n
            invariant
                i <= n,
                n == code@.len(),
                n == TWO_FA_CODE_LEN,
                forall|j: int| 0 <= j < i ==> is_digit(#[trigger] code@[j]),
            decreases n - i,
        {
            let c: char = code.as_str().get_char(i);
            if c < '0' || c > '9' {
                assert(!is_digit(code@[i as int]));
                return Err("Código 2FA deve ser um número de 6 dígitos".to_string());
            }
            i += 1;
        }
        Ok(TwoFACode(code))
    }

    /// The code. Whoever holds one learns here that it is six digits.
    pub fn as_str(&self) -> (r: &str)
        ensures
            r@ == self@,
            is_six_digits(self@),
    {
        proof {
            use_type_invariant(self);
        }
        self.0.as_str()
    }
}

impl AsRef<str> for TwoFACode {
    fn as_ref(&self) -> (r: &str)
        ensures
            r@ == self@,
    {
        self.as_str()
    }
}

impl Default for TwoFACode {
    /// A fresh random code.
    fn default() -> (r: Self)
        ensures
            is_six_digits(r@),
    {
        let n: u32 = random_in_range(0, TWO_FA_CODE_MAX);
        proof {
            lemma_six_digit_text(n as nat);
        }
        TwoFACode(six_digits(n))
    }
}

} // verus!
