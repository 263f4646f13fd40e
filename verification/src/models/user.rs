use vstd::prelude::*;

use crate::models::email::Email;
use crate::models::password::HashedPassword;
use crate::utils::random::{is_uuid_v4_low_half, uuid_v4_low_bits};

verus! {

/// What an account is, as contracts speak of it.
pub struct Account {
    pub id: u64,
    pub email: Seq<char>,
    pub credential: Seq<char>,
    pub requires_2_fa: bool,
}

/// One registered account. It is never changed in place: a store replaces it.
pub struct User {
    pub id: u64,
    pub email: Email,
    pub password: HashedPassword,
    pub requires_2_fa: bool,
}

impl View for User {
    type V = Account;

    open spec fn view(&self) -> Account {
        Account {
            id: self.id,
            email: self.email@,
            credential: self.password@,
            requires_2_fa: self.requires_2_fa,
        }
    }
}

impl Clone for User {
    fn clone(&self) -> (r: Self)
        ensures
            r == *self,
    {
        User {
            id: self.id,
            email: self.email.clone(),
            password: self.password.clone(),
            requires_2_fa: self.requires_2_fa,
        }
    }
}

impl User {
    /// A new account under a freshly drawn numeric id.
    pub fn new(email: Email, password: HashedPassword, requires_2_fa: bool) -> (r: User)
        ensures
            r.email == email,
            r.password == password,
            r.requires_2_fa == requires_2_fa,
            is_uuid_v4_low_half(r.id),
    {
        User { id: generate_random_id(), email, password, requires_2_fa }
    }
}

/// Draws a numeric id: the low half of a fresh random UUID. Which one is up
/// to chance; every one carries the variant bits of its UUID on top.
fn generate_random_id() -> (r: u64)
    ensures
        is_uuid_v4_low_half(r),
{
    uuid_v4_low_bits()
}

} // verus!
