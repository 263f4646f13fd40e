use vstd::hash_map::StringHashMap;
use vstd::prelude::*;

use crate::models::data_store::{check_user_password, UserStore, UserStoreError};
use crate::models::email::Email;
use crate::models::user::{Account, User};

verus! {

/// A credential store in process memory. Each account is filed under its own
/// address, so no two accounts share one.
pub struct HashMapUserStore {
    users: StringHashMap<User>,
}

impl HashMapUserStore {
    /// Every account is filed under its own address.
    pub open spec fn well_formed(&self) -> bool {
        forall|address: Seq<char>| #[trigger]
            self.accounts().contains_key(address) ==> self.accounts()[address].email == address
    }

    pub fn new() -> (r: Self)
        ensures
            r.accounts() == Map::<Seq<char>, Account>::empty(),
            r.well_formed(),
    {
        let r = HashMapUserStore { users: StringHashMap::new() };
        assert(r.accounts() =~= Map::<Seq<char>, Account>::empty());
        r
    }
}

impl HashMapUserStore {
    /// Removes every account.
    pub fn clear_users(&mut self)
        ensures
            final(self).accounts() == Map::<Seq<char>, Account>::empty(),
            final(self).well_formed(),
    {
        self.users.clear();
        assert(self.accounts() =~= Map::<Seq<char>, Account>::empty());
    }

    /// Removes the account filed under `email`, if there is one.
    pub fn clear_single_user(&mut self, email: &str)
        ensures
            final(self).accounts() == old(self).accounts().remove(email@),
            old(self).well_formed() ==> final(self).well_formed(),
    {
        self.users.remove(email);
        assert(self.accounts() =~= old(self).accounts().remove(email@));
    }
}

impl Default for HashMapUserStore {
    fn default() -> (r: Self)
        ensures
            r.accounts() == Map::<Seq<char>, Account>::empty(),
            r.well_formed(),
    {
        HashMapUserStore::new()
    }
}

impl UserStore for HashMapUserStore {
    closed spec fn accounts(&self) -> Map<Seq<char>, Account> {
        Map::new(
            |address: Seq<char>| self.users@.contains_key(address),
            |address: Seq<char>| self.users@[address]@,
        )
    }

    open spec fn dependable(&self) -> bool {
        true
    }

    fn add_user(&mut self, user: User) -> (r: Result<(), UserStoreError>)
        ensures
            old(self).well_formed() ==> final(self).well_formed(),
    {
        if self.users.contains_key(user.email.as_str()) {
            return Err(UserStoreError::UserAlreadyExists);
        }
        let ghost account = user@;
        let key = user.email.as_str().to_string();
        self.users.insert(key, user);
        assert(self.accounts() =~= old(self).accounts().insert(account.email, account));
        Ok(())
    }

    fn get_user(&self, email: &Email) -> (r: Result<User, UserStoreError>) {
        match self.users.get(email.as_str()) {
            Some(user) => Ok(user.clone()),
            None => Err(UserStoreError::UserNotFound),
        }
    }

    fn validate_user(&self, email: &Email, raw_password: &str) -> (r: Result<User, UserStoreError>) {
        check_user_password(self.get_user(email), raw_password)
    }
}

} // verus!
