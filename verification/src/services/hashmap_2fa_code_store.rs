use vstd::hash_map::StringHashMap;
use vstd::prelude::*;

use crate::models::data_store::{
    Challenge,
    LoginAttemptId,
    TwoFACode,
    TwoFACodeStore,
    TwoFACodeStoreError,
};
use crate::models::email::Email;

verus! {

/// A challenge store in process memory. Its entries stay until they are
/// removed.
pub struct HashMapTwoFACodeStore {
    codes: StringHashMap<(Email, TwoFACode)>,
}

impl Default for HashMapTwoFACodeStore {
    fn default() -> (r: Self)
        ensures
            r.pending() == Map::<Seq<char>, Challenge>::empty(),
    {
        let r = HashMapTwoFACodeStore { codes: StringHashMap::new() };
        assert(r.pending() =~= Map::<Seq<char>, Challenge>::empty());
        r
    }
}

impl TwoFACodeStore for HashMapTwoFACodeStore {
    closed spec fn pending(&self) -> Map<Seq<char>, Challenge> {
        Map::new(
            |id: Seq<char>| self.codes@.contains_key(id),
            |id: Seq<char>| Challenge { email: self.codes@[id].0@, code: self.codes@[id].1@ },
        )
    }

    open spec fn dependable(&self) -> bool {
        true
    }

    fn new() -> (r: Self)
        ensures
            r.pending() == Map::<Seq<char>, Challenge>::empty(),
    {
        HashMapTwoFACodeStore::default()
    }

    fn add_code(&mut self, email: Email, login_attempt_id: LoginAttemptId, code: TwoFACode) -> (r:
        Result<(), TwoFACodeStoreError>) {
        if self.codes.contains_key(login_attempt_id.as_str()) {
            return Err(TwoFACodeStoreError::CodeAlreadyExists);
        }
        let ghost entry = Challenge { email: email@, code: code@ };
        let key = login_attempt_id.as_str().to_string();
        self.codes.insert(key, (email, code));
        assert(self.pending() =~= old(self).pending().insert(login_attempt_id@, entry));
        Ok(())
    }

    fn validate_code(&self, login_attempt_id: &LoginAttemptId, code: &TwoFACode) -> (r: Result<
        Email,
        TwoFACodeStoreError,
    >) {
        match self.codes.get(login_attempt_id.as_str()) {
            Some(entry) => {
                if entry.1 == *code {
                    Ok(entry.0.clone())
                } else {
                    Err(TwoFACodeStoreError::InvalidCode)
                }
            },
            None => Err(TwoFACodeStoreError::NotFoundCode),
        }
    }

    fn remove_code(&mut self, login_attempt_id: &LoginAttemptId) -> (r: Result<
        (),
        TwoFACodeStoreError,
    >) {
        self.codes.remove(login_attempt_id.as_str());
        assert(self.pending() =~= old(self).pending().remove(login_attempt_id@));
        Ok(())
    }
}

} // verus!
