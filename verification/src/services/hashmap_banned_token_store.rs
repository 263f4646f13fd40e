use vstd::hash_set::StringHashSet;
use vstd::prelude::*;

use crate::models::data_store::BannedTokenStore;

verus! {

/// A revoked-token registry in process memory.
pub struct HashsetBannedTokenStore {
    banned_tokens: StringHashSet,
}

impl HashsetBannedTokenStore {
    pub fn new() -> (r: Self)
        ensures
            r.banned() == Set::<Seq<char>>::empty(),
    {
        HashsetBannedTokenStore { banned_tokens: StringHashSet::new() }
    }
}

impl Default for HashsetBannedTokenStore {
    fn default() -> (r: Self)
        ensures
            r.banned() == Set::<Seq<char>>::empty(),
    {
        HashsetBannedTokenStore::new()
    }
}

impl BannedTokenStore for HashsetBannedTokenStore {
    closed spec fn banned(&self) -> Set<Seq<char>> {
        self.banned_tokens@
    }

    open spec fn dependable(&self) -> bool {
        true
    }

    /// Revoking never fails here, whether or not the token was revoked before.
    fn ban_token(&mut self, token: &str) -> (r: Option<()>) {
        self.banned_tokens.insert(token.to_string());
        Some(())
    }

    fn is_token_banned(&self, token: &str) -> (r: bool) {
        self.banned_tokens.contains(token)
    }
}

} // verus!
