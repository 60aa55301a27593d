use crate::domain::data_stores::{
    banned_after, expiry_after, BannedTokenStore, BannedTokenStoreError, TOKEN_TTL_SECONDS,
};
use vstd::hash_map::StringHashMap;
use vstd::prelude::*;

verus! {

/// A revocation store in memory. Each banned token is kept with the
/// instant at which its ban runs out, and that instant is looked at
/// whenever the token is asked for.
pub struct HashsetBannedTokenStore {
    banned_tokens: StringHashMap<u64>,
}

impl Default for HashsetBannedTokenStore {
    /// The store without bans.
    fn default() -> (store: Self)
        ensures
            store.banned() == Map::<Seq<char>, nat>::empty(),
    {
        let store = HashsetBannedTokenStore { banned_tokens: StringHashMap::new() };
        assert(store.banned() =~= Map::<Seq<char>, nat>::empty());
        store
    }
}

impl BannedTokenStore for HashsetBannedTokenStore {
    closed spec fn banned(&self) -> Map<Seq<char>, nat> {
        self.banned_tokens@.map_values(|until: u64| until as nat)
    }

    open spec fn dependable(&self) -> bool {
        true
    }

    fn ban_token(&mut self, token: String, now: u64) -> (r: Result<(), BannedTokenStoreError>) {
        let until = expiry_after(now, TOKEN_TTL_SECONDS);
        self.banned_tokens.insert(token, until);
        assert(self.banned() =~= banned_after(old(self).banned(), token@, now as nat));
        Ok(())
    }

    fn check_if_token_is_banned(&self, token: &str, now: u64) -> (r: Result<
        bool,
        BannedTokenStoreError,
    >) {
        match self.banned_tokens.get(token) {
            Some(until) => Ok(now < *until),
            None => Ok(false),
        }
    }
}

} // verus!
