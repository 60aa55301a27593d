use crate::domain::data_stores::{
    challenges_after_add, expiry_after, Challenge, TwoFACodeStore, TwoFACodeStoreError,
    TWO_FA_CODE_TTL_SECONDS,
};
use crate::domain::login_attempt_id::LoginAttemptId;
use crate::domain::two_fa_code::TwoFACode;
use crate::domain::email::Email;
use vstd::hash_map::StringHashMap;
use vstd::prelude::*;

verus! {

/// A challenge store in memory. Each challenge is kept with the instant
/// at which it runs out, and that instant is looked at whenever the
/// challenge is asked for.
pub struct HashmapTwoFACodeStore {
    codes: StringHashMap<(LoginAttemptId, TwoFACode, u64)>,
}

impl Default for HashmapTwoFACodeStore {
    /// The store without challenges.
    fn default() -> (store: Self)
        ensures
            store.challenges() == Map::<Seq<char>, Challenge>::empty(),
    {
        let store = HashmapTwoFACodeStore { codes: StringHashMap::new() };
        assert(store.challenges() =~= Map::<Seq<char>, Challenge>::empty());
        store
    }
}

impl TwoFACodeStore for HashmapTwoFACodeStore {
    closed spec fn challenges(&self) -> Map<Seq<char>, Challenge> {
        self.codes@.map_values(
            |entry: (LoginAttemptId, TwoFACode, u64)|
                Challenge {
                    login_attempt_id: entry.0@,
                    code: entry.1@,
                    expires_at: entry.2 as nat,
                },
        )
    }

    open spec fn dependable(&self) -> bool {
        true
    }

    fn add_code(
        &mut self,
        email: Email,
        login_attempt_id: LoginAttemptId,
        code: TwoFACode,
        now: u64,
    ) -> (r: Result<(), TwoFACodeStoreError>) {
        let expires_at = expiry_after(now, TWO_FA_CODE_TTL_SECONDS);
        let key = email.as_ref().to_owned();
        self.codes.insert(key, (login_attempt_id, code, expires_at));
        assert(self.challenges() =~= challenges_after_add(
            old(self).challenges(),
            email@,
            login_attempt_id@,
            code@,
            now as nat,
        ));
        Ok(())
    }

    fn remove_code(&mut self, email: &Email) -> (r: Result<(), TwoFACodeStoreError>) {
        self.codes.remove(email.as_ref());
        assert(self.challenges() =~= old(self).challenges().remove(email@));
        Ok(())
    }

    fn get_code(&self, email: &Email, now: u64) -> (r: Result<
        (LoginAttemptId, TwoFACode),
        TwoFACodeStoreError,
    >) {
        match self.codes.get(email.as_ref()) {
            Some(entry) => {
                if now < entry.2 {
                    Ok((entry.0.clone(), entry.1.clone()))
                } else {
                    Err(TwoFACodeStoreError::LoginAttemptIdNotFound)
                }
            },
            None => Err(TwoFACodeStoreError::LoginAttemptIdNotFound),
        }
    }
}

} // verus!
