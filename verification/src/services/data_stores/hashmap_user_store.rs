use crate::domain::data_stores::{
    add_user_outcome, add_user_with_salt_result, UserStore, UserStoreError,
};
use crate::domain::email::Email;
use crate::domain::password::Password;
use crate::domain::user::{User, UserView};
use crate::services::password_hasher::{
    hash_with_salt, random_salt, verify_password_hash, PasswordHashError,
};
use vstd::hash_map::StringHashMap;
use vstd::prelude::*;

verus! {

/// A credential store in memory. An identity is found by the email that
/// it was added under.
pub struct HashmapUserStore {
    users: StringHashMap<User>,
}

impl Default for HashmapUserStore {
    /// The store without identities.
    fn default() -> (store: Self)
        ensures
            store.users() == Map::<Seq<char>, UserView>::empty(),
    {
        let store = HashmapUserStore { users: StringHashMap::new() };
        assert(store.users() =~= Map::<Seq<char>, UserView>::empty());
        store
    }
}

impl HashmapUserStore {
    /// What `add_user` does once the salt is drawn: the email must be
    /// free, the password is hashed with `salt`, and the user is kept with
    /// the hash in place of the password.
    pub fn add_user_with_salt(&mut self, user: User, salt: &str) -> (r: Result<(), UserStoreError>)
        ensures
            (final(self).users(), r) == add_user_with_salt_result(
                old(self).users(),
                user@,
                salt@,
            ),
            add_user_outcome(old(self).users(), final(self).users(), user@, r),
    {
        if self.users.contains_key(user.email.as_ref()) {
            return Err(UserStoreError::UserAlreadyExists);
        }
        let hash = match hash_with_salt(user.password.as_ref(), salt) {
            Ok(hash) => hash,
            Err(_) => {
                return Err(UserStoreError::UnexpectedError);
            },
        };
        let password = match Password::parse(hash) {
            Ok(password) => password,
            Err(_) => {
                return Err(UserStoreError::UnexpectedError);
            },
        };
        let key = user.email.as_ref().to_owned();
        let stored = User { email: user.email, password, requires_2fa: user.requires_2fa };
        self.users.insert(key, stored);
        assert(self.users() =~= old(self).users().insert(user.email@, stored@));
        Ok(())
    }
}

impl UserStore for HashmapUserStore {
    closed spec fn users(&self) -> Map<Seq<char>, UserView> {
        Map::new(
            |email: Seq<char>| self.users@.contains_key(email),
            |email: Seq<char>|
                UserView {
                    email,
                    password: self.users@[email].password@,
                    requires_2fa: self.users@[email].requires_2fa,
                },
        )
    }

    open spec fn dependable(&self) -> bool {
        true
    }

    /// Draws a fresh salt and goes on as `add_user_with_salt` says: a
    /// taken email is answered with `UserAlreadyExists`, and
    /// `UnexpectedError` comes only where the email is free and hashing
    /// the password failed.
    fn add_user(&mut self, user: User) -> (r: Result<(), UserStoreError>)
        ensures
            exists|salt: Seq<char>|
                (final(self).users(), r) == #[trigger] add_user_with_salt_result(
                    old(self).users(),
                    user@,
                    salt,
                ),
    {
        let salt = random_salt();
        let r = self.add_user_with_salt(user, salt.as_str());
        assert((self.users(), r) == add_user_with_salt_result(old(self).users(), user@, salt@));
        r
    }

    fn get_user(&self, email: &Email) -> (r: Result<User, UserStoreError>) {
        match self.users.get(email.as_ref()) {
            Some(user) => Ok(User::new(email.clone(), user.password.clone(), user.requires_2fa)),
            None => Err(UserStoreError::UserNotFound),
        }
    }

    /// Fails with `UnexpectedError` only where the hash that is kept
    /// cannot be read or used.
    fn validate_user(&self, email: &Email, password: &Password) -> (r: Result<(), UserStoreError>) {
        match self.users.get(email.as_ref()) {
            Some(user) => {
                match verify_password_hash(user.password.as_ref(), password.as_ref()) {
                    Ok(()) => Ok(()),
                    Err(PasswordHashError::Mismatch) => Err(UserStoreError::InvalidCredentials),
                    Err(PasswordHashError::Unexpected) => Err(UserStoreError::UnexpectedError),
                }
            },
            None => Err(UserStoreError::UserNotFound),
        }
    }
}

} // verus!
