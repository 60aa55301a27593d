use crate::domain::data_stores::{validation, UserStore, UserStoreError};
use crate::domain::email::{is_email_text, Email};
use crate::domain::password::{utf8_len, Password, MIN_PASSWORD_BYTES};
use crate::domain::user::{User, UserView};
use crate::services::password_hasher::{
    password_check, hash_outcome, hash_with_salt, is_hash_of, random_salt, verify_password_hash,
    PasswordHashError,
};
use vstd::prelude::*;

verus! {

/// One row of the table of users: the email, which is the key, the hash
/// of the password, and the second-factor flag.
pub struct UserRow {
    pub email: String,
    pub password_hash: String,
    pub requires_2fa: bool,
}

/// How an insert into the table of users ended.
pub enum InsertOutcome {
    /// The row is in.
    Inserted,
    /// The table holds a row with that email already.
    Duplicate,
    /// The database did not answer, or refused for another reason.
    Failed,
}

/// How a query for the row of one email ended.
pub enum FindOutcome {
    Found(UserRow),
    /// The table holds no row with that email.
    Absent,
    /// The database did not answer.
    Failed,
}

/// The table of users in a database, which holds at most one row for an
/// email. The store of this module says what to insert and what to make
/// of a row; asking the database is left to whoever implements this.
pub trait UserTable {
    /// Inserts `row`, unless its email is taken.
    fn insert(&self, row: UserRow) -> InsertOutcome;

    /// The row with this email.
    fn find(&self, email: &str) -> FindOutcome;
}

/// The row to insert for `user` where its password is hashed with
/// `salt`: its email and flag, and the hash, which is one that
/// `user_from_row` takes again. Fails where hashing fails.
pub fn row_for_user_with_salt(user: &User, salt: &str) -> (r: Result<UserRow, UserStoreError>)
    ensures
        match r {
            Ok(row) => row.email@ == user.email@ && row.requires_2fa == user.requires_2fa
                && hash_outcome(user.password@, salt@) == Ok::<Seq<char>, PasswordHashError>(
                row.password_hash@,
            ) && is_hash_of(row.password_hash@, user.password@) && user_of_row(
                row_view(Some(row)),
            ) == Ok::<UserView, UserStoreError>(
                UserView {
                    email: user.email@,
                    password: row.password_hash@,
                    requires_2fa: user.requires_2fa,
                },
            ),
            Err(e) => e == UserStoreError::UnexpectedError && hash_outcome(
                user.password@,
                salt@,
            ) is Err,
        },
{
    match hash_with_salt(user.password.as_ref(), salt) {
        Ok(password_hash) => Ok(
            UserRow {
                email: user.email.as_ref().to_owned(),
                password_hash,
                requires_2fa: user.requires_2fa,
            },
        ),
        Err(_) => Err(UserStoreError::UnexpectedError),
    }
}

/// The row to insert for `user`, its password hashed with a fresh salt:
/// the row that `row_for_user_with_salt` gives for some salt. Whatever
/// the salt, a row that comes back holds a hash that verifies the
/// password and differs from it.
pub fn row_for_user(user: &User) -> (r: Result<UserRow, UserStoreError>)
    ensures
        match r {
            Ok(row) => row.email@ == user.email@ && row.requires_2fa == user.requires_2fa
                && is_hash_of(row.password_hash@, user.password@) && exists|salt: Seq<char>|
                #[trigger] hash_outcome(user.password@, salt) == Ok::<
                    Seq<char>,
                    PasswordHashError,
                >(row.password_hash@),
            Err(e) => e == UserStoreError::UnexpectedError && exists|salt: Seq<char>| #[trigger]
                hash_outcome(user.password@, salt) is Err,
        },
{
    let salt = random_salt();
    let r = row_for_user_with_salt(user, salt.as_str());
    proof {
        if r is Ok {
            assert(hash_outcome(user.password@, salt@) == Ok::<Seq<char>, PasswordHashError>(
                r->Ok_0.password_hash@,
            ));
        } else {
            assert(hash_outcome(user.password@, salt@) is Err);
        }
    }
    r
}

/// The user that a query for one email found: `None` stands for no row.
/// A row whose email is no email, or whose hash is shorter than any
/// password, is broken, which is unexpected.
pub open spec fn user_of_row(row: Option<(Seq<char>, Seq<char>, bool)>) -> Result<
    UserView,
    UserStoreError,
> {
    match row {
        None => Err(UserStoreError::UserNotFound),
        Some((email, password_hash, requires_2fa)) => if is_email_text(email) && utf8_len(
            password_hash,
        ) >= MIN_PASSWORD_BYTES {
            Ok(UserView { email, password: password_hash, requires_2fa })
        } else {
            Err(UserStoreError::UnexpectedError)
        },
    }
}

/// The plain values of a row.
pub open spec fn row_view(row: Option<UserRow>) -> Option<(Seq<char>, Seq<char>, bool)> {
    match row {
        Some(row) => Some((row.email@, row.password_hash@, row.requires_2fa)),
        None => None,
    }
}

/// Computes `user_of_row`.
pub fn user_from_row(row: Option<UserRow>) -> (r: Result<User, UserStoreError>)
    ensures
        match r {
            Ok(user) => user_of_row(row_view(row)) == Ok::<UserView, UserStoreError>(user@),
            Err(e) => user_of_row(row_view(row)) == Err::<UserView, UserStoreError>(e),
        },
{
    let row = match row {
        Some(row) => row,
        None => {
            return Err(UserStoreError::UserNotFound);
        },
    };
    let email = match Email::parse(row.email) {
        Ok(email) => email,
        Err(_) => {
            return Err(UserStoreError::UnexpectedError);
        },
    };
    match Password::parse(row.password_hash) {
        Ok(password) => Ok(User::new(email, password, row.requires_2fa)),
        Err(_) => Err(UserStoreError::UnexpectedError),
    }
}

/// What validating `password` against the row found for an email
/// gives: no such user where there is no row, an unexpected error where
/// the row is broken, and else what the hash in the row says of the
/// password.
pub open spec fn row_validation(row: Option<(Seq<char>, Seq<char>, bool)>, password: Seq<char>)
    -> Result<(), UserStoreError> {
    match user_of_row(row) {
        Err(e) => Err(e),
        Ok(user) => match password_check(user.password, password) {
            Some(true) => Ok(()),
            Some(false) => Err(UserStoreError::InvalidCredentials),
            None => Err(UserStoreError::UnexpectedError),
        },
    }
}

/// Computes `row_validation`.
pub fn validate_row(row: Option<UserRow>, password: &Password) -> (r: Result<(), UserStoreError>)
    ensures
        r == row_validation(row_view(row), password@),
{
    match user_from_row(row) {
        Ok(user) => match verify_password_hash(user.password.as_ref(), password.as_ref()) {
            Ok(()) => Ok(()),
            Err(PasswordHashError::Mismatch) => Err(UserStoreError::InvalidCredentials),
            Err(PasswordHashError::Unexpected) => Err(UserStoreError::UnexpectedError),
        },
        Err(e) => Err(e),
    }
}

/// The row that was inserted for a user validates the user's password,
/// and no other password that the hash does not verify.
pub proof fn lemma_inserted_row_validates(
    email: Seq<char>,
    password_hash: Seq<char>,
    requires_2fa: bool,
    password: Seq<char>,
)
    requires
        is_email_text(email),
        utf8_len(password_hash) >= MIN_PASSWORD_BYTES,
        is_hash_of(password_hash, password),
    ensures
        user_of_row(Some((email, password_hash, requires_2fa))) == Ok::<UserView, UserStoreError>(
            UserView { email, password: password_hash, requires_2fa },
        ),
        row_validation(Some((email, password_hash, requires_2fa)), password) == Ok::<
            (),
            UserStoreError,
        >(()),
{
}

/// A table that holds a sound row for each identity gives, row by row,
/// what a credential store owes for validation.
pub proof fn lemma_row_validation_is_validation(
    users: Map<Seq<char>, UserView>,
    email: Seq<char>,
    password: Seq<char>,
)
    requires
        users.contains_key(email) ==> is_email_text(email) && utf8_len(users[email].password)
            >= MIN_PASSWORD_BYTES,
    ensures
        row_validation(
            if users.contains_key(email) {
                Some((email, users[email].password, users[email].requires_2fa))
            } else {
                None
            },
            password,
        ) == validation(users, email, password),
{
}

/// A credential store in a database outside the program.
pub struct PostgresUserStore<D: UserTable> {
    pool: D,
}

impl<D: UserTable> PostgresUserStore<D> {
    /// The store that asks `pool`.
    pub fn new(pool: D) -> (store: Self)
        ensures
            store.table() == pool,
            !store.dependable(),
    {
        PostgresUserStore { pool }
    }

    /// The table that the store asks.
    pub closed spec fn table(&self) -> D {
        self.pool
    }
}

impl<D: UserTable> UserStore for PostgresUserStore<D> {
    /// Nothing is known of what the database holds.
    closed spec fn users(&self) -> Map<Seq<char>, UserView> {
        Map::empty()
    }

    open spec fn dependable(&self) -> bool {
        false
    }

    /// Hashes the password with a fresh salt and asks the table to insert
    /// the email, the hash and the flag. Fails where hashing fails,
    /// without asking the table, and else answers as the table did. That
    /// the email is taken is found by the database, which keeps emails
    /// unique even where two users are added at once.
    fn add_user(&mut self, user: User) -> (r: Result<(), UserStoreError>)
        ensures
            final(self).table() == old(self).table(),
            exists|salt: Seq<char>| #[trigger] add_user_answer(&old(self).table(), user@, salt, r),
    {
        let salt = random_salt();
        let row = match row_for_user_with_salt(&user, salt.as_str()) {
            Ok(row) => row,
            Err(e) => {
                assert(add_user_answer(&old(self).table(), user@, salt@, Err(e)));
                return Err(e);
            },
        };
        let ghost inserted = (row.email@, row.password_hash@, row.requires_2fa);
        let outcome = self.pool.insert(row);
        let r = match outcome {
            InsertOutcome::Inserted => Ok(()),
            InsertOutcome::Duplicate => Err(UserStoreError::UserAlreadyExists),
            InsertOutcome::Failed => Err(UserStoreError::UnexpectedError),
        };
        proof {
            assert(call_ensures(D::insert, (&self.pool, row), outcome));
            assert(row_view(Some(row)) == Some(inserted));
            assert(table_insert(&old(self).table(), inserted, outcome));
            assert(r == insert_answer(outcome));
            assert(hash_outcome(user@.password, salt@) == Ok::<Seq<char>, PasswordHashError>(
                inserted.1,
            ));
            assert(inserted == (user@.email, inserted.1, user@.requires_2fa));
            assert(table_insert(
                &old(self).table(),
                (user@.email, inserted.1, user@.requires_2fa),
                outcome,
            ) && r == insert_answer(outcome));
            assert(add_user_answer(&old(self).table(), user@, salt@, r));
        }
        r
    }

    /// Asks the table for the row of the email, and answers what
    /// `user_from_row` makes of it. A table that does not answer, a
    /// broken row, and a row that names another email than was asked for
    /// are unexpected.
    fn get_user(&self, email: &Email) -> (r: Result<User, UserStoreError>)
        ensures
            exists|found: FoundRow| #[trigger]
                table_find(&self.table(), email@, found) && match r {
                    Ok(user) => find_user(found, email@) == Ok::<UserView, UserStoreError>(user@),
                    Err(e) => find_user(found, email@) == Err::<UserView, UserStoreError>(e),
                },
    {
        let address = email.as_ref();
        let outcome = self.pool.find(address);
        proof {
            assert(call_ensures(D::find, (&self.pool, address), outcome));
            assert(table_find(&self.table(), email@, found_row(outcome)));
        }
        let row = match outcome {
            FindOutcome::Found(row) => row,
            FindOutcome::Absent => {
                return Err(UserStoreError::UserNotFound);
            },
            FindOutcome::Failed => {
                return Err(UserStoreError::UnexpectedError);
            },
        };
        match user_from_row(Some(row)) {
            Ok(user) => {
                if user.email == *email {
                    Ok(user)
                } else {
                    Err(UserStoreError::UnexpectedError)
                }
            },
            Err(_) => Err(UserStoreError::UnexpectedError),
        }
    }

    /// Asks the table for the row of the email, and answers what
    /// `validate_row` makes of it; a table that does not answer is
    /// unexpected.
    fn validate_user(&self, email: &Email, password: &Password) -> (r: Result<(), UserStoreError>)
        ensures
            exists|found: FoundRow| #[trigger]
                table_find(&self.table(), email@, found) && r == find_validation(
                    found,
                    password@,
                ),
    {
        let address = email.as_ref();
        let outcome = self.pool.find(address);
        proof {
            assert(call_ensures(D::find, (&self.pool, address), outcome));
            assert(table_find(&self.table(), email@, found_row(outcome)));
        }
        match outcome {
            FindOutcome::Found(row) => validate_row(Some(row), password),
            FindOutcome::Absent => validate_row(None, password),
            FindOutcome::Failed => Err(UserStoreError::UnexpectedError),
        }
    }
}

/// What a query for the row of one email found, as plain values.
pub enum FoundRow {
    Found((Seq<char>, Seq<char>, bool)),
    Absent,
    Failed,
}

/// The plain values of what a query found.
pub open spec fn found_row(outcome: FindOutcome) -> FoundRow {
    match outcome {
        FindOutcome::Found(row) => FoundRow::Found((row.email@, row.password_hash@, row.requires_2fa)),
        FindOutcome::Absent => FoundRow::Absent,
        FindOutcome::Failed => FoundRow::Failed,
    }
}

/// Whether `outcome` is what `table` answered when it was asked to insert
/// `row`.
pub open spec fn table_insert<D: UserTable>(
    table: &D,
    row: (Seq<char>, Seq<char>, bool),
    outcome: InsertOutcome,
) -> bool {
    exists|inserted: UserRow|
        row_view(Some(inserted)) == Some(row) && call_ensures(
            D::insert,
            (table, inserted),
            outcome,
        )
}

/// Whether `found` is what `table` answered when it was asked for the row
/// of `email`.
pub open spec fn table_find<D: UserTable>(table: &D, email: Seq<char>, found: FoundRow) -> bool {
    exists|address: &str, outcome: FindOutcome|
        address@ == email && found_row(outcome) == found && call_ensures(
            D::find,
            (table, address),
            outcome,
        )
}

/// What adding a user is answered with once the table has answered.
pub open spec fn insert_answer(outcome: InsertOutcome) -> Result<(), UserStoreError> {
    match outcome {
        InsertOutcome::Inserted => Ok(()),
        InsertOutcome::Duplicate => Err(UserStoreError::UserAlreadyExists),
        InsertOutcome::Failed => Err(UserStoreError::UnexpectedError),
    }
}

/// Whether `r` is what adding `user` is answered with where its password
/// is hashed with `salt`: an error where hashing fails, and else what
/// follows from the table's answer to the insert of the email, the hash
/// and the flag.
pub open spec fn add_user_answer<D: UserTable>(
    table: &D,
    user: UserView,
    salt: Seq<char>,
    r: Result<(), UserStoreError>,
) -> bool {
    match hash_outcome(user.password, salt) {
        Ok(hash) => exists|outcome: InsertOutcome| #[trigger]
            table_insert(table, (user.email, hash, user.requires_2fa), outcome) && r
                == insert_answer(outcome),
        Err(_) => r == Err::<(), UserStoreError>(UserStoreError::UnexpectedError),
    }
}

/// What asking for the user of `email` is answered with once the table
/// has answered: no such user where there is no row; an unexpected error
/// where the table did not answer, where the row is broken, and where it
/// names another email; and else the user of the row.
pub open spec fn find_user(found: FoundRow, email: Seq<char>) -> Result<UserView, UserStoreError> {
    match found {
        FoundRow::Found(row) => match user_of_row(Some(row)) {
            Ok(user) => if user.email == email {
                Ok(user)
            } else {
                Err(UserStoreError::UnexpectedError)
            },
            Err(_) => Err(UserStoreError::UnexpectedError),
        },
        FoundRow::Absent => Err(UserStoreError::UserNotFound),
        FoundRow::Failed => Err(UserStoreError::UnexpectedError),
    }
}

/// What validating `password` is answered with once the table has
/// answered.
pub open spec fn find_validation(found: FoundRow, password: Seq<char>) -> Result<
    (),
    UserStoreError,
> {
    match found {
        FoundRow::Found(row) => row_validation(Some(row), password),
        FoundRow::Absent => row_validation(None, password),
        FoundRow::Failed => Err(UserStoreError::UnexpectedError),
    }
}

/// Where the table answers every insert of a user's row with a
/// duplicate, because it holds a row for the email already, adding the
/// user is answered with `UserAlreadyExists`, unless hashing failed
/// before the table was asked.
pub proof fn lemma_duplicate_row_is_refused<D: UserTable>(
    table: &D,
    user: UserView,
    salt: Seq<char>,
    r: Result<(), UserStoreError>,
)
    requires
        add_user_answer(table, user, salt, r),
        hash_outcome(user.password, salt) is Ok,
        forall|row: (Seq<char>, Seq<char>, bool), outcome: InsertOutcome|
            row.0 == user.email && #[trigger] table_insert(table, row, outcome) ==> outcome
                == InsertOutcome::Duplicate,
    ensures
        r == Err::<(), UserStoreError>(UserStoreError::UserAlreadyExists),
{
}

/// Where the table answers the query for an email with the row that was
/// inserted for a user, the user that is handed out has that email and
/// that flag, and a password that verifies the user's password and is
/// not that password.
pub proof fn lemma_inserted_row_is_found(
    email: Seq<char>,
    password_hash: Seq<char>,
    requires_2fa: bool,
    password: Seq<char>,
)
    requires
        is_email_text(email),
        utf8_len(password_hash) >= MIN_PASSWORD_BYTES,
        is_hash_of(password_hash, password),
    ensures
        find_user(FoundRow::Found((email, password_hash, requires_2fa)), email) == Ok::<
            UserView,
            UserStoreError,
        >(UserView { email, password: password_hash, requires_2fa }),
        password_check(password_hash, password) == Some(true),
        password_hash != password,
{
}

} // verus!
