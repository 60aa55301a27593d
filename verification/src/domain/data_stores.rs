use crate::domain::email::Email;
use crate::domain::login_attempt_id::LoginAttemptId;
use crate::domain::password::Password;
use crate::domain::two_fa_code::TwoFACode;
use crate::domain::user::{User, UserView};
use crate::services::password_hasher::{password_check, hash_outcome, is_hash_of};
use vstd::prelude::*;

verus! {

/// Why a credential store refused or failed.
#[derive(Debug, Clone, Copy, PartialEq, Eq, Structural)]
pub enum UserStoreError {
    UserAlreadyExists,
    UserNotFound,
    InvalidCredentials,
    UnexpectedError,
}

/// Why a revocation store failed.
#[derive(Debug, Clone, Copy, PartialEq, Eq, Structural)]
pub enum BannedTokenStoreError {
    UnexpectedError,
}

/// Why a challenge store refused or failed.
#[derive(Debug, Clone, Copy, PartialEq, Eq, Structural)]
pub enum TwoFACodeStoreError {
    LoginAttemptIdNotFound,
    UnexpectedError,
}

impl UserStoreError {
    /// The error in words.
    pub fn message(&self) -> (s: &'static str)
        ensures
            s@ == match self {
                UserStoreError::UserAlreadyExists => "User already exists"@,
                UserStoreError::UserNotFound => "User not found"@,
                UserStoreError::InvalidCredentials => "Invalid credentials"@,
                UserStoreError::UnexpectedError => "Unexpected error"@,
            },
    {
        match self {
            UserStoreError::UserAlreadyExists => "User already exists",
            UserStoreError::UserNotFound => "User not found",
            UserStoreError::InvalidCredentials => "Invalid credentials",
            UserStoreError::UnexpectedError => "Unexpected error",
        }
    }
}

impl BannedTokenStoreError {
    /// The error in words.
    pub fn message(&self) -> (s: &'static str)
        ensures
            s@ == "Unexpected error"@,
    {
        "Unexpected error"
    }
}

impl TwoFACodeStoreError {
    /// The error in words.
    pub fn message(&self) -> (s: &'static str)
        ensures
            s@ == match self {
                TwoFACodeStoreError::LoginAttemptIdNotFound => "Login Attempt ID not found"@,
                TwoFACodeStoreError::UnexpectedError => "Unexpected error"@,
            },
    {
        match self {
            TwoFACodeStoreError::LoginAttemptIdNotFound => "Login Attempt ID not found",
            TwoFACodeStoreError::UnexpectedError => "Unexpected error",
        }
    }
}

/// Seconds for which a session token is good, and for which a ban on it
/// is kept.
pub const TOKEN_TTL_SECONDS: u64 = 600;

/// Seconds for which a second-factor challenge can be answered.
pub const TWO_FA_CODE_TTL_SECONDS: u64 = 600;

/// The instant `ttl` seconds after `now`, or the last instant that a
/// clock of 64 bits can show where that lies beyond it.
pub open spec fn expiry_at(now: nat, ttl: nat) -> nat {
    if now + ttl > u64::MAX {
        u64::MAX as nat
    } else {
        now + ttl
    }
}

/// Computes `expiry_at`.
pub fn expiry_after(now: u64, ttl: u64) -> (expiry: u64)
    ensures
        expiry == expiry_at(now as nat, ttl as nat),
{
    if now > u64::MAX - ttl {
        u64::MAX
    } else {
        now + ttl
    }
}

/// What a successful `add_user` of `user` does to a store's identities:
/// the email was free, and now stands for an identity with that email
/// and that flag whose password is a hash of the user's; no other
/// identity changed.
pub open spec fn added_user(
    before: Map<Seq<char>, UserView>,
    after: Map<Seq<char>, UserView>,
    user: UserView,
) -> bool {
    &&& !before.contains_key(user.email)
    &&& after.contains_key(user.email)
    &&& after == before.insert(user.email, after[user.email])
    &&& after[user.email].email == user.email
    &&& after[user.email].requires_2fa == user.requires_2fa
    &&& is_hash_of(after[user.email].password, user.password)
}

/// The identities after an attempt to add `user` with its password
/// hashed with `salt`, and what the attempt is answered with.
pub open spec fn add_user_with_salt_result(
    users: Map<Seq<char>, UserView>,
    user: UserView,
    salt: Seq<char>,
) -> (Map<Seq<char>, UserView>, Result<(), UserStoreError>) {
    if users.contains_key(user.email) {
        (users, Err(UserStoreError::UserAlreadyExists))
    } else {
        match hash_outcome(user.password, salt) {
            Ok(hash) => (
                users.insert(
                    user.email,
                    UserView { email: user.email, password: hash, requires_2fa: user.requires_2fa },
                ),
                Ok(()),
            ),
            Err(_) => (users, Err(UserStoreError::UnexpectedError)),
        }
    }
}

/// What `add_user` owes: how its result goes with the identities before
/// and after it.
pub open spec fn add_user_outcome(
    before: Map<Seq<char>, UserView>,
    after: Map<Seq<char>, UserView>,
    user: UserView,
    r: Result<(), UserStoreError>,
) -> bool {
    match r {
        Ok(()) => added_user(before, after, user),
        Err(UserStoreError::UserAlreadyExists) => before.contains_key(user.email) && after
            == before,
        Err(UserStoreError::UnexpectedError) => !before.contains_key(user.email) && after
            == before,
        Err(_) => false,
    }
}

/// An attempt to add a user whose email is taken is answered with
/// `UserAlreadyExists`, whatever the password and the flag, and changes
/// nothing.
pub proof fn lemma_taken_email_is_refused(
    before: Map<Seq<char>, UserView>,
    after: Map<Seq<char>, UserView>,
    user: UserView,
    r: Result<(), UserStoreError>,
)
    requires
        add_user_outcome(before, after, user, r),
        before.contains_key(user.email),
    ensures
        r == Err::<(), UserStoreError>(UserStoreError::UserAlreadyExists),
        after == before,
{
}

/// After a user was added, the identity found under its email has that
/// email and that flag, and a password that verifies the user's password
/// and is not that password; every other email stands as it stood.
pub proof fn lemma_added_user_is_found(
    before: Map<Seq<char>, UserView>,
    after: Map<Seq<char>, UserView>,
    user: UserView,
)
    requires
        added_user(before, after, user),
    ensures
        after.contains_key(user.email),
        after[user.email].email == user.email,
        after[user.email].requires_2fa == user.requires_2fa,
        password_check(after[user.email].password, user.password) == Some(true),
        after[user.email].password != user.password,
        validation(after, user.email, user.password) == Ok::<(), UserStoreError>(()),
        forall|other: Seq<char>|
            other != user.email ==> (after.contains_key(other) == before.contains_key(other)
                && (before.contains_key(other) ==> after[other] == before[other])),
{
}

/// Once an email is taken it stays taken, whatever is added later.
proof fn lemma_email_stays_taken(
    states: Seq<Map<Seq<char>, UserView>>,
    users: Seq<UserView>,
    results: Seq<Result<(), UserStoreError>>,
    email: Seq<char>,
    from: int,
    to: int,
)
    requires
        states.len() == users.len() + 1,
        results.len() == users.len(),
        forall|i: int|
            0 <= i < users.len() ==> add_user_outcome(
                #[trigger] states[i],
                states[i + 1],
                users[i],
                results[i],
            ),
        0 <= from <= to <= users.len(),
        states[from].contains_key(email),
    ensures
        states[to].contains_key(email),
    decreases to - from,
{
    if from < to {
        lemma_email_stays_taken(states, users, results, email, from, to - 1);
        assert(add_user_outcome(states[to - 1], states[to - 1 + 1], users[to - 1], results[to - 1]));
    }
}

/// As long as no attempt has succeeded, the email is as free as it was.
proof fn lemma_email_stays_free(
    states: Seq<Map<Seq<char>, UserView>>,
    users: Seq<UserView>,
    results: Seq<Result<(), UserStoreError>>,
    email: Seq<char>,
    upto: int,
)
    requires
        states.len() == users.len() + 1,
        results.len() == users.len(),
        forall|i: int| 0 <= i < users.len() ==> (#[trigger] users[i]).email == email,
        forall|i: int|
            0 <= i < users.len() ==> add_user_outcome(
                #[trigger] states[i],
                states[i + 1],
                users[i],
                results[i],
            ),
        0 <= upto <= users.len(),
        forall|i: int| 0 <= i < upto ==> (#[trigger] results[i]) is Err,
        !states[0].contains_key(email),
    ensures
        !states[upto].contains_key(email),
    decreases upto,
{
    if upto > 0 {
        lemma_email_stays_free(states, users, results, email, upto - 1);
        assert(add_user_outcome(
            states[upto - 1],
            states[upto - 1 + 1],
            users[upto - 1],
            results[upto - 1],
        ));
        assert(results[upto - 1] is Err);
    }
}

/// Of a run of attempts to add users of one email to a store that holds
/// no identity for it, at most one succeeds: every attempt after it finds
/// the email taken, and every attempt before it failed in hashing. So
/// where hashing never fails, the first attempt succeeds and all others
/// are answered with `UserAlreadyExists`: one identity, however many
/// attempts. `states` holds the identities before the first attempt and
/// after each.
pub proof fn lemma_duplicate_adds(
    states: Seq<Map<Seq<char>, UserView>>,
    users: Seq<UserView>,
    results: Seq<Result<(), UserStoreError>>,
    email: Seq<char>,
)
    requires
        states.len() == users.len() + 1,
        results.len() == users.len(),
        forall|i: int| 0 <= i < users.len() ==> (#[trigger] users[i]).email == email,
        forall|i: int|
            0 <= i < users.len() ==> add_user_outcome(
                #[trigger] states[i],
                states[i + 1],
                users[i],
                results[i],
            ),
        !states[0].contains_key(email),
    ensures
        forall|i: int, j: int|
            0 <= i < j < users.len() && (#[trigger] results[i]) is Ok ==> (#[trigger] results[j])
                == Err::<(), UserStoreError>(UserStoreError::UserAlreadyExists),
        forall|i: int, j: int|
            0 <= i < j < users.len() && (#[trigger] results[j]) is Ok ==> (#[trigger] results[i])
                == Err::<(), UserStoreError>(UserStoreError::UnexpectedError),
        users.len() > 0 && (forall|i: int|
            0 <= i < users.len() ==> (#[trigger] results[i]) != Err::<(), UserStoreError>(
                UserStoreError::UnexpectedError,
            )) ==> results[0] == Ok::<(), UserStoreError>(()) && forall|i: int|
            0 < i < users.len() ==> (#[trigger] results[i]) == Err::<(), UserStoreError>(
                UserStoreError::UserAlreadyExists,
            ),
{
    assert forall|i: int, j: int|
        0 <= i < j < users.len() && (#[trigger] results[i]) is Ok implies (#[trigger] results[j])
        == Err::<(), UserStoreError>(UserStoreError::UserAlreadyExists) by {
        assert(add_user_outcome(states[i], states[i + 1], users[i], results[i]));
        assert(users[i].email == email);
        lemma_email_stays_taken(states, users, results, email, i + 1, j);
        assert(add_user_outcome(states[j], states[j + 1], users[j], results[j]));
        assert(users[j].email == email);
    }
    assert forall|i: int, j: int|
        0 <= i < j < users.len() && (#[trigger] results[j]) is Ok implies (#[trigger] results[i])
        == Err::<(), UserStoreError>(UserStoreError::UnexpectedError) by {
        if results[i] is Ok {
            assert(results[j] == Err::<(), UserStoreError>(UserStoreError::UserAlreadyExists));
        } else {
            assert forall|k: int| 0 <= k < i implies (#[trigger] results[k]) is Err by {
                if results[k] is Ok {
                    assert(results[j] == Err::<(), UserStoreError>(
                        UserStoreError::UserAlreadyExists,
                    ));
                }
            }
            lemma_email_stays_free(states, users, results, email, i);
            assert(add_user_outcome(states[i], states[i + 1], users[i], results[i]));
            assert(users[i].email == email);
        }
    }
    if users.len() > 0 && (forall|i: int|
        0 <= i < users.len() ==> (#[trigger] results[i]) != Err::<(), UserStoreError>(
            UserStoreError::UnexpectedError,
        )) {
        assert(add_user_outcome(states[0], states[1], users[0], results[0]));
        assert(users[0].email == email);
        assert(results[0] != Err::<(), UserStoreError>(UserStoreError::UnexpectedError));
        assert(results[0] is Ok);
        assert(results[0]->Ok_0 == ());
    }
}

/// What `validate_user` owes for `email` and `password` on these
/// identities, as far as the identities decide it.
pub open spec fn validation(
    users: Map<Seq<char>, UserView>,
    email: Seq<char>,
    password: Seq<char>,
) -> Result<(), UserStoreError> {
    if !users.contains_key(email) {
        Err(UserStoreError::UserNotFound)
    } else {
        match password_check(users[email].password, password) {
            Some(true) => Ok(()),
            Some(false) => Err(UserStoreError::InvalidCredentials),
            None => Err(UserStoreError::UnexpectedError),
        }
    }
}

/// A credential store: identities by email, each with the hash of its
/// password.
///
/// A store that keeps its identities itself is dependable: `users` says
/// all that it holds, and every method answers from that alone. A store
/// that asks a service outside the program is not: the service can fail
/// or change behind the store's back, so nothing is promised of what it
/// holds, and only the shape of its answers is.
pub trait UserStore {
    /// The identities held, by email.
    spec fn users(&self) -> Map<Seq<char>, UserView>;

    /// Whether the store answers from `users` and from nothing else.
    spec fn dependable(&self) -> bool;

    /// Adds `user` under its email, with a hash in place of its password,
    /// unless the email is taken. A dependable store answers a taken
    /// email with `UserAlreadyExists`, and gives `UnexpectedError` only
    /// where the email is free and hashing failed; either way the
    /// identities stay as they were.
    fn add_user(&mut self, user: User) -> (r: Result<(), UserStoreError>)
        ensures
            final(self).dependable() == old(self).dependable(),
            r matches Err(e) ==> e == UserStoreError::UserAlreadyExists || e
                == UserStoreError::UnexpectedError,
            old(self).dependable() ==> add_user_outcome(
                old(self).users(),
                final(self).users(),
                user@,
                r,
            ),
    ;

    /// The identity held for `email`. A dependable store never gives
    /// `UnexpectedError`.
    fn get_user(&self, email: &Email) -> (r: Result<User, UserStoreError>)
        ensures
            match r {
                Ok(user) => user.email@ == email@,
                Err(e) => e == UserStoreError::UserNotFound || e
                    == UserStoreError::UnexpectedError,
            },
            self.dependable() ==> match r {
                Ok(user) => self.users().contains_key(email@) && user@ == self.users()[email@],
                Err(e) => e == UserStoreError::UserNotFound && !self.users().contains_key(email@),
            },
    ;

    /// Holds `password` against the hash kept for `email`: `UserNotFound`
    /// where there is no identity, `InvalidCredentials` where the
    /// password is wrong, `UnexpectedError` where the hash cannot be read
    /// or used.
    fn validate_user(&self, email: &Email, password: &Password) -> (r: Result<(), UserStoreError>)
        ensures
            r matches Err(e) ==> e != UserStoreError::UserAlreadyExists,
            self.dependable() ==> r == validation(self.users(), email@, password@),
    ;
}

/// Whether `token` is banned at `now`: it was banned, and its ban has not
/// run out.
pub open spec fn is_banned_at(banned: Map<Seq<char>, nat>, token: Seq<char>, now: nat) -> bool {
    banned.contains_key(token) && now < banned[token]
}

/// The bans after `token` was banned at `now`: it is banned for as long as
/// a token issued at that instant would be good, which is no shorter
/// than the token itself has left.
pub open spec fn banned_after(banned: Map<Seq<char>, nat>, token: Seq<char>, now: nat) -> Map<
    Seq<char>,
    nat,
> {
    banned.insert(token, expiry_at(now, TOKEN_TTL_SECONDS as nat))
}

/// A token is banned from the instant of its ban until the ban runs out,
/// and not after. So a token that was just banned is banned, unless the
/// clock stands at its last instant.
pub proof fn lemma_banned_token_is_banned(
    banned: Map<Seq<char>, nat>,
    token: Seq<char>,
    now: nat,
    later: nat,
)
    ensures
        is_banned_at(banned_after(banned, token, now), token, later) == (later < expiry_at(
            now,
            TOKEN_TTL_SECONDS as nat,
        )),
        now < u64::MAX ==> is_banned_at(banned_after(banned, token, now), token, now),
        now + TOKEN_TTL_SECONDS <= u64::MAX && now <= later < now + TOKEN_TTL_SECONDS
            ==> is_banned_at(banned_after(banned, token, now), token, later),
{
}

/// A token that was never banned is not banned; and banning one token
/// changes nothing for another.
pub proof fn lemma_unbanned_token_is_not_banned(
    banned: Map<Seq<char>, nat>,
    token: Seq<char>,
    other: Seq<char>,
    ban_time: nat,
    now: nat,
)
    ensures
        !banned.contains_key(token) ==> !is_banned_at(banned, token, now),
        !is_banned_at(Map::<Seq<char>, nat>::empty(), token, now),
        other != token ==> is_banned_at(banned_after(banned, other, ban_time), token, now)
            == is_banned_at(banned, token, now),
{
}

/// Banning a banned token again is in order, and keeps it banned for as
/// long as the later ban says.
pub proof fn lemma_ban_twice(banned: Map<Seq<char>, nat>, token: Seq<char>, first: nat, second: nat)
    ensures
        banned_after(banned_after(banned, token, first), token, second) == banned_after(
            banned,
            token,
            second,
        ),
{
    assert(banned_after(banned_after(banned, token, first), token, second) =~= banned_after(
        banned,
        token,
        second,
    ));
}

/// A revocation store: the session tokens that were banned, each until
/// its ban runs out. Nothing takes a ban back.
///
/// A store that keeps its bans itself is dependable, and never fails. Of
/// a store that asks a service outside the program nothing is promised
/// but the shape of its answers.
pub trait BannedTokenStore {
    /// The instant at which each ban runs out, by token.
    spec fn banned(&self) -> Map<Seq<char>, nat>;

    /// Whether the store answers from `banned` and from nothing else.
    spec fn dependable(&self) -> bool;

    /// Bans `token` from `now` on. Banning a banned token again is no
    /// error.
    fn ban_token(&mut self, token: String, now: u64) -> (r: Result<(), BannedTokenStoreError>)
        ensures
            final(self).dependable() == old(self).dependable(),
            old(self).dependable() ==> r is Ok && final(self).banned() == banned_after(
                old(self).banned(),
                token@,
                now as nat,
            ),
    ;

    /// Whether `token` is banned at `now`.
    fn check_if_token_is_banned(&self, token: &str, now: u64) -> (r: Result<
        bool,
        BannedTokenStoreError,
    >)
        ensures
            self.dependable() ==> r == Ok::<bool, BannedTokenStoreError>(
                is_banned_at(self.banned(), token@, now as nat),
            ),
    ;
}

/// One outstanding second-factor challenge.
pub struct Challenge {
    pub login_attempt_id: Seq<char>,
    pub code: Seq<char>,
    pub expires_at: nat,
}

/// The challenge that `email` can answer at `now`, if there is one.
pub open spec fn live_challenge(challenges: Map<Seq<char>, Challenge>, email: Seq<char>, now: nat)
    -> Option<(Seq<char>, Seq<char>)> {
    if challenges.contains_key(email) && now < challenges[email].expires_at {
        Some((challenges[email].login_attempt_id, challenges[email].code))
    } else {
        None
    }
}

/// The challenges after one was issued to `email` at `now`: it takes the
/// place of any that the email had.
pub open spec fn challenges_after_add(
    challenges: Map<Seq<char>, Challenge>,
    email: Seq<char>,
    login_attempt_id: Seq<char>,
    code: Seq<char>,
    now: nat,
) -> Map<Seq<char>, Challenge> {
    challenges.insert(
        email,
        Challenge {
            login_attempt_id,
            code,
            expires_at: expiry_at(now, TWO_FA_CODE_TTL_SECONDS as nat),
        },
    )
}

/// A challenge that was just issued is the one that its email can
/// answer, until it runs out and not after.
pub proof fn lemma_issued_challenge_is_live(
    challenges: Map<Seq<char>, Challenge>,
    email: Seq<char>,
    login_attempt_id: Seq<char>,
    code: Seq<char>,
    issued: nat,
    now: nat,
)
    ensures
        live_challenge(
            challenges_after_add(challenges, email, login_attempt_id, code, issued),
            email,
            now,
        ) == (if now < expiry_at(issued, TWO_FA_CODE_TTL_SECONDS as nat) {
            Some((login_attempt_id, code))
        } else {
            None
        }),
        issued + TWO_FA_CODE_TTL_SECONDS <= u64::MAX && now < issued + TWO_FA_CODE_TTL_SECONDS
            ==> live_challenge(
            challenges_after_add(challenges, email, login_attempt_id, code, issued),
            email,
            now,
        ) == Some((login_attempt_id, code)),
        now >= issued + TWO_FA_CODE_TTL_SECONDS ==> live_challenge(
            challenges_after_add(challenges, email, login_attempt_id, code, issued),
            email,
            now,
        ) is None,
{
}

/// Of two challenges issued to one email one after the other, only the
/// second can be answered: the first is gone, whether or not it had run
/// out.
pub proof fn lemma_second_challenge_supersedes(
    challenges: Map<Seq<char>, Challenge>,
    email: Seq<char>,
    first: (Seq<char>, Seq<char>),
    first_issued: nat,
    second: (Seq<char>, Seq<char>),
    second_issued: nat,
    now: nat,
)
    ensures
        ({
            let after = challenges_after_add(
                challenges_after_add(challenges, email, first.0, first.1, first_issued),
                email,
                second.0,
                second.1,
                second_issued,
            );
            &&& after == challenges_after_add(challenges, email, second.0, second.1, second_issued)
            &&& live_challenge(after, email, now) == (if now < expiry_at(
                second_issued,
                TWO_FA_CODE_TTL_SECONDS as nat,
            ) {
                Some(second)
            } else {
                None
            })
        }),
{
    assert(challenges_after_add(
        challenges_after_add(challenges, email, first.0, first.1, first_issued),
        email,
        second.0,
        second.1,
        second_issued,
    ) =~= challenges_after_add(challenges, email, second.0, second.1, second_issued));
}

/// No challenge can be answered once it was removed, or once the ten
/// minutes from its issue have passed.
pub proof fn lemma_no_challenge_after_removal_or_expiry(
    challenges: Map<Seq<char>, Challenge>,
    email: Seq<char>,
    login_attempt_id: Seq<char>,
    code: Seq<char>,
    issued: nat,
    now: nat,
)
    ensures
        live_challenge(challenges.remove(email), email, now) is None,
        now >= expiry_at(issued, TWO_FA_CODE_TTL_SECONDS as nat) ==> live_challenge(
            challenges_after_add(challenges, email, login_attempt_id, code, issued),
            email,
            now,
        ) is None,
        issued + TWO_FA_CODE_TTL_SECONDS <= now ==> live_challenge(
            challenges_after_add(challenges, email, login_attempt_id, code, issued),
            email,
            now,
        ) is None,
{
}

/// What is done for one email leaves the challenge of every other email
/// as it was.
pub proof fn lemma_challenges_are_apart(
    challenges: Map<Seq<char>, Challenge>,
    email: Seq<char>,
    other: Seq<char>,
    login_attempt_id: Seq<char>,
    code: Seq<char>,
    issued: nat,
    now: nat,
)
    requires
        other != email,
    ensures
        live_challenge(
            challenges_after_add(challenges, other, login_attempt_id, code, issued),
            email,
            now,
        ) == live_challenge(challenges, email, now),
        live_challenge(challenges.remove(other), email, now) == live_challenge(
            challenges,
            email,
            now,
        ),
{
}

/// What `get_code` owes for `email` at `now` on these challenges.
pub open spec fn challenge_lookup(
    challenges: Map<Seq<char>, Challenge>,
    email: Seq<char>,
    now: nat,
) -> Result<(Seq<char>, Seq<char>), TwoFACodeStoreError> {
    match live_challenge(challenges, email, now) {
        Some(challenge) => Ok(challenge),
        None => Err(TwoFACodeStoreError::LoginAttemptIdNotFound),
    }
}

/// What a result of `get_code` says, as plain values.
pub open spec fn lookup_view(r: Result<(LoginAttemptId, TwoFACode), TwoFACodeStoreError>) -> Result<
    (Seq<char>, Seq<char>),
    TwoFACodeStoreError,
> {
    match r {
        Ok((login_attempt_id, code)) => Ok((login_attempt_id@, code@)),
        Err(e) => Err(e),
    }
}

/// A challenge store: at most one second-factor challenge for each
/// email, good for ten minutes.
///
/// A store that keeps its challenges itself is dependable, and never
/// fails. Of a store that asks a service outside the program nothing is
/// promised but the shape of its answers.
pub trait TwoFACodeStore {
    /// The challenges held, by email, those that ran out included.
    spec fn challenges(&self) -> Map<Seq<char>, Challenge>;

    /// Whether the store answers from `challenges` and from nothing else.
    spec fn dependable(&self) -> bool;

    /// Issues a challenge to `email` at `now`, in place of any that it
    /// had.
    fn add_code(
        &mut self,
        email: Email,
        login_attempt_id: LoginAttemptId,
        code: TwoFACode,
        now: u64,
    ) -> (r: Result<(), TwoFACodeStoreError>)
        ensures
            final(self).dependable() == old(self).dependable(),
            r matches Err(e) ==> e == TwoFACodeStoreError::UnexpectedError,
            old(self).dependable() ==> r is Ok && final(self).challenges() == challenges_after_add(
                old(self).challenges(),
                email@,
                login_attempt_id@,
                code@,
                now as nat,
            ),
    ;

    /// Drops the challenge of `email`. That there was none is no error.
    fn remove_code(&mut self, email: &Email) -> (r: Result<(), TwoFACodeStoreError>)
        ensures
            final(self).dependable() == old(self).dependable(),
            r matches Err(e) ==> e == TwoFACodeStoreError::UnexpectedError,
            old(self).dependable() ==> r is Ok && final(self).challenges() == old(
                self,
            ).challenges().remove(email@),
    ;

    /// The challenge that `email` can answer at `now`;
    /// `LoginAttemptIdNotFound` where there is none, or none any more.
    fn get_code(&self, email: &Email, now: u64) -> (r: Result<
        (LoginAttemptId, TwoFACode),
        TwoFACodeStoreError,
    >)
        ensures
            self.dependable() ==> lookup_view(r) == challenge_lookup(
                self.challenges(),
                email@,
                now as nat,
            ),
    ;
}

} // verus!
