use crate::domain::data_stores::{
    lookup_view, Challenge, TwoFACodeStore, TwoFACodeStoreError, TWO_FA_CODE_TTL_SECONDS,
};
use crate::domain::login_attempt_id::{
    is_login_attempt_id_text, uuid_text, uuid_value, LoginAttemptId,
};
use crate::domain::two_fa_code::{is_code_text, TwoFACode};
use crate::services::data_stores::redis_banned_token_store::{
    cache_del, cache_get, cache_set, CacheAnswer, CacheConnection, CacheEntry, CacheReply,
    CacheValue,
};
use crate::domain::email::Email;
use vstd::prelude::*;
use vstd::string::StringExecFns;

verus! {

/// The JSON text that `serde_json::to_string` writes for a pair of
/// strings, or `None` where it fails.
pub uninterp spec fn json_pair_text(first: Seq<char>, second: Seq<char>) -> Option<Seq<char>>;

/// The pair of strings that `serde_json::from_str` reads from `text`, or
/// `None` where the text is no JSON array of two strings.
pub uninterp spec fn json_pair_value(text: Seq<char>) -> Option<(Seq<char>, Seq<char>)>;

/// `serde_json::Error`, which writing and reading JSON give where they
/// fail. It is handed on unread.
#[verifier::external_type_specification]
#[verifier::external_body]
pub struct ExJsonError(serde_json::Error);

/// `serde_json::to_string` on a pair of strings. The contract names the
/// text and adds that `from_str` reads the same pair back from it: the
/// one writes a JSON array of the two strings, escaped, and the other
/// undoes that.
#[verifier::external_body]
fn json_encode_pair(first: &str, second: &str) -> (r: Result<String, serde_json::Error>)
    ensures
        match r {
            Ok(text) => json_pair_text(first@, second@) == Some(text@) && json_pair_value(text@)
                == Some((first@, second@)),
            Err(_) => json_pair_text(first@, second@) is None,
        },
{
    serde_json::to_string(&(first, second))
}

/// `serde_json::from_str` for a pair of strings.
#[verifier::external_body]
fn json_decode_pair(text: &str) -> (r: Result<(String, String), serde_json::Error>)
    ensures
        match r {
            Ok(pair) => json_pair_value(text@) == Some((pair.0@, pair.1@)),
            Err(_) => json_pair_value(text@) is None,
        },
{
    serde_json::from_str::<(String, String)>(text)
}

/// The key under which the challenge of `email` is kept: the address
/// behind a prefix that keeps challenges apart from everything else in
/// the cache.
pub open spec fn two_fa_code_key(email: Seq<char>) -> Seq<char> {
    "two_fa_code:"@ + email
}

/// Computes `two_fa_code_key`.
pub fn get_key(email: &Email) -> (key: String)
    ensures
        key@ == two_fa_code_key(email@),
{
    String::from_str("two_fa_code:").concat(email.as_ref())
}

/// What to ask of a cache that drops entries by itself: set `key` to
/// `value`, to be dropped after `seconds`.
pub struct SetCommand {
    pub key: String,
    pub value: String,
    pub seconds: u64,
}

/// The command that issues a challenge to `email`: its key is set to the
/// identifier and the code as a JSON pair, for ten minutes. What the key
/// held before is overwritten.
pub fn add_code_command(email: &Email, login_attempt_id: &LoginAttemptId, code: &TwoFACode) -> (r:
    Result<SetCommand, TwoFACodeStoreError>)
    ensures
        match r {
            Ok(command) => command.key@ == two_fa_code_key(email@) && json_pair_text(
                login_attempt_id@,
                code@,
            ) == Some(command.value@) && command.seconds == TWO_FA_CODE_TTL_SECONDS
                && stored_challenge(CacheAnswer::Found(command.value@)) == Ok::<
                (Seq<char>, Seq<char>),
                TwoFACodeStoreError,
            >((login_attempt_id@, code@)),
            Err(e) => e == TwoFACodeStoreError::UnexpectedError && json_pair_text(
                login_attempt_id@,
                code@,
            ) is None,
        },
{
    let id_text = login_attempt_id.as_ref();
    let code_text = code.as_ref();
    match json_encode_pair(id_text, code_text) {
        Ok(value) => {
            proof {
                lemma_held_challenge_reads_back(login_attempt_id@, code@, value@);
            }
            Ok(SetCommand { key: get_key(email), value, seconds: TWO_FA_CODE_TTL_SECONDS })
        },
        Err(_) => Err(TwoFACodeStoreError::UnexpectedError),
    }
}

/// The challenge that an answer of the cache stands for. Nothing under
/// the key: there is no challenge. No answer: that is unexpected. A text
/// that is no JSON pair, or whose parts are no identifier and no code:
/// the entry is broken, which is unexpected too.
pub open spec fn stored_challenge(reply: CacheAnswer) -> Result<
    (Seq<char>, Seq<char>),
    TwoFACodeStoreError,
> {
    match reply {
        CacheAnswer::Absent => Err(TwoFACodeStoreError::LoginAttemptIdNotFound),
        CacheAnswer::Failed => Err(TwoFACodeStoreError::UnexpectedError),
        CacheAnswer::Found(text) => match json_pair_value(text) {
            None => Err(TwoFACodeStoreError::UnexpectedError),
            Some((first, second)) => match uuid_value(first) {
                Some(id) => if is_code_text(second) {
                    Ok((uuid_text(id), second))
                } else {
                    Err(TwoFACodeStoreError::UnexpectedError)
                },
                None => Err(TwoFACodeStoreError::UnexpectedError),
            },
        },
    }
}

/// A challenge that is written as a JSON pair is read back as it was.
pub proof fn lemma_held_challenge_reads_back(
    login_attempt_id: Seq<char>,
    code: Seq<char>,
    text: Seq<char>,
)
    requires
        is_login_attempt_id_text(login_attempt_id),
        is_code_text(code),
        json_pair_value(text) == Some((login_attempt_id, code)),
    ensures
        stored_challenge(CacheAnswer::Found(text)) == Ok::<
            (Seq<char>, Seq<char>),
            TwoFACodeStoreError,
        >((login_attempt_id, code)),
{
}

/// The challenge that the cache holds, from what it answered when it was
/// asked for the key.
pub fn read_code_reply(reply: CacheReply) -> (r: Result<
    (LoginAttemptId, TwoFACode),
    TwoFACodeStoreError,
>)
    ensures
        lookup_view(r) == stored_challenge(reply@),
{
    let text = match reply {
        CacheReply::Found(text) => text,
        CacheReply::Absent => {
            return Err(TwoFACodeStoreError::LoginAttemptIdNotFound);
        },
        CacheReply::Failed => {
            return Err(TwoFACodeStoreError::UnexpectedError);
        },
    };
    let (first, second) = match json_decode_pair(text.as_str()) {
        Ok(pair) => pair,
        Err(_) => {
            return Err(TwoFACodeStoreError::UnexpectedError);
        },
    };
    let login_attempt_id = match LoginAttemptId::parse(first) {
        Ok(login_attempt_id) => login_attempt_id,
        Err(_) => {
            return Err(TwoFACodeStoreError::UnexpectedError);
        },
    };
    match TwoFACode::parse(second) {
        Ok(code) => Ok((login_attempt_id, code)),
        Err(_) => Err(TwoFACodeStoreError::UnexpectedError),
    }
}

/// A challenge store in a cache outside the program. The cache drops a
/// challenge by itself when its ten minutes are up, so the store asks
/// for no clock.
pub struct RedisTwoFACodeStore<C: CacheConnection> {
    conn: C,
}

impl<C: CacheConnection> RedisTwoFACodeStore<C> {
    /// The store that asks over `conn`.
    pub fn new(conn: C) -> (store: Self)
        ensures
            store.connection() == conn,
            !store.dependable(),
    {
        RedisTwoFACodeStore { conn }
    }

    /// The connection that the store asks over.
    pub closed spec fn connection(&self) -> C {
        self.conn
    }
}

impl<C: CacheConnection> TwoFACodeStore for RedisTwoFACodeStore<C> {
    /// Nothing is known of what the cache holds.
    closed spec fn challenges(&self) -> Map<Seq<char>, Challenge> {
        Map::empty()
    }

    open spec fn dependable(&self) -> bool {
        false
    }

    /// Asks the cache to set the key of the email to the identifier and
    /// the code as a JSON pair for ten minutes, as `add_code_command`
    /// says. Fails where the pair cannot be written, without asking the
    /// cache, and else succeeds exactly where the cache takes that.
    fn add_code(
        &mut self,
        email: Email,
        login_attempt_id: LoginAttemptId,
        code: TwoFACode,
        now: u64,
    ) -> (r: Result<(), TwoFACodeStoreError>)
        ensures
            final(self).connection() == old(self).connection(),
            add_code_answer(&old(self).connection(), email@, login_attempt_id@, code@, r),
    {
        let command = match add_code_command(&email, &login_attempt_id, &code) {
            Ok(command) => command,
            Err(e) => {
                assert(add_code_answer(
                    &old(self).connection(),
                    email@,
                    login_attempt_id@,
                    code@,
                    Err(e),
                ));
                return Err(e);
            },
        };
        let key = command.key.as_str();
        let ghost text = json_pair_text(login_attempt_id@, code@).unwrap();
        assert(text == command.value@);
        let value = CacheValue::Text(command.value);
        let taken = self.conn.set_ex(key, value, command.seconds);
        proof {
            assert(call_ensures(C::set_ex, (&self.conn, key, value, command.seconds), taken));
            assert(cache_set(
                &old(self).connection(),
                two_fa_code_key(email@),
                CacheEntry::Text(text),
                TWO_FA_CODE_TTL_SECONDS,
                taken,
            ));
        }
        let r = if taken {
            Ok(())
        } else {
            Err(TwoFACodeStoreError::UnexpectedError)
        };
        assert(r == code_answer(taken));
        assert(add_code_answer(&old(self).connection(), email@, login_attempt_id@, code@, r));
        r
    }

    /// Asks the cache to drop the key of the email, and succeeds exactly
    /// where the cache takes that.
    fn remove_code(&mut self, email: &Email) -> (r: Result<(), TwoFACodeStoreError>)
        ensures
            final(self).connection() == old(self).connection(),
            exists|taken: bool| #[trigger]
                cache_del(&old(self).connection(), two_fa_code_key(email@), taken) && r
                    == code_answer(taken),
    {
        let key = get_key(email);
        let key = key.as_str();
        let taken = self.conn.del(key);
        proof {
            assert(call_ensures(C::del, (&self.conn, key), taken));
            assert(cache_del(&old(self).connection(), two_fa_code_key(email@), taken));
        }
        if taken {
            Ok(())
        } else {
            Err(TwoFACodeStoreError::UnexpectedError)
        }
    }

    /// Asks the cache for the key of the email, and answers what
    /// `read_code_reply` makes of what the cache says.
    fn get_code(&self, email: &Email, now: u64) -> (r: Result<
        (LoginAttemptId, TwoFACode),
        TwoFACodeStoreError,
    >)
        ensures
            exists|reply: CacheAnswer| #[trigger]
                cache_get(&self.connection(), two_fa_code_key(email@), reply) && lookup_view(r)
                    == stored_challenge(reply),
    {
        let key = get_key(email);
        let key = key.as_str();
        let reply = self.conn.get(key);
        proof {
            assert(call_ensures(C::get, (&self.conn, key), reply));
            assert(cache_get(&self.connection(), two_fa_code_key(email@), reply@));
        }
        read_code_reply(reply)
    }
}

/// Whether `r` is what issuing a challenge is answered with: an error
/// where the identifier and the code cannot be written as a JSON pair,
/// and else what follows from the cache's answer to the set of the
/// email's key to that pair for ten minutes.
pub open spec fn add_code_answer<C: CacheConnection>(
    conn: &C,
    email: Seq<char>,
    login_attempt_id: Seq<char>,
    code: Seq<char>,
    r: Result<(), TwoFACodeStoreError>,
) -> bool {
    match json_pair_text(login_attempt_id, code) {
        Some(text) => exists|taken: bool| #[trigger]
            cache_set(
                conn,
                two_fa_code_key(email),
                CacheEntry::Text(text),
                TWO_FA_CODE_TTL_SECONDS,
                taken,
            ) && r == code_answer(taken),
        None => r == Err::<(), TwoFACodeStoreError>(TwoFACodeStoreError::UnexpectedError),
    }
}

/// What issuing or dropping a challenge is answered with: success where
/// the cache took it, and an error where it did not.
pub open spec fn code_answer(taken: bool) -> Result<(), TwoFACodeStoreError> {
    if taken {
        Ok(())
    } else {
        Err(TwoFACodeStoreError::UnexpectedError)
    }
}

} // verus!
