use crate::domain::data_stores::{BannedTokenStore, BannedTokenStoreError, TOKEN_TTL_SECONDS};
use vstd::prelude::*;
use vstd::string::StringExecFns;

verus! {

/// What is kept under a key of the cache.
pub enum CacheValue {
    Flag(bool),
    Text(String),
}

/// What the cache answers when it is asked for a key.
pub enum CacheReply {
    /// The text kept under the key.
    Found(String),
    /// Nothing is kept under the key: it was never set, or dropped, or
    /// its time was up.
    Absent,
    /// The cache did not answer.
    Failed,
}

/// A connection to a cache that drops its entries by itself when their
/// time is up. The stores of this module say what to ask of the cache
/// and what to make of its answers; asking is left to whoever
/// implements this.
pub trait CacheConnection {
    /// Sets `key` to `value`, to be dropped after `seconds`, in place of
    /// what the key held. Whether the cache took it.
    fn set_ex(&self, key: &str, value: CacheValue, seconds: u64) -> bool;

    /// What is kept under `key`.
    fn get(&self, key: &str) -> CacheReply;

    /// Drops `key`, if it is there. Whether the cache took it.
    fn del(&self, key: &str) -> bool;

    /// Whether `key` is there; `None` where the cache did not answer.
    fn has_key(&self, key: &str) -> Option<bool>;
}

/// The key under which the ban of `token` is kept: the token behind a
/// prefix that keeps bans apart from everything else in the cache.
pub open spec fn banned_token_key(token: Seq<char>) -> Seq<char> {
    "banned_token:"@ + token
}

/// Computes `banned_token_key`.
pub fn get_key(token: &str) -> (key: String)
    ensures
        key@ == banned_token_key(token@),
{
    String::from_str("banned_token:").concat(token)
}

/// What to ask of a cache that drops entries by itself: set `key` to
/// `value`, to be dropped after `seconds`.
pub struct BanCommand {
    pub key: String,
    pub value: bool,
    pub seconds: u64,
}

/// The command that bans `token`: its key is set to `true` for as long as
/// a token issued now would be good.
pub fn ban_token_command(token: &str) -> (command: BanCommand)
    ensures
        command.key@ == banned_token_key(token@),
        command.value,
        command.seconds == TOKEN_TTL_SECONDS,
{
    BanCommand { key: get_key(token), value: true, seconds: TOKEN_TTL_SECONDS }
}

/// Whether a token is banned, from what the cache said when it was asked
/// whether the token's key exists: `None` stands for a cache that did
/// not answer.
pub fn read_ban_reply(reply: Option<bool>) -> (r: Result<bool, BannedTokenStoreError>)
    ensures
        r == match reply {
            Some(found) => Ok::<bool, BannedTokenStoreError>(found),
            None => Err::<bool, BannedTokenStoreError>(BannedTokenStoreError::UnexpectedError),
        },
{
    match reply {
        Some(found) => Ok(found),
        None => Err(BannedTokenStoreError::UnexpectedError),
    }
}

/// A revocation store in a cache outside the program. The cache drops a
/// ban by itself when its time is up, so the store asks for no clock.
pub struct RedisBannedTokenStore<C: CacheConnection> {
    conn: C,
}

impl<C: CacheConnection> RedisBannedTokenStore<C> {
    /// The store that asks over `conn`.
    pub fn new(conn: C) -> (store: Self)
        ensures
            store.connection() == conn,
            !store.dependable(),
    {
        RedisBannedTokenStore { conn }
    }

    /// The connection that the store asks over.
    pub closed spec fn connection(&self) -> C {
        self.conn
    }
}

impl<C: CacheConnection> BannedTokenStore for RedisBannedTokenStore<C> {
    /// Nothing is known of what the cache holds.
    closed spec fn banned(&self) -> Map<Seq<char>, nat> {
        Map::empty()
    }

    open spec fn dependable(&self) -> bool {
        false
    }

    /// Asks the cache to set the key of the token to `true` for the life
    /// of a token, as `ban_token_command` says, and succeeds exactly
    /// where the cache takes that.
    fn ban_token(&mut self, token: String, now: u64) -> (r: Result<(), BannedTokenStoreError>)
        ensures
            final(self).connection() == old(self).connection(),
            exists|taken: bool| #[trigger]
                cache_set(
                    &old(self).connection(),
                    banned_token_key(token@),
                    CacheEntry::Flag(true),
                    TOKEN_TTL_SECONDS,
                    taken,
                ) && r == ban_answer(taken),
    {
        let command = ban_token_command(token.as_str());
        let key = command.key.as_str();
        let value = CacheValue::Flag(command.value);
        let taken = self.conn.set_ex(key, value, command.seconds);
        proof {
            assert(call_ensures(C::set_ex, (&self.conn, key, value, command.seconds), taken));
            assert(cache_set(
                &old(self).connection(),
                banned_token_key(token@),
                CacheEntry::Flag(true),
                TOKEN_TTL_SECONDS,
                taken,
            ));
        }
        if taken {
            Ok(())
        } else {
            Err(BannedTokenStoreError::UnexpectedError)
        }
    }

    /// Asks the cache whether the key of the token is there, and answers
    /// what `read_ban_reply` makes of what the cache says.
    fn check_if_token_is_banned(&self, token: &str, now: u64) -> (r: Result<
        bool,
        BannedTokenStoreError,
    >)
        ensures
            exists|reply: Option<bool>| #[trigger]
                cache_has_key(&self.connection(), banned_token_key(token@), reply) && r
                    == ban_reply_answer(reply),
    {
        let key = get_key(token);
        let key = key.as_str();
        let reply = self.conn.has_key(key);
        proof {
            assert(call_ensures(C::has_key, (&self.conn, key), reply));
            assert(cache_has_key(&self.connection(), banned_token_key(token@), reply));
        }
        read_ban_reply(reply)
    }
}

/// What is kept under a key of the cache, as plain values.
pub enum CacheEntry {
    Flag(bool),
    Text(Seq<char>),
}

impl View for CacheValue {
    type V = CacheEntry;

    open spec fn view(&self) -> CacheEntry {
        match self {
            CacheValue::Flag(flag) => CacheEntry::Flag(*flag),
            CacheValue::Text(text) => CacheEntry::Text(text@),
        }
    }
}

/// What the cache answers when it is asked for a key, as plain values.
pub enum CacheAnswer {
    Found(Seq<char>),
    Absent,
    Failed,
}

impl View for CacheReply {
    type V = CacheAnswer;

    open spec fn view(&self) -> CacheAnswer {
        match self {
            CacheReply::Found(text) => CacheAnswer::Found(text@),
            CacheReply::Absent => CacheAnswer::Absent,
            CacheReply::Failed => CacheAnswer::Failed,
        }
    }
}

/// Whether `taken` is what `conn` answered when it was asked to set `key`
/// to `value` for `seconds`.
pub open spec fn cache_set<C: CacheConnection>(
    conn: &C,
    key: Seq<char>,
    value: CacheEntry,
    seconds: u64,
    taken: bool,
) -> bool {
    exists|k: &str, v: CacheValue|
        k@ == key && v@ == value && call_ensures(C::set_ex, (conn, k, v, seconds), taken)
}

/// Whether `reply` is what `conn` answered when it was asked for `key`.
pub open spec fn cache_get<C: CacheConnection>(conn: &C, key: Seq<char>, reply: CacheAnswer)
    -> bool {
    exists|k: &str, answer: CacheReply|
        k@ == key && answer@ == reply && call_ensures(C::get, (conn, k), answer)
}

/// Whether `taken` is what `conn` answered when it was asked to drop
/// `key`.
pub open spec fn cache_del<C: CacheConnection>(conn: &C, key: Seq<char>, taken: bool) -> bool {
    exists|k: &str| k@ == key && call_ensures(C::del, (conn, k), taken)
}

/// Whether `reply` is what `conn` answered when it was asked whether
/// `key` is there.
pub open spec fn cache_has_key<C: CacheConnection>(
    conn: &C,
    key: Seq<char>,
    reply: Option<bool>,
) -> bool {
    exists|k: &str| k@ == key && call_ensures(C::has_key, (conn, k), reply)
}

/// What banning a token is answered with: success where the cache took
/// the ban, and an error where it did not.
pub open spec fn ban_answer(taken: bool) -> Result<(), BannedTokenStoreError> {
    if taken {
        Ok(())
    } else {
        Err(BannedTokenStoreError::UnexpectedError)
    }
}

/// What `read_ban_reply` makes of an answer of the cache.
pub open spec fn ban_reply_answer(reply: Option<bool>) -> Result<bool, BannedTokenStoreError> {
    match reply {
        Some(found) => Ok(found),
        None => Err(BannedTokenStoreError::UnexpectedError),
    }
}

} // verus!
