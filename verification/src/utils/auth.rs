use crate::domain::data_stores::{is_banned_at, BannedTokenStore, TOKEN_TTL_SECONDS};
use crate::domain::email::{is_email_text, Email};
use crate::utils::text::{
    chars_of, decimal_string, decimal_text, decimal_value, find_char, hex_string, hex_text,
    hex_value, index_of_char, is_digit, lemma_decimal_round_trip, lemma_hex_round_trip,
    lemma_index_of_char_in_joined, parse_digits_capped, parse_hex,
};
use hmac::{Hmac, Mac};
use sha2::Sha256;
use vstd::prelude::*;
use vstd::string::StrSliceExecFns;
use vstd::string::StringExecFns;
use vstd::utf8::encode_utf8;

verus! {

/// The HMAC-SHA-256 tag of `message` under `key`, as the `hmac` and
/// `sha2` crates compute it.
pub uninterp spec fn hmac_sha256(key: Seq<u8>, message: Seq<u8>) -> Seq<u8>;

/// `Mac::finalize` of an `Hmac<Sha256>` that was made from `key` by
/// `new_from_slice`, which takes a key of any length, and fed `message`
/// by `update`: the tag.
#[verifier::external_body]
fn mac_tag(key: &[u8], message: &[u8]) -> (tag: Vec<u8>)
    ensures
        tag@ == hmac_sha256(key@, message@),
{
    let mut mac = Hmac::<Sha256>::new_from_slice(key).expect("a key of any length is taken");
    mac.update(message);
    mac.finalize().into_bytes().to_vec()
}

/// `Mac::verify_slice` of an `Hmac<Sha256>` that was made from `key` and
/// fed `message` in the same way: whether `tag` is the tag. The crate
/// compares the two in constant time.
#[verifier::external_body]
fn mac_matches(key: &[u8], message: &[u8], tag: &[u8]) -> (matches: bool)
    ensures
        matches == (hmac_sha256(key@, message@) == tag@),
{
    let mut mac = Hmac::<Sha256>::new_from_slice(key).expect("a key of any length is taken");
    mac.update(message);
    mac.verify_slice(tag).is_ok()
}

/// The last instant at which a token can run out.
pub const LAST_TOKEN_EXPIRY: u64 = 999_999_999_999_999_999;

/// When a token issued at `now` runs out.
pub open spec fn token_expiry(now: nat) -> nat {
    if now + TOKEN_TTL_SECONDS > LAST_TOKEN_EXPIRY {
        LAST_TOKEN_EXPIRY as nat
    } else {
        now + TOKEN_TTL_SECONDS as nat
    }
}

/// What a token says: when it runs out, a full stop, and whose it is.
pub open spec fn token_payload(email: Seq<char>, expires_at: nat) -> Seq<char> {
    decimal_text(expires_at) + seq!['.'] + email
}

/// The token for `email` that runs out at `expires_at`, signed with
/// `key`: the tag of what it says, in hexadecimal, a full stop, and what
/// it says.
pub open spec fn token_text(key: Seq<u8>, email: Seq<char>, expires_at: nat) -> Seq<char> {
    hex_text(hmac_sha256(key, encode_utf8(token_payload(email, expires_at)))) + seq!['.']
        + token_payload(email, expires_at)
}

/// What `token` says, if what stands before its first full stop is the
/// tag, under `key`, of what stands behind it.
pub open spec fn signed_payload(key: Seq<u8>, token: Seq<char>) -> Option<Seq<char>> {
    let dot = index_of_char(token, '.');
    if dot < token.len() && hex_value(token.take(dot)) == Some(
        hmac_sha256(key, encode_utf8(token.skip(dot + 1))),
    ) {
        Some(token.skip(dot + 1))
    } else {
        None
    }
}

/// The email and the expiry that `payload` names, if it names both.
pub open spec fn payload_claims(payload: Seq<char>) -> Option<(Seq<char>, nat)> {
    let dot = index_of_char(payload, '.');
    if dot < payload.len() {
        match decimal_value(payload.take(dot)) {
            Some(expires_at) => if expires_at <= LAST_TOKEN_EXPIRY && is_email_text(
                payload.skip(dot + 1),
            ) {
                Some((payload.skip(dot + 1), expires_at))
            } else {
                None
            },
            None => None,
        }
    } else {
        None
    }
}

/// The email and the expiry of `token`, if `key` signed it. The
/// signature is looked at first: nothing that an unsigned token says
/// counts.
pub open spec fn token_claims(key: Seq<u8>, token: Seq<char>) -> Option<(Seq<char>, nat)> {
    match signed_payload(key, token) {
        Some(payload) => payload_claims(payload),
        None => None,
    }
}

/// Whose token `token` is at `now`, if `key` signed it and it has not
/// run out: a token is good before its expiry, and neither at that
/// instant nor after.
pub open spec fn token_owner(key: Seq<u8>, token: Seq<char>, now: nat) -> Option<Seq<char>> {
    match token_claims(key, token) {
        Some((email, expires_at)) => if now < expires_at {
            Some(email)
        } else {
            None
        },
        None => None,
    }
}

/// What is read from a token is what was written into it.
pub proof fn lemma_token_round_trip(key: Seq<u8>, email: Seq<char>, expires_at: nat)
    requires
        is_email_text(email),
        expires_at <= LAST_TOKEN_EXPIRY,
    ensures
        token_claims(key, token_text(key, email, expires_at)) == Some((email, expires_at)),
{
    let payload = token_payload(email, expires_at);
    let tag = hmac_sha256(key, encode_utf8(payload));
    let token = token_text(key, email, expires_at);
    lemma_hex_round_trip(tag);
    lemma_index_of_char_in_joined(hex_text(tag), '.', payload);
    assert(signed_payload(key, token) == Some(payload));
    let digits = decimal_text(expires_at);
    lemma_decimal_round_trip(expires_at);
    if digits.contains('.') {
        let j = choose|j: int| 0 <= j < digits.len() && digits[j] == '.';
        assert(is_digit(digits[j]));
    }
    lemma_index_of_char_in_joined(digits, '.', email);
}

/// A token names one owner and one expiry: two tokens that read alike
/// were written for the same email and the same instant.
pub proof fn lemma_token_names_one_owner(
    key: Seq<u8>,
    email: Seq<char>,
    expires_at: nat,
    other_email: Seq<char>,
    other_expires_at: nat,
)
    requires
        is_email_text(email),
        is_email_text(other_email),
        expires_at <= LAST_TOKEN_EXPIRY,
        other_expires_at <= LAST_TOKEN_EXPIRY,
        token_text(key, email, expires_at) == token_text(key, other_email, other_expires_at),
    ensures
        email == other_email,
        expires_at == other_expires_at,
{
    lemma_token_round_trip(key, email, expires_at);
    lemma_token_round_trip(key, other_email, other_expires_at);
}

/// A token issued at `issued` is its owner's from then until it runs
/// out, ten minutes later, and nobody's after.
pub proof fn lemma_issued_token_is_good(key: Seq<u8>, email: Seq<char>, issued: nat, now: nat)
    requires
        is_email_text(email),
    ensures
        token_owner(key, token_text(key, email, token_expiry(issued)), now) == (if now
            < token_expiry(issued) {
            Some(email)
        } else {
            None
        }),
        issued + TOKEN_TTL_SECONDS <= LAST_TOKEN_EXPIRY && issued <= now < issued
            + TOKEN_TTL_SECONDS ==> token_owner(
            key,
            token_text(key, email, token_expiry(issued)),
            now,
        ) == Some(email),
{
    lemma_token_round_trip(key, email, token_expiry(issued));
}

/// Whether `token` is the session token of `email` issued at `issued`:
/// it is written as `token_text` says, and so it is its owner's until it
/// runs out and nobody's after.
pub open spec fn is_session_token(
    key: Seq<u8>,
    token: Seq<char>,
    email: Seq<char>,
    issued: nat,
) -> bool {
    &&& token == token_text(key, email, token_expiry(issued))
    &&& forall|at: nat| #[trigger]
        token_owner(key, token, at) == (if at < token_expiry(issued) {
            Some(email)
        } else {
            None
        })
}

/// A ban outlasts the token that it is put on: a token is issued no
/// later than it is banned, so it has run out when its ban does.
pub proof fn lemma_ban_outlasts_token(issued: nat, banned: nat)
    requires
        issued <= banned,
    ensures
        token_expiry(issued) <= crate::domain::data_stores::expiry_at(
            banned,
            TOKEN_TTL_SECONDS as nat,
        ),
{
}

/// Why a token was refused. Nothing tells a forged token from one that
/// ran out.
#[derive(Debug, Clone, Copy, PartialEq, Eq, Structural)]
pub enum TokenError {
    Invalid,
}

/// Issues and verifies session tokens with one signing key, which it is
/// made with and never hands out.
pub struct TokenCodec {
    secret: Vec<u8>,
}

impl TokenCodec {
    /// The signing key.
    pub closed spec fn key(&self) -> Seq<u8> {
        self.secret@
    }

    /// The codec that signs with the bytes of `secret`.
    pub fn new(secret: &str) -> (codec: TokenCodec)
        ensures
            codec.key() == encode_utf8(secret@),
    {
        TokenCodec { secret: secret.as_bytes_vec() }
    }

    /// The token for `email`, good from `now` for ten minutes.
    pub fn issue(&self, email: &Email, now: u64) -> (token: String)
        ensures
            is_session_token(self.key(), token@, email@, now as nat),
    {
        let expires_at: u64 = if now > LAST_TOKEN_EXPIRY - TOKEN_TTL_SECONDS {
            LAST_TOKEN_EXPIRY
        } else {
            now + TOKEN_TTL_SECONDS
        };
        let mut payload = decimal_string(expires_at);
        proof {
            reveal_strlit(".");
        }
        payload.append(".");
        payload.append(email.as_ref());
        assert(payload@ =~= token_payload(email@, expires_at as nat));
        let tag = mac_tag(self.secret.as_slice(), payload.as_str().as_bytes());
        let mut token = hex_string(&tag);
        token.append(".");
        token.append(payload.as_str());
        assert(token@ =~= token_text(self.key(), email@, expires_at as nat));
        assert forall|at: nat| #[trigger]
            token_owner(self.key(), token@, at) == (if at < token_expiry(now as nat) {
                Some(email@)
            } else {
                None
            }) by {
            lemma_issued_token_is_good(self.key(), email@, now as nat, at);
        }
        token
    }

    /// Whose token `token` is at `now`. The signature is verified before
    /// anything that the token says is read.
    pub fn verify(&self, token: &str, now: u64) -> (r: Result<Email, TokenError>)
        ensures
            match r {
                Ok(email) => token_owner(self.key(), token@, now as nat) == Some(email@),
                Err(_) => token_owner(self.key(), token@, now as nat) is None,
            },
    {
        let chars = chars_of(token);
        let n = chars.len();
        let dot = find_char(&chars, 0, '.');
        assert(chars@.skip(0) =~= token@);
        if dot >= n {
            return Err(TokenError::Invalid);
        }
        assert(chars@.subrange(0, dot as int) =~= token@.take(dot as int));
        let tag = match parse_hex(&chars, 0, dot) {
            Some(tag) => tag,
            None => {
                return Err(TokenError::Invalid);
            },
        };
        let payload = token.substring_char(dot + 1, n);
        assert(payload@ =~= token@.skip(dot + 1));
        if !mac_matches(self.secret.as_slice(), payload.as_bytes(), tag.as_slice()) {
            return Err(TokenError::Invalid);
        }
        assert(signed_payload(self.key(), token@) == Some(payload@));
        read_claims(payload, now)
    }
}

/// Whose payload `payload` is at `now`, if it names an owner and an
/// expiry that has not come.
pub open spec fn payload_owner(payload: Seq<char>, now: nat) -> Option<Seq<char>> {
    match payload_claims(payload) {
        Some((email, expires_at)) => if now < expires_at {
            Some(email)
        } else {
            None
        },
        None => None,
    }
}

/// Reads what a token says, once its signature was found good: the
/// owner, if the payload names one and an expiry that has not come.
pub fn read_claims(payload: &str, now: u64) -> (r: Result<Email, TokenError>)
    ensures
        match r {
            Ok(email) => payload_owner(payload@, now as nat) == Some(email@),
            Err(_) => payload_owner(payload@, now as nat) is None,
        },
{
    let chars = chars_of(payload);
    let n = chars.len();
    let dot = find_char(&chars, 0, '.');
    assert(chars@.skip(0) =~= payload@);
    if dot >= n {
        return Err(TokenError::Invalid);
    }
    assert(chars@.subrange(0, dot as int) =~= payload@.take(dot as int));
    let expires_at = match parse_digits_capped(&chars, 0, dot, LAST_TOKEN_EXPIRY + 1) {
        Some(expires_at) => expires_at,
        None => {
            return Err(TokenError::Invalid);
        },
    };
    if expires_at > LAST_TOKEN_EXPIRY || now >= expires_at {
        return Err(TokenError::Invalid);
    }
    let owner = payload.substring_char(dot + 1, n);
    assert(owner@ =~= payload@.skip(dot + 1));
    match Email::parse(owner.to_owned()) {
        Ok(email) => Ok(email),
        Err(_) => Err(TokenError::Invalid),
    }
}

/// Whose token `token` is at `now`, where it can be used: the codec
/// finds it good, and it is not banned. A store that does not answer
/// counts against the token.
pub fn validate_token<B: BannedTokenStore>(
    token: &str,
    codec: &TokenCodec,
    banned_token_store: &B,
    now: u64,
) -> (r: Result<Email, TokenError>)
    ensures
        r matches Ok(email) ==> token_owner(codec.key(), token@, now as nat) == Some(email@),
        banned_token_store.dependable() ==> (r is Ok <==> token_owner(
            codec.key(),
            token@,
            now as nat,
        ) is Some && !is_banned_at(banned_token_store.banned(), token@, now as nat)),
{
    let email = match codec.verify(token, now) {
        Ok(email) => email,
        Err(e) => {
            return Err(e);
        },
    };
    match banned_token_store.check_if_token_is_banned(token, now) {
        Ok(false) => Ok(email),
        _ => Err(TokenError::Invalid),
    }
}

} // verus!
