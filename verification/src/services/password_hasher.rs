use argon2::password_hash::SaltString;
use argon2::{Algorithm, Argon2, Params, PasswordHash, PasswordHasher, PasswordVerifier, Version};
use crate::domain::password::{utf8_len, MIN_PASSWORD_BYTES};
use crate::utils::text::{
    chars_of, decimal_text, digit_run_end, digits_value, find_digit_run_end, parse_digits_capped,
};
use vstd::prelude::*;

verus! {

/// Memory that one hash takes, in KiB.
pub const ARGON2_MEMORY_KIB: u32 = 15000;

/// Passes over that memory.
pub const ARGON2_PASSES: u32 = 2;

/// Lanes that a hash is computed in.
pub const ARGON2_LANES: u32 = 1;

/// The greatest lane count that can be handed to the `argon2` crate,
/// which multiplies the count by eight in 32 bits before it looks at it.
pub const MAX_LANES: u32 = 0x1FFF_FFFF;

/// Why hashing or verifying failed.
#[derive(Debug, Clone, Copy, PartialEq, Eq, Structural)]
pub enum PasswordHashError {
    /// The candidate is not the password that the hash was made from.
    Mismatch,
    /// The parameters or the salt were refused, the stored hash is
    /// malformed, or a hash came out equal to its password.
    Unexpected,
}

/// The hash, as a PHC string, that Argon2id (version 0x13) gives for
/// `password` with `salt` and these costs, or `None` where the `argon2`
/// crate refuses the salt or the costs.
pub uninterp spec fn argon2_hash_text(
    password: Seq<char>,
    salt: Seq<char>,
    memory_kib: u32,
    passes: u32,
    lanes: u32,
) -> Option<Seq<char>>;

/// What the `argon2` crate finds when it holds `candidate` against the
/// PHC string `hash`: `Some(true)` where the candidate is the password,
/// `Some(false)` where it is not, `None` where the hash cannot be read
/// or used.
pub uninterp spec fn argon2_check(hash: Seq<char>, candidate: Seq<char>) -> Option<bool>;

/// `argon2::password_hash::Error`, which hashing and verifying give where
/// they fail. It is handed on unread.
#[verifier::external_type_specification]
#[verifier::external_body]
pub struct ExPasswordHashError(argon2::password_hash::Error);

/// `SaltString::generate` on `rand::thread_rng()`: a random salt, as the
/// text that `as_str` gives. Nothing is claimed of it.
#[verifier::external_body]
pub(crate) fn random_salt() -> (salt: String) {
    SaltString::generate(&mut rand::thread_rng()).as_str().to_owned()
}

/// Whether `text` names lanes at `at`: a `p` and an equals sign stand
/// there.
pub open spec fn names_lanes_at(text: Seq<char>, at: int) -> bool {
    0 <= at && at + 1 < text.len() && text[at] == 'p' && text[at + 1] == '='
}

/// The number written by the digits right behind the two characters at
/// `at`; zero where no digit stands there.
pub open spec fn lanes_at(text: Seq<char>, at: int) -> nat {
    digits_value(text.subrange(at + 2, digit_run_end(text, at + 2)))
}

/// Whether every lane count that `text` names is one that the `argon2`
/// crate can be handed. A hash that the crate wrote names one count,
/// and its other parts hold no equals sign.
pub open spec fn lanes_in_bounds(text: Seq<char>) -> bool {
    forall|at: int| #[trigger] names_lanes_at(text, at) ==> lanes_at(text, at) <= MAX_LANES
}

/// Computes `lanes_in_bounds`.
pub fn has_lanes_in_bounds(text: &str) -> (ok: bool)
    ensures
        ok == lanes_in_bounds(text@),
{
    let chars = chars_of(text);
    let n = chars.len();
    let mut at: usize = 0;
    while n - at > 1
        invariant
            at <= n,
            n == chars.len(),
            chars@ == text@,
            forall|j: int|
                0 <= j < at && #[trigger] names_lanes_at(chars@, j) ==> lanes_at(chars@, j)
                    <= MAX_LANES,
        decreases n - at,
    {
        if chars[at] == 'p' && chars[at + 1] == '=' {
            let end = find_digit_run_end(&chars, at + 2);
            let ghost run = chars@.subrange(at + 2, end as int);
            match parse_digits_capped(&chars, at + 2, end, MAX_LANES as u64 + 1) {
                Some(lanes) => {
                    if lanes > MAX_LANES as u64 {
                        assert(names_lanes_at(chars@, at as int));
                        assert(lanes_at(chars@, at as int) > MAX_LANES);
                        return false;
                    }
                },
                None => {
                    assert(run.len() == 0);
                    assert(digits_value(run) == 0);
                },
            }
            assert(lanes_at(chars@, at as int) <= MAX_LANES);
        }
        at = at + 1;
    }
    true
}

/// What holding `candidate` against `hash` gives: what the `argon2`
/// crate finds, where the hash names no more lanes than the crate can be
/// handed and reads with a salt and a digest, and `None`, as for every
/// hash that cannot be used, where it does not.
pub open spec fn password_check(hash: Seq<char>, candidate: Seq<char>) -> Option<bool> {
    if lanes_in_bounds(hash) && has_salt_and_digest(hash) {
        argon2_check(hash, candidate)
    } else {
        None
    }
}

/// The salt and the digest that `PasswordHash::new` reads from `text`,
/// each `None` where the text has none, or `None` altogether where the
/// text is refused.
pub uninterp spec fn phc_salt_and_digest(text: Seq<char>) -> Option<
    (Option<Seq<char>>, Option<Seq<u8>>),
>;

/// Whether `text` reads as a hash with a salt and a digest. A text
/// without them is a hash of nothing, which no password can be held
/// against.
pub open spec fn has_salt_and_digest(text: Seq<char>) -> bool {
    phc_salt_and_digest(text) matches Some((Some(_), Some(_)))
}

/// `PasswordHash::new`, with the salt handed back as the text that
/// `as_str` gives and the digest as the bytes that `as_bytes` gives.
#[verifier::external_body]
fn phc_read(text: &str) -> (r: Result<
    (Option<String>, Option<Vec<u8>>),
    argon2::password_hash::Error,
>)
    ensures
        match r {
            Ok(parts) => phc_salt_and_digest(text@) == Some(
                (
                    match parts.0 {
                        Some(salt) => Some(salt@),
                        None => None,
                    },
                    match parts.1 {
                        Some(digest) => Some(digest@),
                        None => None,
                    },
                ),
            ),
            Err(_) => phc_salt_and_digest(text@) is None,
        },
{
    let parsed = PasswordHash::new(text)?;
    let salt = match parsed.salt {
        Some(salt) => Some(salt.as_str().to_owned()),
        None => None,
    };
    let digest = match parsed.hash {
        Some(hash) => Some(hash.as_bytes().to_vec()),
        None => None,
    };
    Ok((salt, digest))
}

/// Computes `has_salt_and_digest`.
pub fn reads_with_salt_and_digest(text: &str) -> (ok: bool)
    ensures
        ok == has_salt_and_digest(text@),
{
    match phc_read(text) {
        Ok((Some(_), Some(_))) => true,
        _ => false,
    }
}

/// What an Argon2id hash of version 0x13 with these costs begins with:
/// the algorithm, the version and the costs, each behind a dollar sign,
/// and the dollar sign that the salt follows.
pub open spec fn argon2id_prefix(memory_kib: u32, passes: u32, lanes: u32) -> Seq<char> {
    "$argon2id$v=19$m="@ + decimal_text(memory_kib as nat) + ",t="@ + decimal_text(passes as nat)
        + ",p="@ + decimal_text(lanes as nat) + seq!['$']
}

/// Whether `hash` is written as an Argon2id hash with these costs and
/// this salt: the prefix, the salt, a dollar sign, and then the digest.
/// The salt holds no dollar sign.
pub open spec fn is_argon2id_text(
    hash: Seq<char>,
    salt: Seq<char>,
    memory_kib: u32,
    passes: u32,
    lanes: u32,
) -> bool {
    let head = argon2id_prefix(memory_kib, passes, lanes) + salt + seq!['$'];
    hash.len() >= head.len() && hash.take(head.len() as int) == head && !salt.contains('$')
}

/// Two hashes with the same costs and different salts are different,
/// whatever was hashed: the hash carries its salt.
pub proof fn lemma_salt_tells_hashes_apart(
    hash: Seq<char>,
    salt: Seq<char>,
    other_hash: Seq<char>,
    other_salt: Seq<char>,
    memory_kib: u32,
    passes: u32,
    lanes: u32,
)
    requires
        is_argon2id_text(hash, salt, memory_kib, passes, lanes),
        is_argon2id_text(other_hash, other_salt, memory_kib, passes, lanes),
        salt != other_salt,
    ensures
        hash != other_hash,
{
    let prefix = argon2id_prefix(memory_kib, passes, lanes);
    let head = prefix + salt + seq!['$'];
    let other_head = prefix + other_salt + seq!['$'];
    let p = prefix.len() as int;
    let n = salt.len() as int;
    let m = other_salt.len() as int;
    if hash == other_hash {
        assert forall|i: int| 0 <= i < n implies hash[p + i] == salt[i] by {
            assert(hash.take(head.len() as int)[p + i] == head[p + i]);
        }
        assert forall|i: int| 0 <= i < m implies hash[p + i] == other_salt[i] by {
            assert(hash.take(other_head.len() as int)[p + i] == other_head[p + i]);
        }
        assert(hash[p + n] == '$') by {
            assert(hash.take(head.len() as int)[p + n] == head[p + n]);
        }
        assert(hash[p + m] == '$') by {
            assert(hash.take(other_head.len() as int)[p + m] == other_head[p + m]);
        }
        if n < m {
            assert(other_salt[n] == '$');
        } else if m < n {
            assert(salt[m] == '$');
        } else {
            assert(salt =~= other_salt);
        }
    }
}

/// A hash that is written with a prefix and a salt begins with the
/// prefix.
pub proof fn lemma_hash_begins_with_its_costs(
    hash: Seq<char>,
    salt: Seq<char>,
    memory_kib: u32,
    passes: u32,
    lanes: u32,
)
    requires
        is_argon2id_text(hash, salt, memory_kib, passes, lanes),
    ensures
        begins_with(hash, argon2id_prefix(memory_kib, passes, lanes)),
{
    let prefix = argon2id_prefix(memory_kib, passes, lanes);
    let head = prefix + salt + seq!['$'];
    assert(hash.take(prefix.len() as int) =~= hash.take(head.len() as int).take(
        prefix.len() as int,
    ));
    assert(head.take(prefix.len() as int) =~= prefix);
}

/// Whether `text` begins with `prefix`.
pub open spec fn begins_with(text: Seq<char>, prefix: Seq<char>) -> bool {
    text.len() >= prefix.len() && text.take(prefix.len() as int) == prefix
}

/// `hash_password` of an `Argon2` made by `Argon2::new` for Argon2id,
/// version 0x13 and `Params::new` of the three costs, on the salt read
/// by `SaltString::from_b64`; the result printed by `to_string`. The
/// contract names that text and says how the crate prints it: the
/// algorithm, the version, the costs, the salt as it was given, which
/// is refused where it holds anything but letters, digits and four
/// signs, and the digest, each behind a dollar sign. It adds what
/// `verify_password` is built to give: it recomputes the hash from the
/// salt and costs written in the text, so the password that a hash was
/// made from verifies against it.
#[verifier::external_body]
fn argon2_hash(password: &str, salt: &str, memory_kib: u32, passes: u32, lanes: u32) -> (r: Result<
    String,
    argon2::password_hash::Error,
>)
    requires
        lanes <= MAX_LANES,
    ensures
        match r {
            Ok(hash) => argon2_hash_text(password@, salt@, memory_kib, passes, lanes) == Some(
                hash@,
            ) && argon2_check(hash@, password@) == Some(true) && is_argon2id_text(
                hash@,
                salt@,
                memory_kib,
                passes,
                lanes,
            ),
            Err(_) => argon2_hash_text(password@, salt@, memory_kib, passes, lanes) is None,
        },
{
    let salt = SaltString::from_b64(salt)?;
    let params = Params::new(memory_kib, passes, lanes, None)?;
    let hasher = Argon2::new(Algorithm::Argon2id, Version::V0x13, params);
    Ok(hasher.hash_password(password.as_bytes(), &salt)?.to_string())
}

/// `verify_password` of `Argon2::default()` on the hash read by
/// `PasswordHash::new`. A mismatch, which the crate reports as its error
/// `Password`, comes back as `Ok(false)`; every other error as it is.
/// The crate reads the lane count from the digits behind `p=` and
/// multiplies it by eight in 32 bits, so a text that names more than
/// `MAX_LANES` is left out.
#[verifier::external_body]
fn argon2_verify(hash: &str, candidate: &str) -> (r: Result<bool, argon2::password_hash::Error>)
    requires
        lanes_in_bounds(hash@),
    ensures
        match r {
            Ok(matches) => argon2_check(hash@, candidate@) == Some(matches),
            Err(_) => argon2_check(hash@, candidate@) is None,
        },
{
    let parsed = PasswordHash::new(hash)?;
    match Argon2::default().verify_password(candidate.as_bytes(), &parsed) {
        Ok(()) => Ok(true),
        Err(argon2::password_hash::Error::Password) => Ok(false),
        Err(e) => Err(e),
    }
}

/// Whether a hash that came out for `password` can be kept for it: it
/// is not the password itself, it is long enough to be held as a
/// password is, and it can be held against a password again.
pub open spec fn is_acceptable_hash(hash: Seq<char>, password: Seq<char>) -> bool {
    &&& hash != password
    &&& utf8_len(hash) >= MIN_PASSWORD_BYTES
    &&& lanes_in_bounds(hash)
    &&& has_salt_and_digest(hash)
}

/// Takes a hash that came out for `password` where it can be kept, and
/// refuses it where it cannot, so that no store ever keeps a password in
/// the clear or a hash that it cannot use.
pub fn accept_hash(hash: String, password: &str) -> (r: Result<String, PasswordHashError>)
    ensures
        match r {
            Ok(accepted) => accepted@ == hash@ && is_acceptable_hash(hash@, password@),
            Err(e) => e == PasswordHashError::Unexpected && !is_acceptable_hash(
                hash@,
                password@,
            ),
        },
{
    if hash == password.to_owned() || hash.as_str().as_bytes().len() < MIN_PASSWORD_BYTES
        || !has_lanes_in_bounds(hash.as_str()) || !reads_with_salt_and_digest(hash.as_str()) {
        Err(PasswordHashError::Unexpected)
    } else {
        Ok(hash)
    }
}

/// What `hash_with_salt` returns for `password` and `salt`: the Argon2id
/// hash for the costs 15000, 2 and 1, unless there is none or it cannot
/// be kept.
pub open spec fn hash_outcome(password: Seq<char>, salt: Seq<char>) -> Result<
    Seq<char>,
    PasswordHashError,
> {
    match argon2_hash_text(password, salt, ARGON2_MEMORY_KIB, ARGON2_PASSES, ARGON2_LANES) {
        Some(hash) => if is_acceptable_hash(hash, password) {
            Ok(hash)
        } else {
            Err(PasswordHashError::Unexpected)
        },
        None => Err(PasswordHashError::Unexpected),
    }
}

/// Whether `hash` can stand for `password` in a store: it verifies the
/// password and is not the password.
pub open spec fn is_hash_of(hash: Seq<char>, password: Seq<char>) -> bool {
    password_check(hash, password) == Some(true) && hash != password
}

/// Whether `hash` is written as this library's hashes are, with `salt`:
/// as an Argon2id hash with the costs 15000, 2 and 1.
pub open spec fn is_hash_text(hash: Seq<char>, salt: Seq<char>) -> bool {
    is_argon2id_text(hash, salt, ARGON2_MEMORY_KIB, ARGON2_PASSES, ARGON2_LANES)
}

/// Hashes `password` with the given salt. The hash names its algorithm,
/// its version, its costs and its salt, so two salts give two hashes.
pub fn hash_with_salt(password: &str, salt: &str) -> (r: Result<String, PasswordHashError>)
    ensures
        match r {
            Ok(hash) => hash_outcome(password@, salt@) == Ok::<Seq<char>, PasswordHashError>(hash@)
                && is_hash_of(hash@, password@) && is_hash_text(hash@, salt@),
            Err(e) => hash_outcome(password@, salt@) == Err::<Seq<char>, PasswordHashError>(e),
        },
{
    match argon2_hash(password, salt, ARGON2_MEMORY_KIB, ARGON2_PASSES, ARGON2_LANES) {
        Ok(hash) => accept_hash(hash, password),
        Err(_) => Err(PasswordHashError::Unexpected),
    }
}

/// Hashes `password` with a fresh random salt. A hash that comes back is
/// the one that `hash_with_salt` gives for some salt: it begins with the
/// algorithm, the version and the costs, it carries the salt, it
/// verifies the password and it differs from it.
pub fn compute_password_hash(password: &str) -> (r: Result<String, PasswordHashError>)
    ensures
        match r {
            Ok(hash) => {
                &&& is_hash_of(hash@, password@)
                &&& begins_with(
                    hash@,
                    argon2id_prefix(ARGON2_MEMORY_KIB, ARGON2_PASSES, ARGON2_LANES),
                )
                &&& exists|salt: Seq<char>| #[trigger]
                    hash_outcome(password@, salt) == Ok::<Seq<char>, PasswordHashError>(hash@)
                        && is_hash_text(hash@, salt)
            },
            Err(e) => e == PasswordHashError::Unexpected && exists|salt: Seq<char>| #[trigger]
                hash_outcome(password@, salt) is Err,
        },
{
    let salt = random_salt();
    let r = hash_with_salt(password, salt.as_str());
    proof {
        if r is Ok {
            assert(hash_outcome(password@, salt@) == Ok::<Seq<char>, PasswordHashError>(
                r->Ok_0@,
            ) && is_hash_text(r->Ok_0@, salt@));
            lemma_hash_begins_with_its_costs(
                r->Ok_0@,
                salt@,
                ARGON2_MEMORY_KIB,
                ARGON2_PASSES,
                ARGON2_LANES,
            );
        } else {
            assert(hash_outcome(password@, salt@) is Err);
        }
    }
    r
}

/// Holds `password_candidate` against `expected_password_hash`: `Ok`
/// where it is the password, `Mismatch` where it is not, `Unexpected`
/// where the hash cannot be read or used, a hash without salt or digest
/// included.
pub fn verify_password_hash(expected_password_hash: &str, password_candidate: &str) -> (r: Result<
    (),
    PasswordHashError,
>)
    ensures
        match r {
            Ok(()) => password_check(expected_password_hash@, password_candidate@) == Some(true),
            Err(PasswordHashError::Mismatch) => password_check(
                expected_password_hash@,
                password_candidate@,
            ) == Some(false),
            Err(PasswordHashError::Unexpected) => password_check(
                expected_password_hash@,
                password_candidate@,
            ) is None,
        },
{
    if !has_lanes_in_bounds(expected_password_hash) || !reads_with_salt_and_digest(
        expected_password_hash,
    ) {
        return Err(PasswordHashError::Unexpected);
    }
    match argon2_verify(expected_password_hash, password_candidate) {
        Ok(true) => Ok(()),
        Ok(false) => Err(PasswordHashError::Mismatch),
        Err(_) => Err(PasswordHashError::Unexpected),
    }
}

} // verus!
