use crate::app_state::AppState;
use crate::domain::data_stores::{
    banned_after, expiry_at, is_banned_at, BannedTokenStore, TwoFACodeStore, UserStore,
    TOKEN_TTL_SECONDS,
};
use crate::domain::email::is_email_text;
use crate::domain::error::AuthAPIError;
use crate::utils::auth::{
    lemma_token_round_trip, token_claims, token_expiry, token_owner, token_text, validate_token,
};
use vstd::prelude::*;

verus! {

/// What a check of a token asks for.
pub struct VerifyTokenRequest {
    pub token: String,
}

/// Whether a token can be used at `now`: the key signed it, it has not
/// run out, and it is not banned.
pub open spec fn is_usable_token(
    key: Seq<u8>,
    banned: Map<Seq<char>, nat>,
    token: Seq<char>,
    now: nat,
) -> bool {
    token_owner(key, token, now) is Some && !is_banned_at(banned, token, now)
}

/// A token that was issued by login can be used from its issue until it
/// runs out, as long as it is not banned.
pub proof fn lemma_issued_token_is_usable(
    key: Seq<u8>,
    banned: Map<Seq<char>, nat>,
    email: Seq<char>,
    issued: nat,
    now: nat,
)
    requires
        is_email_text(email),
        now < token_expiry(issued),
        !is_banned_at(banned, token_text(key, email, token_expiry(issued)), now),
    ensures
        is_usable_token(key, banned, token_text(key, email, token_expiry(issued)), now),
{
    lemma_token_round_trip(key, email, token_expiry(issued));
}

/// A token that was logged out cannot be used from then on: it is banned
/// until its ban runs out, and by then it has run out itself. This holds
/// of every token that runs out no later than a token issued at the
/// logout would.
pub proof fn lemma_logged_out_token_is_unusable(
    key: Seq<u8>,
    banned: Map<Seq<char>, nat>,
    token: Seq<char>,
    logged_out: nat,
    now: nat,
)
    requires
        logged_out <= now,
        token_claims(key, token) matches Some((_, expires_at)) ==> expires_at <= expiry_at(
            logged_out,
            TOKEN_TTL_SECONDS as nat,
        ),
    ensures
        !is_usable_token(key, banned_after(banned, token, logged_out), token, now),
{
}

/// So it is with every token that login issued before the logout.
pub proof fn lemma_logged_out_session_is_over(
    key: Seq<u8>,
    banned: Map<Seq<char>, nat>,
    email: Seq<char>,
    issued: nat,
    logged_out: nat,
    now: nat,
)
    requires
        is_email_text(email),
        issued <= logged_out <= now,
    ensures
        !is_usable_token(
            key,
            banned_after(banned, token_text(key, email, token_expiry(issued)), logged_out),
            token_text(key, email, token_expiry(issued)),
            now,
        ),
{
    lemma_token_round_trip(key, email, token_expiry(issued));
    lemma_logged_out_token_is_unusable(
        key,
        banned,
        token_text(key, email, token_expiry(issued)),
        logged_out,
        now,
    );
}

/// Checks at `now` whether a token can be used, and gives `InvalidToken`
/// where it cannot. Nothing changes. A token that the codec does not
/// find good is never passed; with a dependable store, a token is passed
/// exactly when it can be used.
pub fn verify_token<U: UserStore, B: BannedTokenStore, T: TwoFACodeStore>(
    state: &AppState<U, B, T>,
    request: VerifyTokenRequest,
    now: u64,
) -> (r: Result<(), AuthAPIError>)
    ensures
        r matches Err(e) ==> e == AuthAPIError::InvalidToken,
        r is Ok ==> token_owner(state.token_codec.key(), request.token@, now as nat) is Some,
        state.banned_token_store.dependable() ==> (r is Ok <==> is_usable_token(
            state.token_codec.key(),
            state.banned_token_store.banned(),
            request.token@,
            now as nat,
        )),
{
    match validate_token(
        request.token.as_str(),
        &state.token_codec,
        &state.banned_token_store,
        now,
    ) {
        Ok(_) => Ok(()),
        Err(_) => Err(AuthAPIError::InvalidToken),
    }
}

} // verus!
