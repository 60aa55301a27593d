use crate::app_state::AppState;
use crate::domain::data_stores::{banned_after, BannedTokenStore, TwoFACodeStore, UserStore};
use crate::domain::error::AuthAPIError;
use crate::utils::auth::token_owner;
use vstd::prelude::*;

verus! {

/// What a logout answers, as far as the token and the codec decide it:
/// no token gives `MissingToken`, one that the codec does not find good
/// gives `InvalidToken`, and a good one is banned, unless the store
/// fails.
pub open spec fn logout_answer(
    key: Seq<u8>,
    token: Option<String>,
    now: nat,
    r: Result<(), AuthAPIError>,
) -> bool {
    match token {
        None => r == Err::<(), AuthAPIError>(AuthAPIError::MissingToken),
        Some(token) => if token_owner(key, token@, now) is None {
            r == Err::<(), AuthAPIError>(AuthAPIError::InvalidToken)
        } else {
            r is Ok || r == Err::<(), AuthAPIError>(AuthAPIError::UnexpectedError)
        },
    }
}

/// Logs out at `now` whoever holds `token`: the token is banned. A
/// token that is banned already can be banned again. Only the revocation
/// store can change. With a dependable store, a good token is always
/// banned, and the bans stay as they were where the logout fails.
pub fn logout<U: UserStore, B: BannedTokenStore, T: TwoFACodeStore>(
    state: &mut AppState<U, B, T>,
    token: Option<String>,
    now: u64,
) -> (r: Result<(), AuthAPIError>)
    ensures
        logout_answer(old(state).token_codec.key(), token, now as nat, r),
        r is Err && r != Err::<(), AuthAPIError>(AuthAPIError::UnexpectedError)
            ==> final(state).banned_token_store == old(state).banned_token_store,
        old(state).banned_token_store.dependable() ==> match r {
            Ok(()) => token matches Some(token) && final(state).banned_token_store.banned()
                == banned_after(old(state).banned_token_store.banned(), token@, now as nat),
            Err(e) => e != AuthAPIError::UnexpectedError,
        },
        final(state).banned_token_store.dependable() == old(state).banned_token_store.dependable(),
        final(state).user_store == old(state).user_store,
        final(state).two_fa_code_store == old(state).two_fa_code_store,
        final(state).token_codec == old(state).token_codec,
{
    let token = match token {
        Some(token) => token,
        None => {
            return Err(AuthAPIError::MissingToken);
        },
    };
    if state.token_codec.verify(token.as_str(), now).is_err() {
        return Err(AuthAPIError::InvalidToken);
    }
    match state.banned_token_store.ban_token(token, now) {
        Ok(()) => Ok(()),
        Err(_) => Err(AuthAPIError::UnexpectedError),
    }
}

} // verus!
