use crate::domain::data_stores::{BannedTokenStore, TwoFACodeStore, UserStore};
use crate::utils::auth::TokenCodec;
use vstd::prelude::*;

verus! {

/// All that the service holds: the three stores and the codec that signs
/// its session tokens.
pub struct AppState<U: UserStore, B: BannedTokenStore, T: TwoFACodeStore> {
    pub user_store: U,
    pub banned_token_store: B,
    pub two_fa_code_store: T,
    pub token_codec: TokenCodec,
}

impl<U: UserStore, B: BannedTokenStore, T: TwoFACodeStore> AppState<U, B, T> {
    /// The service that holds these four.
    pub fn new(user_store: U, banned_token_store: B, two_fa_code_store: T, token_codec: TokenCodec)
        -> (state: Self)
        ensures
            state.user_store == user_store,
            state.banned_token_store == banned_token_store,
            state.two_fa_code_store == two_fa_code_store,
            state.token_codec == token_codec,
    {
        AppState { user_store, banned_token_store, two_fa_code_store, token_codec }
    }
}

} // verus!
