use crate::app_state::AppState;
use crate::domain::data_stores::{
    added_user, BannedTokenStore, TwoFACodeStore, UserStore, UserStoreError,
};
use crate::domain::email::{is_email_text, Email};
use crate::domain::error::AuthAPIError;
use crate::domain::password::{utf8_len, Password, MIN_PASSWORD_BYTES};
use crate::domain::user::{User, UserView};
use vstd::prelude::*;
use vstd::string::StringExecFns;

verus! {

/// What a signup asks for.
pub struct SignupRequest {
    pub email: String,
    pub password: String,
    pub requires_2fa: bool,
}

/// What a signup is answered with.
pub struct SignupResponse {
    pub message: String,
}

/// Whether an email and a password are well formed: the email holds an
/// `@`, and the password at least eight bytes.
pub open spec fn well_formed_credentials(email: Seq<char>, password: Seq<char>) -> bool {
    is_email_text(email) && utf8_len(password) >= MIN_PASSWORD_BYTES
}

/// What a signup request asks to add.
pub open spec fn requested_user(request: SignupRequest) -> UserView {
    UserView {
        email: request.email@,
        password: request.password@,
        requires_2fa: request.requires_2fa,
    }
}

/// Whether `found` tells what `store` answered when it was asked for the
/// user of `email`: a user, or none.
pub open spec fn store_found<U: UserStore>(store: &U, email: Seq<char>, found: bool) -> bool {
    exists|address: &Email, answer: Result<User, UserStoreError>|
        address@ == email && found == (answer is Ok) && call_ensures(
            U::get_user,
            (store, address),
            answer,
        )
}

/// Whether `added` is what the store answered when it was asked, as it
/// stood in `before`, to add `user`.
pub open spec fn store_added<U: UserStore>(
    before: U,
    user: UserView,
    added: Result<(), UserStoreError>,
) -> bool {
    exists|store: &mut U, asked: User|
        *store == before && asked@ == user && call_ensures(U::add_user, (store, asked), added)
}

/// What a signup is answered with once the store has answered the
/// attempt to add the user: success for success, `UserAlreadyExists` for
/// an email that was taken in the meantime, and `UnexpectedError` for
/// every other failure.
pub open spec fn signup_answer(added: Result<(), UserStoreError>) -> Result<(), AuthAPIError> {
    match added {
        Ok(()) => Ok(()),
        Err(UserStoreError::UserAlreadyExists) => Err(AuthAPIError::UserAlreadyExists),
        Err(_) => Err(AuthAPIError::UnexpectedError),
    }
}

/// What a result of `signup` says, without the words of the response.
pub open spec fn signup_view(r: Result<SignupResponse, AuthAPIError>) -> Result<(), AuthAPIError> {
    match r {
        Ok(_) => Ok(()),
        Err(e) => Err(e),
    }
}

/// Computes `signup_answer`, with the words of the response.
pub fn answer_signup(added: Result<(), UserStoreError>) -> (r: Result<SignupResponse, AuthAPIError>)
    ensures
        signup_view(r) == signup_answer(added),
        r matches Ok(response) ==> response.message@ == "User created successfully!"@,
{
    match added {
        Ok(()) => Ok(SignupResponse { message: String::from_str("User created successfully!") }),
        Err(UserStoreError::UserAlreadyExists) => Err(AuthAPIError::UserAlreadyExists),
        Err(_) => Err(AuthAPIError::UnexpectedError),
    }
}

/// Whether `r` is what a well-formed signup is answered with on a store
/// that stood in `before`: `UserAlreadyExists` where the store found a
/// user for the email, and else what `signup_answer` makes of the
/// store's answer to the attempt to add the requested user.
pub open spec fn signup_follows<U: UserStore>(
    before: U,
    request: SignupRequest,
    r: Result<SignupResponse, AuthAPIError>,
) -> bool {
    exists|found: bool| #[trigger]
        store_found(&before, request.email@, found) && if found {
            r matches Err(AuthAPIError::UserAlreadyExists)
        } else {
            exists|added: Result<(), UserStoreError>| #[trigger]
                store_added(before, requested_user(request), added) && signup_view(r)
                    == signup_answer(added)
        }
}

/// Signs a user up. The request is looked at before any store is: a
/// malformed one is turned away with `InvalidCredentials`, and nothing
/// else is. An email for which the store finds a user gives
/// `UserAlreadyExists`. Else the store is asked to add the user, which
/// it keeps with a hash in place of the password, and the signup is
/// answered as the store answers. Only the user store can change. With
/// a dependable store it does so only where the signup succeeds, and
/// `UnexpectedError` comes only where hashing failed.
pub fn signup<U: UserStore, B: BannedTokenStore, T: TwoFACodeStore>(
    state: &mut AppState<U, B, T>,
    request: SignupRequest,
) -> (r: Result<SignupResponse, AuthAPIError>)
    ensures
        match r {
            Ok(response) => well_formed_credentials(request.email@, request.password@)
                && response.message@ == "User created successfully!"@,
            Err(AuthAPIError::InvalidCredentials) => !well_formed_credentials(
                request.email@,
                request.password@,
            ) && final(state).user_store == old(state).user_store,
            Err(AuthAPIError::UserAlreadyExists) => well_formed_credentials(
                request.email@,
                request.password@,
            ),
            Err(AuthAPIError::UnexpectedError) => well_formed_credentials(
                request.email@,
                request.password@,
            ),
            Err(_) => false,
        },
        well_formed_credentials(request.email@, request.password@) ==> signup_follows(
            old(state).user_store,
            request,
            r,
        ),
        old(state).user_store.dependable() ==> match r {
            Ok(_) => added_user(
                old(state).user_store.users(),
                final(state).user_store.users(),
                requested_user(request),
            ),
            Err(AuthAPIError::UserAlreadyExists) => old(state).user_store.users().contains_key(
                request.email@,
            ) && final(state).user_store.users() == old(state).user_store.users(),
            Err(AuthAPIError::UnexpectedError) => !old(state).user_store.users().contains_key(
                request.email@,
            ) && final(state).user_store.users() == old(state).user_store.users(),
            Err(_) => final(state).user_store.users() == old(state).user_store.users(),
        },
        final(state).user_store.dependable() == old(state).user_store.dependable(),
        final(state).banned_token_store == old(state).banned_token_store,
        final(state).two_fa_code_store == old(state).two_fa_code_store,
        final(state).token_codec == old(state).token_codec,
{
    let email = match Email::parse(request.email) {
        Ok(email) => email,
        Err(_) => {
            return Err(AuthAPIError::InvalidCredentials);
        },
    };
    let password = match Password::parse(request.password) {
        Ok(password) => password,
        Err(_) => {
            return Err(AuthAPIError::InvalidCredentials);
        },
    };
    let user = User::new(email, password, request.requires_2fa);
    let found = state.user_store.get_user(&user.email);
    proof {
        assert(call_ensures(U::get_user, (&state.user_store, &user.email), found));
        assert(store_found(&old(state).user_store, request.email@, found is Ok));
    }
    if found.is_ok() {
        let r = Err(AuthAPIError::UserAlreadyExists);
        assert(signup_follows(old(state).user_store, request, r));
        return r;
    }
    let added = state.user_store.add_user(user);
    assert(store_added(old(state).user_store, requested_user(request), added));
    let r = answer_signup(added);
    assert(signup_follows(old(state).user_store, request, r));
    r
}

} // verus!
