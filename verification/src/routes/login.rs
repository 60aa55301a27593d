use crate::app_state::AppState;
use crate::domain::data_stores::{
    added_user, challenges_after_add, validation, BannedTokenStore, TwoFACodeStore, UserStore,
    UserStoreError,
};
use crate::domain::login_attempt_id::{is_login_attempt_id_text, LoginAttemptId};
use crate::domain::two_fa_code::{is_code_text, TwoFACode};
use crate::domain::email::Email;
use crate::domain::error::AuthAPIError;
use crate::domain::password::Password;
use crate::domain::user::UserView;
use crate::routes::signup::well_formed_credentials;
use crate::services::password_hasher::password_check;
use crate::utils::auth::is_session_token;
use vstd::prelude::*;
use vstd::string::StringExecFns;

verus! {

/// What a login asks for.
pub struct LoginRequest {
    pub email: String,
    pub password: String,
    pub requires_2fa: bool,
}

/// What a login is answered with, in words.
pub struct LoginResponse {
    pub message: String,
}

/// How a login that was not turned away ended.
pub enum LoginOutcome {
    /// The user is in: here is the session token.
    Authenticated { token: String },
    /// The user has to answer a challenge, which goes by this identifier.
    /// The code of the challenge is not here: it is in the challenge
    /// store, to be sent to the user by other means.
    ChallengeIssued { login_attempt_id: LoginAttemptId },
}

impl LoginOutcome {
    /// The outcome in words.
    pub fn response(&self) -> (response: LoginResponse)
        ensures
            response.message@ == match self {
                LoginOutcome::Authenticated { .. } => "Login successful"@,
                LoginOutcome::ChallengeIssued { .. } => "2FA required"@,
            },
    {
        match self {
            LoginOutcome::Authenticated { .. } => LoginResponse {
                message: String::from_str("Login successful"),
            },
            LoginOutcome::ChallengeIssued { .. } => LoginResponse {
                message: String::from_str("2FA required"),
            },
        }
    }
}

/// What a login comes to, as the request and the identities decide it.
pub enum LoginDecision {
    /// The email or the password is malformed.
    Malformed,
    /// There is no such identity, or the password is not its password.
    Incorrect,
    /// The hash kept for the identity cannot be read or used.
    Unusable,
    /// The user is in, and gets a session token.
    Token,
    /// The user has to answer a challenge.
    Challenge,
}

/// What a login with `email` and `password` comes to on these
/// identities. The request is looked at first, then the password is
/// held against the identity, then the identity's flag decides.
pub open spec fn login_decision(
    users: Map<Seq<char>, UserView>,
    email: Seq<char>,
    password: Seq<char>,
) -> LoginDecision {
    if !well_formed_credentials(email, password) {
        LoginDecision::Malformed
    } else if validation(users, email, password) == Err::<(), UserStoreError>(
        UserStoreError::UnexpectedError,
    ) {
        LoginDecision::Unusable
    } else if validation(users, email, password) is Err {
        LoginDecision::Incorrect
    } else if users[email].requires_2fa {
        LoginDecision::Challenge
    } else {
        LoginDecision::Token
    }
}

/// Whether `r` is what a login answers where it comes to `decision`. A
/// challenge that the challenge store fails to take is answered with
/// `UnexpectedError`, which a dependable challenge store never brings
/// about.
pub open spec fn login_follows(
    r: Result<LoginOutcome, AuthAPIError>,
    decision: LoginDecision,
    dependable_challenges: bool,
) -> bool {
    match decision {
        LoginDecision::Malformed => r matches Err(AuthAPIError::InvalidCredentials),
        LoginDecision::Incorrect => r matches Err(AuthAPIError::IncorrectCredentials),
        LoginDecision::Unusable => r matches Err(AuthAPIError::UnexpectedError),
        LoginDecision::Token => r matches Ok(LoginOutcome::Authenticated { .. }),
        LoginDecision::Challenge => r matches Ok(LoginOutcome::ChallengeIssued { .. })
            || (!dependable_challenges && r matches Err(AuthAPIError::UnexpectedError)),
    }
}

/// A login with a wrong password comes to what a login with an unknown
/// email comes to: both are answered with `IncorrectCredentials`, and
/// nothing in the answer tells which of the two it was.
pub proof fn lemma_wrong_password_looks_like_unknown_email(
    users: Map<Seq<char>, UserView>,
    known: Seq<char>,
    wrong_password: Seq<char>,
    unknown: Seq<char>,
    password: Seq<char>,
)
    requires
        well_formed_credentials(known, wrong_password),
        well_formed_credentials(unknown, password),
        users.contains_key(known),
        password_check(users[known].password, wrong_password) == Some(false),
        !users.contains_key(unknown),
    ensures
        login_decision(users, known, wrong_password) == LoginDecision::Incorrect,
        login_decision(users, unknown, password) == LoginDecision::Incorrect,
        forall|r: Result<LoginOutcome, AuthAPIError>|
            login_follows(r, login_decision(users, known, wrong_password), true) <==> login_follows(
                r,
                login_decision(users, unknown, password),
                true,
            ),
{
}

/// A well-formed login with a password that the kept hash does not
/// verify is answered with `IncorrectCredentials`, whatever else the
/// store holds.
pub proof fn lemma_wrong_password_is_incorrect(
    users: Map<Seq<char>, UserView>,
    email: Seq<char>,
    wrong_password: Seq<char>,
    r: Result<LoginOutcome, AuthAPIError>,
    dependable_challenges: bool,
)
    requires
        well_formed_credentials(email, wrong_password),
        users.contains_key(email),
        password_check(users[email].password, wrong_password) == Some(false),
        login_follows(r, login_decision(users, email, wrong_password), dependable_challenges),
    ensures
        r matches Err(AuthAPIError::IncorrectCredentials),
{
}

/// A user that was signed up can log in with the password of the
/// signup: to a session token without second factor, to a challenge
/// with it.
pub proof fn lemma_signed_up_user_can_log_in(
    before: Map<Seq<char>, UserView>,
    after: Map<Seq<char>, UserView>,
    user: UserView,
)
    requires
        well_formed_credentials(user.email, user.password),
        added_user(before, after, user),
    ensures
        login_decision(after, user.email, user.password) == (if user.requires_2fa {
            LoginDecision::Challenge
        } else {
            LoginDecision::Token
        }),
{
}

/// Logs a user in at `now`. The request is looked at before any store
/// is: a malformed one is turned away with `InvalidCredentials`, and
/// nothing else is. An unknown email and a wrong password both give
/// `IncorrectCredentials`, and nothing tells the two apart. A store that
/// fails, or a kept hash that cannot be used, gives `UnexpectedError`. A user
/// without second factor gets a session token. A user with second factor
/// gets a fresh challenge, in place of any earlier one, and the
/// identifier of that challenge. Only the challenge store can change.
/// With dependable stores the answer is decided by the identities, and
/// the challenges change only where one is issued.
pub fn login<U: UserStore, B: BannedTokenStore, T: TwoFACodeStore>(
    state: &mut AppState<U, B, T>,
    request: LoginRequest,
    now: u64,
) -> (r: Result<LoginOutcome, AuthAPIError>)
    ensures
        match r {
            Ok(LoginOutcome::Authenticated { token }) => {
                &&& well_formed_credentials(request.email@, request.password@)
                &&& is_session_token(
                    old(state).token_codec.key(),
                    token@,
                    request.email@,
                    now as nat,
                )
                &&& final(state).two_fa_code_store == old(state).two_fa_code_store
            },
            Ok(LoginOutcome::ChallengeIssued { login_attempt_id }) => {
                &&& well_formed_credentials(request.email@, request.password@)
                &&& is_login_attempt_id_text(login_attempt_id@)
            },
            Err(AuthAPIError::InvalidCredentials) => {
                &&& !well_formed_credentials(request.email@, request.password@)
                &&& final(state).two_fa_code_store == old(state).two_fa_code_store
            },
            Err(AuthAPIError::IncorrectCredentials) => {
                &&& well_formed_credentials(request.email@, request.password@)
                &&& final(state).two_fa_code_store == old(state).two_fa_code_store
            },
            Err(AuthAPIError::UnexpectedError) => well_formed_credentials(
                request.email@,
                request.password@,
            ),
            Err(_) => false,
        },
        old(state).user_store.dependable() ==> login_follows(
            r,
            login_decision(old(state).user_store.users(), request.email@, request.password@),
            old(state).two_fa_code_store.dependable(),
        ),
        old(state).two_fa_code_store.dependable() ==> match r {
            Ok(LoginOutcome::ChallengeIssued { login_attempt_id }) => {
                &&& final(state).two_fa_code_store.challenges().contains_key(request.email@)
                &&& is_code_text(final(state).two_fa_code_store.challenges()[request.email@].code)
                &&& final(state).two_fa_code_store.challenges() == challenges_after_add(
                    old(state).two_fa_code_store.challenges(),
                    request.email@,
                    login_attempt_id@,
                    final(state).two_fa_code_store.challenges()[request.email@].code,
                    now as nat,
                )
            },
            _ => final(state).two_fa_code_store.challenges() == old(
                state,
            ).two_fa_code_store.challenges(),
        },
        final(state).two_fa_code_store.dependable() == old(state).two_fa_code_store.dependable(),
        final(state).user_store == old(state).user_store,
        final(state).banned_token_store == old(state).banned_token_store,
        final(state).token_codec == old(state).token_codec,
{
    let email = match Email::parse(request.email) {
        Ok(email) => email,
        Err(_) => {
            return Err(AuthAPIError::InvalidCredentials);
        },
    };
    let password = match Password::parse(request.password) {
        Ok(password) => password,
        Err(_) => {
            return Err(AuthAPIError::InvalidCredentials);
        },
    };
    match state.user_store.validate_user(&email, &password) {
        Ok(()) => {},
        Err(UserStoreError::UnexpectedError) => {
            return Err(AuthAPIError::UnexpectedError);
        },
        Err(_) => {
            return Err(AuthAPIError::IncorrectCredentials);
        },
    }
    let user = match state.user_store.get_user(&email) {
        Ok(user) => user,
        Err(UserStoreError::UnexpectedError) => {
            return Err(AuthAPIError::UnexpectedError);
        },
        Err(_) => {
            return Err(AuthAPIError::IncorrectCredentials);
        },
    };
    if !user.requires_2fa {
        let token = state.token_codec.issue(&email, now);
        return Ok(LoginOutcome::Authenticated { token });
    }
    let login_attempt_id = LoginAttemptId::default();
    let code = TwoFACode::default();
    match state.two_fa_code_store.add_code(email, login_attempt_id.clone(), code, now) {
        Ok(()) => Ok(LoginOutcome::ChallengeIssued { login_attempt_id }),
        Err(_) => Err(AuthAPIError::UnexpectedError),
    }
}

} // verus!
