use crate::app_state::AppState;
use crate::domain::data_stores::{
    challenges_after_add, expiry_at, live_challenge, BannedTokenStore, Challenge, TwoFACodeStore,
    TwoFACodeStoreError, UserStore, TWO_FA_CODE_TTL_SECONDS,
};
use crate::domain::login_attempt_id::{
    is_login_attempt_id_text, uuid_text, uuid_value, LoginAttemptId,
};
use crate::domain::two_fa_code::{is_code_text, TwoFACode};
use crate::domain::email::{is_email_text, Email};
use crate::domain::error::AuthAPIError;
use crate::utils::auth::is_session_token;
use vstd::prelude::*;

verus! {

/// The answer to a challenge: whose it is, which login attempt it
/// belongs to, and the code.
pub struct Verify2FARequest {
    pub email: String,
    pub login_attempt_id: String,
    pub two_fa_code: String,
}

/// The identifier and the code that an answer claims, as a store holds
/// them, if the answer is well formed: an email, an identifier, and a
/// code of the accepted range.
pub open spec fn claimed_challenge(request: Verify2FARequest) -> Option<(Seq<char>, Seq<char>)> {
    if is_email_text(request.email@) {
        match uuid_value(request.login_attempt_id@) {
            Some(id) => if is_code_text(request.two_fa_code@) {
                Some((uuid_text(id), request.two_fa_code@))
            } else {
                None
            },
            None => None,
        }
    } else {
        None
    }
}

/// What the answer to a challenge comes to, as the answer and the
/// challenges decide it.
pub enum AnswerDecision {
    /// The answer is malformed.
    Malformed,
    /// The email has no challenge to answer at this time, or not the
    /// claimed one.
    Incorrect,
    /// The answer is right.
    Right,
}

/// What `request` comes to on these challenges at `now`.
pub open spec fn verify_2fa_decision(
    challenges: Map<Seq<char>, Challenge>,
    request: Verify2FARequest,
    now: nat,
) -> AnswerDecision {
    if claimed_challenge(request) is None {
        AnswerDecision::Malformed
    } else if live_challenge(challenges, request.email@, now) == claimed_challenge(request) {
        AnswerDecision::Right
    } else {
        AnswerDecision::Incorrect
    }
}

/// The challenges after `request` was taken at `now`: a right answer
/// uses its challenge up, and no other answer changes anything.
pub open spec fn challenges_after_answer(
    challenges: Map<Seq<char>, Challenge>,
    request: Verify2FARequest,
    now: nat,
) -> Map<Seq<char>, Challenge> {
    if verify_2fa_decision(challenges, request, now) == AnswerDecision::Right {
        challenges.remove(request.email@)
    } else {
        challenges
    }
}

/// Whether `r` is what is answered where an answer comes to `decision`.
pub open spec fn verify_2fa_follows(r: Result<String, AuthAPIError>, decision: AnswerDecision)
    -> bool {
    match decision {
        AnswerDecision::Malformed => r matches Err(AuthAPIError::InvalidCredentials),
        AnswerDecision::Incorrect => r matches Err(AuthAPIError::IncorrectCredentials),
        AnswerDecision::Right => r is Ok,
    }
}

/// A challenge is answered once: after a right answer, the same answer
/// is incorrect, at whatever time it comes again.
pub proof fn lemma_challenge_is_answered_once(
    challenges: Map<Seq<char>, Challenge>,
    request: Verify2FARequest,
    now: nat,
    later: nat,
)
    requires
        verify_2fa_decision(challenges, request, now) == AnswerDecision::Right,
    ensures
        verify_2fa_decision(challenges_after_answer(challenges, request, now), request, later)
            == AnswerDecision::Incorrect,
{
}

/// The challenge that login issued is answered right by its identifier
/// and its code, as long as it has not run out; and then no more.
pub proof fn lemma_issued_challenge_can_be_answered(
    challenges: Map<Seq<char>, Challenge>,
    request: Verify2FARequest,
    issued: nat,
    now: nat,
)
    requires
        is_email_text(request.email@),
        is_login_attempt_id_text(request.login_attempt_id@),
        is_code_text(request.two_fa_code@),
    ensures
        verify_2fa_decision(
            challenges_after_add(
                challenges,
                request.email@,
                request.login_attempt_id@,
                request.two_fa_code@,
                issued,
            ),
            request,
            now,
        ) == (if now < expiry_at(issued, TWO_FA_CODE_TTL_SECONDS as nat) {
            AnswerDecision::Right
        } else {
            AnswerDecision::Incorrect
        }),
{
}

/// Takes the answer to a challenge at `now`. The answer is looked at
/// before the store is: a malformed one is turned away with
/// `InvalidCredentials`, and nothing else is. A challenge that is
/// missing, ran out, was used or is not the claimed one gives
/// `IncorrectCredentials`, and nothing tells these apart. A store that
/// fails gives `UnexpectedError`. A right answer
/// uses the challenge up and gets a session token. Only the challenge
/// store can change. With a dependable store the answer is decided by
/// the challenges, which change only where the answer is right.
pub fn verify_2fa<U: UserStore, B: BannedTokenStore, T: TwoFACodeStore>(
    state: &mut AppState<U, B, T>,
    request: Verify2FARequest,
    now: u64,
) -> (r: Result<String, AuthAPIError>)
    ensures
        match r {
            Ok(token) => {
                &&& claimed_challenge(request) is Some
                &&& is_session_token(
                    old(state).token_codec.key(),
                    token@,
                    request.email@,
                    now as nat,
                )
            },
            Err(AuthAPIError::InvalidCredentials) => {
                &&& claimed_challenge(request) is None
                &&& final(state).two_fa_code_store == old(state).two_fa_code_store
            },
            Err(AuthAPIError::IncorrectCredentials) => {
                &&& claimed_challenge(request) is Some
                &&& final(state).two_fa_code_store == old(state).two_fa_code_store
            },
            Err(AuthAPIError::UnexpectedError) => claimed_challenge(request) is Some,
            Err(_) => false,
        },
        old(state).two_fa_code_store.dependable() ==> {
            &&& verify_2fa_follows(
                r,
                verify_2fa_decision(
                    old(state).two_fa_code_store.challenges(),
                    request,
                    now as nat,
                ),
            )
            &&& final(state).two_fa_code_store.challenges() == challenges_after_answer(
                old(state).two_fa_code_store.challenges(),
                request,
                now as nat,
            )
        },
        final(state).two_fa_code_store.dependable() == old(state).two_fa_code_store.dependable(),
        final(state).user_store == old(state).user_store,
        final(state).banned_token_store == old(state).banned_token_store,
        final(state).token_codec == old(state).token_codec,
{
    let email = match Email::parse(request.email) {
        Ok(email) => email,
        Err(_) => {
            return Err(AuthAPIError::InvalidCredentials);
        },
    };
    let login_attempt_id = match LoginAttemptId::parse(request.login_attempt_id) {
        Ok(login_attempt_id) => login_attempt_id,
        Err(_) => {
            return Err(AuthAPIError::InvalidCredentials);
        },
    };
    let two_fa_code = match TwoFACode::parse(request.two_fa_code) {
        Ok(two_fa_code) => two_fa_code,
        Err(_) => {
            return Err(AuthAPIError::InvalidCredentials);
        },
    };
    let (held_id, held_code) = match state.two_fa_code_store.get_code(&email, now) {
        Ok(held) => held,
        Err(TwoFACodeStoreError::UnexpectedError) => {
            return Err(AuthAPIError::UnexpectedError);
        },
        Err(TwoFACodeStoreError::LoginAttemptIdNotFound) => {
            return Err(AuthAPIError::IncorrectCredentials);
        },
    };
    if !(held_id == login_attempt_id && held_code == two_fa_code) {
        return Err(AuthAPIError::IncorrectCredentials);
    }
    if state.two_fa_code_store.remove_code(&email).is_err() {
        return Err(AuthAPIError::UnexpectedError);
    }
    Ok(state.token_codec.issue(&email, now))
}

} // verus!
