use vstd::prelude::*;

verus! {

/// How a request to the authentication service can fail, as its caller
/// sees it.
#[derive(Debug, Clone, Copy, PartialEq, Eq, Structural)]
pub enum AuthAPIError {
    /// The email is already taken.
    UserAlreadyExists,
    /// The email or the password is malformed.
    InvalidCredentials,
    /// No such identity, a wrong password, or a wrong, missing or used
    /// challenge.
    IncorrectCredentials,
    /// No token was handed in.
    MissingToken,
    /// The token is forged, expired or banned.
    InvalidToken,
    /// A store failed.
    UnexpectedError,
}

impl AuthAPIError {
    /// The error in words, with nothing of what caused it.
    pub fn message(&self) -> (s: &'static str)
        ensures
            s@ == match self {
                AuthAPIError::UserAlreadyExists => "User already exists"@,
                AuthAPIError::InvalidCredentials => "Invalid credentials"@,
                AuthAPIError::IncorrectCredentials => "Incorrect credentials"@,
                AuthAPIError::MissingToken => "Missing auth token"@,
                AuthAPIError::InvalidToken => "Invalid auth token"@,
                AuthAPIError::UnexpectedError => "Unexpected error"@,
            },
    {
        match self {
            AuthAPIError::UserAlreadyExists => "User already exists",
            AuthAPIError::InvalidCredentials => "Invalid credentials",
            AuthAPIError::IncorrectCredentials => "Incorrect credentials",
            AuthAPIError::MissingToken => "Missing auth token",
            AuthAPIError::InvalidToken => "Invalid auth token",
            AuthAPIError::UnexpectedError => "Unexpected error",
        }
    }

    /// The class of HTTP status that the error is answered with.
    pub fn status_code(&self) -> (code: u16)
        ensures
            code == match self {
                AuthAPIError::UserAlreadyExists => 409u16,
                AuthAPIError::InvalidCredentials => 400u16,
                AuthAPIError::IncorrectCredentials => 401u16,
                AuthAPIError::MissingToken => 400u16,
                AuthAPIError::InvalidToken => 401u16,
                AuthAPIError::UnexpectedError => 500u16,
            },
    {
        match self {
            AuthAPIError::UserAlreadyExists => 409,
            AuthAPIError::InvalidCredentials => 400,
            AuthAPIError::IncorrectCredentials => 401,
            AuthAPIError::MissingToken => 400,
            AuthAPIError::InvalidToken => 401,
            AuthAPIError::UnexpectedError => 500,
        }
    }
}

} // verus!
