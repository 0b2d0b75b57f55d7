//! The errors a request can end in, and how each is shown to a client.

use vstd::prelude::*;

verus! {

/// Why a request was rejected.
#[derive(Clone, Copy, Debug, PartialEq, Eq, Structural)]
pub enum AuthApiError {
    /// Signup for an email that is already registered.
    UserAlreadyExists,
    /// The input is malformed: not an email, not a password, not a login id.
    InvalidCredentials,
    /// A store or the mail dispatch failed.
    UnexpectedError,
    /// The request carried no session token.
    MissingToken,
    /// The token is malformed, expired or revoked.
    InvalidToken,
    /// Wrong password, or wrong two-factor pair.
    IncorrectCredentials,
}

/// The body sent to a client with a rejected request.
#[derive(Debug)]
pub struct ErrorResponse {
    pub error: String,
}

impl AuthApiError {
    /// The HTTP status that goes with the error.
    pub open spec fn status(self) -> u16 {
        match self {
            AuthApiError::UserAlreadyExists => 409,
            AuthApiError::InvalidCredentials => 400,
            AuthApiError::MissingToken => 400,
            AuthApiError::InvalidToken => 401,
            AuthApiError::IncorrectCredentials => 401,
            AuthApiError::UnexpectedError => 500,
        }
    }

    /// The text shown to the client. It names the category only, never a
    /// detail of the stores.
    pub open spec fn message(self) -> Seq<char> {
        match self {
            AuthApiError::UserAlreadyExists => "User already exists"@,
            AuthApiError::InvalidCredentials => "Invalid credentials"@,
            AuthApiError::MissingToken => "Missing auth token"@,
            AuthApiError::InvalidToken => "Invalid auth token"@,
            AuthApiError::IncorrectCredentials => "Incorrect credentials"@,
            AuthApiError::UnexpectedError => "Unexpected error"@,
        }
    }

    pub fn status_code(&self) -> (code: u16)
        ensures
            code == self.status(),
    {
        match self {
            AuthApiError::UserAlreadyExists => 409,
            AuthApiError::InvalidCredentials => 400,
            AuthApiError::MissingToken => 400,
            AuthApiError::InvalidToken => 401,
            AuthApiError::IncorrectCredentials => 401,
            AuthApiError::UnexpectedError => 500,
        }
    }

    pub fn error_message(&self) -> (text: &'static str)
        ensures
            text@ == self.message(),
    {
        match self {
            AuthApiError::UserAlreadyExists => "User already exists",
            AuthApiError::InvalidCredentials => "Invalid credentials",
            AuthApiError::MissingToken => "Missing auth token",
            AuthApiError::InvalidToken => "Invalid auth token",
            AuthApiError::IncorrectCredentials => "Incorrect credentials",
            AuthApiError::UnexpectedError => "Unexpected error",
        }
    }

    /// Status and body of the response that reports the error.
    pub fn into_response(self) -> (response: (u16, ErrorResponse))
        ensures
            response.0 == self.status(),
            response.1.error@ == self.message(),
    {
        let status = self.status_code();
        let body = ErrorResponse { error: self.error_message().to_owned() };
        (status, body)
    }
}

} // verus!
