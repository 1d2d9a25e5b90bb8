use vstd::prelude::*;

verus! {

/// The error taxonomy of the five operations, as the transport layer
/// reports it: each variant maps to one HTTP status and one stable
/// client-facing message.
#[derive(Clone, Copy, Debug, PartialEq, Eq, Structural)]
pub enum AuthAPIError {
    IncorrectCredentials,
    InvalidCredentials,
    InvalidToken,
    MissingToken,
    UnexpectedError,
    UserAlreadyExists,
}

impl AuthAPIError {
    /// The HTTP status each error maps to.
    pub open spec fn spec_status_code(&self) -> u16 {
        match self {
            AuthAPIError::IncorrectCredentials => 401,
            AuthAPIError::InvalidCredentials => 400,
            AuthAPIError::InvalidToken => 401,
            AuthAPIError::MissingToken => 400,
            AuthAPIError::UnexpectedError => 500,
            AuthAPIError::UserAlreadyExists => 409,
        }
    }

    pub fn status_code(&self) -> (r: u16)
        ensures
            r == self.spec_status_code(),
    {
        match self {
            AuthAPIError::IncorrectCredentials => 401,
            AuthAPIError::InvalidCredentials => 400,
            AuthAPIError::InvalidToken => 401,
            AuthAPIError::MissingToken => 400,
            AuthAPIError::UnexpectedError => 500,
            AuthAPIError::UserAlreadyExists => 409,
        }
    }

    /// The stable message each error maps to; backend detail never
    /// reaches the client.
    pub open spec fn spec_message(&self) -> Seq<char> {
        match self {
            AuthAPIError::IncorrectCredentials => "Authorization failure"@,
            AuthAPIError::InvalidCredentials => "Invalid credentials"@,
            AuthAPIError::InvalidToken => "Invalid token "@,
            AuthAPIError::MissingToken => "Missing token"@,
            AuthAPIError::UnexpectedError => "Unexpected error"@,
            AuthAPIError::UserAlreadyExists => "User already exists"@,
        }
    }

    pub fn message(&self) -> (r: String)
        ensures
            r@ == self.spec_message(),
    {
        match self {
            AuthAPIError::IncorrectCredentials => "Authorization failure".to_owned(),
            AuthAPIError::InvalidCredentials => "Invalid credentials".to_owned(),
            AuthAPIError::InvalidToken => "Invalid token ".to_owned(),
            AuthAPIError::MissingToken => "Missing token".to_owned(),
            AuthAPIError::UnexpectedError => "Unexpected error".to_owned(),
            AuthAPIError::UserAlreadyExists => "User already exists".to_owned(),
        }
    }
}

/// The JSON body sent along with an error status.
#[derive(Debug)]
pub struct ErrorResponse {
    pub error: String,
}

} // verus!
