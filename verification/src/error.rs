//! The failures of the authentication core and how each is shown at the
//! boundary.

use vstd::prelude::*;

verus! {

/// Why an operation of the authentication core failed.
#[derive(Clone, Copy, Debug, PartialEq, Eq, Structural)]
pub enum AuthError {
    /// Unknown username or wrong password; the two are never told apart.
    InvalidCredentials,
    /// The session credential is missing, malformed, forged or expired.
    Unauthenticated,
    /// Bootstrap was attempted although an administrator already exists.
    AlreadyInitialized,
    /// The username to insert is already taken.
    Conflict,
    /// The credential store could not be reached or failed.
    StoreUnavailable,
    /// The password hasher failed.
    HashingFailed,
    /// The session credential could not be signed.
    SigningFailed,
    /// The request body could not be read.
    InvalidBody,
    /// The request body is not the JSON that was announced.
    InvalidJson,
    /// The request body is not the form data that was announced.
    InvalidForm,
    /// The request announces a content type that is not accepted.
    UnsupportedMediaType,
}

impl AuthError {
    /// The HTTP status that stands for this error at the boundary.
    pub open spec fn spec_status(self) -> u16 {
        match self {
            AuthError::InvalidCredentials => 401,
            AuthError::Unauthenticated => 401,
            AuthError::AlreadyInitialized => 403,
            AuthError::Conflict => 409,
            AuthError::StoreUnavailable => 500,
            AuthError::HashingFailed => 500,
            AuthError::SigningFailed => 500,
            AuthError::InvalidBody => 400,
            AuthError::InvalidJson => 400,
            AuthError::InvalidForm => 400,
            AuthError::UnsupportedMediaType => 415,
        }
    }

    /// The text shown to the client for this error. It never carries more
    /// than the kind of failure.
    pub open spec fn spec_message(self) -> Seq<char> {
        match self {
            AuthError::InvalidCredentials => "Invalid credentials"@,
            AuthError::Unauthenticated => "Unauthorized"@,
            AuthError::AlreadyInitialized => "Setup already completed"@,
            AuthError::Conflict => "Username already exists"@,
            AuthError::StoreUnavailable => "Database error"@,
            AuthError::HashingFailed => "Password hashing failed"@,
            AuthError::SigningFailed => "Token generation failed"@,
            AuthError::InvalidBody => "Invalid request body"@,
            AuthError::InvalidJson => "Invalid JSON"@,
            AuthError::InvalidForm => "Invalid form data"@,
            AuthError::UnsupportedMediaType => "Unsupported content type"@,
        }
    }

    /// Whether this error is a fault of the server rather than of the request.
    pub open spec fn spec_is_server_fault(self) -> bool {
        self == AuthError::StoreUnavailable || self == AuthError::HashingFailed || self
            == AuthError::SigningFailed
    }

    /// The HTTP status that stands for this error at the boundary.
    pub fn status_code(&self) -> (status: u16)
        ensures
            status == self.spec_status(),
            self.spec_is_server_fault() <==> status == 500,
    {
        match self {
            AuthError::InvalidCredentials => 401,
            AuthError::Unauthenticated => 401,
            AuthError::AlreadyInitialized => 403,
            AuthError::Conflict => 409,
            AuthError::StoreUnavailable => 500,
            AuthError::HashingFailed => 500,
            AuthError::SigningFailed => 500,
            AuthError::InvalidBody => 400,
            AuthError::InvalidJson => 400,
            AuthError::InvalidForm => 400,
            AuthError::UnsupportedMediaType => 415,
        }
    }

    /// The text shown to the client for this error.
    pub fn message(&self) -> (text: &'static str)
        ensures
            text@ == self.spec_message(),
    {
        match self {
            AuthError::InvalidCredentials => "Invalid credentials",
            AuthError::Unauthenticated => "Unauthorized",
            AuthError::AlreadyInitialized => "Setup already completed",
            AuthError::Conflict => "Username already exists",
            AuthError::StoreUnavailable => "Database error",
            AuthError::HashingFailed => "Password hashing failed",
            AuthError::SigningFailed => "Token generation failed",
            AuthError::InvalidBody => "Invalid request body",
            AuthError::InvalidJson => "Invalid JSON",
            AuthError::InvalidForm => "Invalid form data",
            AuthError::UnsupportedMediaType => "Unsupported content type",
        }
    }

    /// Whether this error is a fault of the server rather than of the request.
    pub fn is_server_fault(&self) -> (fault: bool)
        ensures
            fault == self.spec_is_server_fault(),
    {
        match self {
            AuthError::StoreUnavailable => true,
            AuthError::HashingFailed => true,
            AuthError::SigningFailed => true,
            _ => false,
        }
    }
}

} // verus!
