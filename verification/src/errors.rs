//! The error taxonomy of the service and its mapping to HTTP responses.
//!
//! Every internal failure is mapped to exactly one of these kinds before it
//! reaches the response writer; no raw internal detail crosses that boundary.

use vstd::prelude::*;
use crate::token::TokenError;

verus! {

/// An error as the request handlers report it.
#[derive(Debug, Clone)]
pub enum AppError {
    /// A query or connection failure of the relational store. The payload is
    /// internal detail for the log; the client sees only a generic message.
    Database(String),
    /// Bad credentials. The payload is the user-facing message.
    Authentication(String),
    /// A request that lacks a valid authenticated subject.
    Unauthorized,
    /// A row that is absent, or that does not belong to the caller.
    NotFound(String),
    /// Bad input shape or a business-rule violation.
    Validation(String),
    /// A bearer token that failed to decode.
    Jwt(TokenError),
    /// A catastrophic failure of the credential hasher.
    PasswordHash,
}

impl AppError {
    /// The HTTP status code this error is reported with.
    pub fn status_code(&self) -> (status: u16)
        ensures
            status == self.spec_status_code(),
    {
        match self {
            AppError::Database(_) => 500,
            AppError::Authentication(_) => 401,
            AppError::Unauthorized => 401,
            AppError::NotFound(_) => 404,
            AppError::Validation(_) => 400,
            AppError::Jwt(_) => 401,
            AppError::PasswordHash => 500,
        }
    }

    /// What `status_code` returns.
    pub open spec fn spec_status_code(&self) -> u16 {
        match self {
            AppError::Database(_) => 500,
            AppError::Authentication(_) => 401,
            AppError::Unauthorized => 401,
            AppError::NotFound(_) => 404,
            AppError::Validation(_) => 400,
            AppError::Jwt(_) => 401,
            AppError::PasswordHash => 500,
        }
    }

    /// The message sent to the client. Store and hasher failures and token
    /// failures are collapsed to fixed generic texts; only validation,
    /// not-found and credential messages pass through, since they are written
    /// for the client in the first place.
    pub fn client_message(&self) -> (msg: String)
        ensures
            msg@ == self.spec_client_message(),
    {
        match self {
            AppError::Database(_) => "Database error occurred".to_owned(),
            AppError::Authentication(m) => m.clone(),
            AppError::Unauthorized => "Unauthorized".to_owned(),
            AppError::NotFound(m) => m.clone(),
            AppError::Validation(m) => m.clone(),
            AppError::Jwt(_) => "Invalid token".to_owned(),
            AppError::PasswordHash => "Authentication processing error".to_owned(),
        }
    }

    /// Whether this is a validation error.
    pub open spec fn is_validation(&self) -> bool {
        self matches AppError::Validation(_)
    }

    /// What `client_message` returns.
    pub open spec fn spec_client_message(&self) -> Seq<char> {
        match self {
            AppError::Database(_) => "Database error occurred"@,
            AppError::Authentication(m) => m@,
            AppError::Unauthorized => "Unauthorized"@,
            AppError::NotFound(m) => m@,
            AppError::Validation(m) => m@,
            AppError::Jwt(_) => "Invalid token"@,
            AppError::PasswordHash => "Authentication processing error"@,
        }
    }
}

/// Shape of the JSON error body: `{"error": <message>}`.
#[derive(Debug, Clone)]
pub struct ErrorResponse {
    pub error: String,
}

pub type AppResult<T> = Result<T, AppError>;

} // verus!
