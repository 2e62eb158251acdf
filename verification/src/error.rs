//! The application's error taxonomy and its mapping onto HTTP status codes
//! and client-facing messages.

use vstd::prelude::*;
use vstd::string::*;

verus! {

/// Every failure the backend can report. Variants carrying a `String` hold
/// detail that is either shown to the caller (`Auth`, `Validation`,
/// `NotFound`) or logged and replaced by a generic message (`Database`,
/// `Redis`, `ExternalApi`, `Internal`).
#[derive(Debug, Clone, PartialEq, Eq)]
pub enum AppError {
    Database(String),
    Redis(String),
    Auth(String),
    Validation(String),
    NotFound(String),
    Unauthorized,
    Forbidden,
    ExternalApi(String),
    Internal(String),
}

impl AppError {
    /// The HTTP status code each variant is rendered with.
    pub open spec fn spec_status_code(&self) -> u16 {
        match self {
            AppError::Database(_) => 500,
            AppError::Redis(_) => 500,
            AppError::Auth(_) => 401,
            AppError::Validation(_) => 400,
            AppError::NotFound(_) => 404,
            AppError::Unauthorized => 401,
            AppError::Forbidden => 403,
            AppError::ExternalApi(_) => 502,
            AppError::Internal(_) => 500,
        }
    }

    /// The message placed in the uniform `{"error": ...}` body. Infrastructure
    /// failures are replaced by generic text so no internal detail leaks.
    pub open spec fn spec_client_message(&self) -> Seq<char> {
        match self {
            AppError::Database(_) => "Database error occurred"@,
            AppError::Redis(_) => "Cache error occurred"@,
            AppError::Auth(m) => m@,
            AppError::Validation(m) => m@,
            AppError::NotFound(m) => m@,
            AppError::Unauthorized => "Unauthorized"@,
            AppError::Forbidden => "Forbidden"@,
            AppError::ExternalApi(_) => "External service error"@,
            AppError::Internal(_) => "Internal server error"@,
        }
    }

    pub fn status_code(&self) -> (code: u16)
        ensures
            code == self.spec_status_code(),
    {
        match self {
            AppError::Database(_) => 500,
            AppError::Redis(_) => 500,
            AppError::Auth(_) => 401,
            AppError::Validation(_) => 400,
            AppError::NotFound(_) => 404,
            AppError::Unauthorized => 401,
            AppError::Forbidden => 403,
            AppError::ExternalApi(_) => 502,
            AppError::Internal(_) => 500,
        }
    }

    pub fn client_message(&self) -> (m: String)
        ensures
            m@ == self.spec_client_message(),
    {
        match self {
            AppError::Database(_) => String::from_str("Database error occurred"),
            AppError::Redis(_) => String::from_str("Cache error occurred"),
            AppError::Auth(msg) => msg.clone(),
            AppError::Validation(msg) => msg.clone(),
            AppError::NotFound(msg) => msg.clone(),
            AppError::Unauthorized => String::from_str("Unauthorized"),
            AppError::Forbidden => String::from_str("Forbidden"),
            AppError::ExternalApi(_) => String::from_str("External service error"),
            AppError::Internal(_) => String::from_str("Internal server error"),
        }
    }
}

} // verus!
