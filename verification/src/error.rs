//! The error taxonomy: what a repository can signal, and the
//! application-level errors the services and the auth component raise,
//! each with the HTTP status it maps to.

use vstd::prelude::*;

verus! {

/// Faults a repository can signal. "Not found" is not a fault: lookups
/// return `Option` / `bool` for it.
#[derive(Debug, Clone, Copy, PartialEq, Eq, Structural)]
pub enum RepoError {
    /// A unique field (the email) is already taken by another row.
    Conflict,
    /// A store-level fault: the identifier space is exhausted.
    Store,
}

/// Application-level errors, each carrying a human-readable message.
#[derive(Debug, Clone, PartialEq)]
pub enum AppError {
    DatabaseError(String),
    ValidationError(String),
    NotFound(String),
    Conflict(String),
    Unauthorized(String),
    InternalServerError(String),
}

impl AppError {
    /// The HTTP status code each error maps to.
    pub fn status_code(&self) -> (r: u16)
        ensures
            r == match self {
                AppError::DatabaseError(_) => 500u16,
                AppError::ValidationError(_) => 400u16,
                AppError::NotFound(_) => 404u16,
                AppError::Conflict(_) => 409u16,
                AppError::Unauthorized(_) => 401u16,
                AppError::InternalServerError(_) => 500u16,
            },
    {
        match self {
            AppError::DatabaseError(_) => 500,
            AppError::ValidationError(_) => 400,
            AppError::NotFound(_) => 404,
            AppError::Conflict(_) => 409,
            AppError::Unauthorized(_) => 401,
            AppError::InternalServerError(_) => 500,
        }
    }

    /// The message carried by the error.
    pub fn message(&self) -> (r: &String)
        ensures
            r == match self {
                AppError::DatabaseError(m) => m,
                AppError::ValidationError(m) => m,
                AppError::NotFound(m) => m,
                AppError::Conflict(m) => m,
                AppError::Unauthorized(m) => m,
                AppError::InternalServerError(m) => m,
            },
    {
        match self {
            AppError::DatabaseError(m) => m,
            AppError::ValidationError(m) => m,
            AppError::NotFound(m) => m,
            AppError::Conflict(m) => m,
            AppError::Unauthorized(m) => m,
            AppError::InternalServerError(m) => m,
        }
    }
}

} // verus!
