//! The errors that the node reports to its callers.

use vstd::prelude::*;

verus! {

/// An error inside the node.
#[derive(Debug)]
pub enum AppError {
    /// The durable store failed.
    Database(String),
    /// Something else failed.
    Generic(String),
    /// The request cannot be served as it stands.
    InvalidRequest(String),
    /// A state that should not occur.
    Unexpected(String),
}

/// What an error inside the node says.
pub enum AppFailure {
    Database(Seq<char>),
    Generic(Seq<char>),
    InvalidRequest(Seq<char>),
    Unexpected(Seq<char>),
}

impl View for AppError {
    type V = AppFailure;

    open spec fn view(&self) -> AppFailure {
        match self {
            AppError::Database(detail) => AppFailure::Database(detail@),
            AppError::Generic(detail) => AppFailure::Generic(detail@),
            AppError::InvalidRequest(detail) => AppFailure::InvalidRequest(detail@),
            AppError::Unexpected(detail) => AppFailure::Unexpected(detail@),
        }
    }
}

impl AppError {
    /// The error in words.
    pub fn message(&self) -> (res: String)
        ensures
            res@ == match self@ {
                AppFailure::Database(detail) => "Database error: "@ + detail,
                AppFailure::Generic(detail) => detail,
                AppFailure::InvalidRequest(detail) => "Invalid request: "@ + detail,
                AppFailure::Unexpected(detail) => "Unexpected error: "@ + detail,
            },
    {
        match self {
            AppError::Database(detail) => String::from_str("Database error: ").concat(
                detail.as_str(),
            ),
            AppError::Generic(detail) => detail.clone(),
            AppError::InvalidRequest(detail) => String::from_str("Invalid request: ").concat(
                detail.as_str(),
            ),
            AppError::Unexpected(detail) => String::from_str("Unexpected error: ").concat(
                detail.as_str(),
            ),
        }
    }
}

/// An error that a caller of the API gets.
#[derive(Debug)]
pub enum APIError {
    /// A state that should not occur.
    Unexpected(String),
    /// The caller did not show who it is.
    Unauthorized(String),
    /// The caller may not do this.
    Forbidden(String),
    /// The request cannot be served as it stands.
    InvalidRequest(String),
    /// The payment failed.
    FailedPayment(String),
    /// The node is locked.
    LockedNode,
}

/// What an API error says.
pub enum ApiFailure {
    Unexpected(Seq<char>),
    Unauthorized(Seq<char>),
    Forbidden(Seq<char>),
    InvalidRequest(Seq<char>),
    FailedPayment(Seq<char>),
    LockedNode,
}

impl View for APIError {
    type V = ApiFailure;

    open spec fn view(&self) -> ApiFailure {
        match self {
            APIError::Unexpected(detail) => ApiFailure::Unexpected(detail@),
            APIError::Unauthorized(detail) => ApiFailure::Unauthorized(detail@),
            APIError::Forbidden(detail) => ApiFailure::Forbidden(detail@),
            APIError::InvalidRequest(detail) => ApiFailure::InvalidRequest(detail@),
            APIError::FailedPayment(detail) => ApiFailure::FailedPayment(detail@),
            APIError::LockedNode => ApiFailure::LockedNode,
        }
    }
}

impl APIError {
    /// The error in words.
    pub fn message(&self) -> (res: String)
        ensures
            res@ == match self@ {
                ApiFailure::Unexpected(detail) => "Unexpected error: "@ + detail,
                ApiFailure::Unauthorized(detail) => "Unauthorized: "@ + detail,
                ApiFailure::Forbidden(detail) => "Forbidden: "@ + detail,
                ApiFailure::InvalidRequest(detail) => "Invalid request: "@ + detail,
                ApiFailure::FailedPayment(detail) => "Failed payment: "@ + detail,
                ApiFailure::LockedNode => "Node is locked"@,
            },
    {
        match self {
            APIError::Unexpected(detail) => String::from_str("Unexpected error: ").concat(
                detail.as_str(),
            ),
            APIError::Unauthorized(detail) => String::from_str("Unauthorized: ").concat(
                detail.as_str(),
            ),
            APIError::Forbidden(detail) => String::from_str("Forbidden: ").concat(detail.as_str()),
            APIError::InvalidRequest(detail) => String::from_str("Invalid request: ").concat(
                detail.as_str(),
            ),
            APIError::FailedPayment(detail) => String::from_str("Failed payment: ").concat(
                detail.as_str(),
            ),
            APIError::LockedNode => String::from_str("Node is locked"),
        }
    }
}

} // verus!
