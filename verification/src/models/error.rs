//! The closed error taxonomy the core returns to its callers.
//!
//! Every guard and constructor fails with one of these kinds instead of
//! performing a partial mutation; the service layer maps kinds to transport
//! status codes.

use vstd::prelude::*;
use vstd::string::StringExecFns;

verus! {

/// Error kinds, all synchronous and locally recoverable by the caller.
#[derive(Debug)]
pub enum AppError {
    /// A referenced entity does not exist in its collection.
    NotFound(String),
    /// Malformed input, independent of entity state.
    BadRequest(String),
    /// The caller's identity does not match the required actor.
    Forbidden(String),
    /// The entity exists but its state does not permit the operation.
    Conflict(String),
    /// A field constraint on a request was violated.
    Validation(String),
}

/// The wire shape of an error: a stable kind tag plus a human message.
#[derive(Debug)]
pub struct ApiError {
    pub error: String,
    pub message: String,
}

/// A request body of type `T`, as decoded by the service layer.
#[derive(Debug)]
pub struct AppJson<T>(pub T);

impl ApiError {
    pub fn new(error: &str, message: &str) -> (r: ApiError)
        ensures
            r.error@ == error@,
            r.message@ == message@,
    {
        ApiError { error: error.to_owned(), message: message.to_owned() }
    }

    pub fn not_found(resource: &str) -> (r: ApiError)
        ensures
            r.error@ == "not_found"@,
            r.message@ == resource@ + " not found"@,
    {
        ApiError { error: "not_found".to_owned(), message: resource.to_owned().concat(" not found") }
    }

    pub fn bad_request(message: &str) -> (r: ApiError)
        ensures
            r.error@ == "bad_request"@,
            r.message@ == message@,
    {
        ApiError { error: "bad_request".to_owned(), message: message.to_owned() }
    }

    pub fn forbidden(message: &str) -> (r: ApiError)
        ensures
            r.error@ == "forbidden"@,
            r.message@ == message@,
    {
        ApiError { error: "forbidden".to_owned(), message: message.to_owned() }
    }

    pub fn conflict(message: &str) -> (r: ApiError)
        ensures
            r.error@ == "conflict"@,
            r.message@ == message@,
    {
        ApiError { error: "conflict".to_owned(), message: message.to_owned() }
    }
}

impl AppError {
    /// The stable kind tag the service layer keys its status mapping on.
    pub fn kind(&self) -> (r: &'static str)
        ensures
            self is NotFound ==> r@ == "not_found"@,
            self is BadRequest ==> r@ == "bad_request"@,
            self is Forbidden ==> r@ == "forbidden"@,
            self is Conflict ==> r@ == "conflict"@,
            self is Validation ==> r@ == "validation"@,
    {
        match self {
            AppError::NotFound(_) => "not_found",
            AppError::BadRequest(_) => "bad_request",
            AppError::Forbidden(_) => "forbidden",
            AppError::Conflict(_) => "conflict",
            AppError::Validation(_) => "validation",
        }
    }

    /// The human-readable message carried by the error.
    pub fn message(&self) -> (r: &String)
        ensures
            self matches AppError::NotFound(m) ==> r == m,
            self matches AppError::BadRequest(m) ==> r == m,
            self matches AppError::Forbidden(m) ==> r == m,
            self matches AppError::Conflict(m) ==> r == m,
            self matches AppError::Validation(m) ==> r == m,
    {
        match self {
            AppError::NotFound(m) => m,
            AppError::BadRequest(m) => m,
            AppError::Forbidden(m) => m,
            AppError::Conflict(m) => m,
            AppError::Validation(m) => m,
        }
    }
}

} // verus!
