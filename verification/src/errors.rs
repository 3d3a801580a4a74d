//! The error taxonomy of the service and its mapping onto the HTTP
//! status code and client-visible message of a response.
//!
//! Backend detail (a database error's text) is never part of the
//! client-visible message: the caller sees a generic message instead.

use vstd::prelude::*;

verus! {

/// An error produced by the service's request handling.
#[derive(Debug)]
pub enum ApiError {
    /// A user looked up by id does not exist.
    UserNotFound,
    /// The request body failed validation; the message names the field.
    InvalidInput(String),
    /// A registration or update collides with an existing email.
    UserAlreadyExists,
    /// The backing store failed; the text is server-side detail only.
    DatabaseError(String),
    /// The caller is known but not permitted: inactive account or
    /// missing role. The message says which.
    Unauthorized(String),
    /// Login failed: unknown email, missing stored hash, or password
    /// mismatch, uniformly.
    InvalidCredentials,
    /// An internal failure (hashing failure, store unavailability).
    InternalServerError,
}

/// The HTTP status code each error maps to.
pub open spec fn status_code_spec(e: &ApiError) -> u16 {
    match e {
        ApiError::UserNotFound => 404,
        ApiError::InvalidInput(_) => 400,
        ApiError::UserAlreadyExists => 409,
        ApiError::DatabaseError(_) => 500,
        ApiError::Unauthorized(_) => 401,
        ApiError::InvalidCredentials => 401,
        ApiError::InternalServerError => 500,
    }
}

/// The message a client is shown for each error. Validation and
/// authorization messages pass through; backend failure text does not.
pub open spec fn client_message_spec(e: &ApiError) -> Seq<char> {
    match e {
        ApiError::UserNotFound => "User not found"@,
        ApiError::InvalidInput(msg) => msg@,
        ApiError::UserAlreadyExists => "User already exists"@,
        ApiError::DatabaseError(_) => "Internal server error"@,
        ApiError::Unauthorized(msg) => msg@,
        ApiError::InvalidCredentials => "Invalid credentials"@,
        ApiError::InternalServerError => "Internal server error"@,
    }
}

impl ApiError {
    /// The HTTP status code of the response carrying this error.
    pub fn status_code(&self) -> (code: u16)
        ensures
            code == status_code_spec(self),
    {
        match self {
            ApiError::UserNotFound => 404,
            ApiError::InvalidInput(_) => 400,
            ApiError::UserAlreadyExists => 409,
            ApiError::DatabaseError(_) => 500,
            ApiError::Unauthorized(_) => 401,
            ApiError::InvalidCredentials => 401,
            ApiError::InternalServerError => 500,
        }
    }

    /// The message placed in the response body for this error.
    pub fn client_message(&self) -> (msg: String)
        ensures
            msg@ == client_message_spec(self),
    {
        match self {
            ApiError::UserNotFound => "User not found".to_owned(),
            ApiError::InvalidInput(msg) => msg.clone(),
            ApiError::UserAlreadyExists => "User already exists".to_owned(),
            ApiError::DatabaseError(_) => "Internal server error".to_owned(),
            ApiError::Unauthorized(msg) => msg.clone(),
            ApiError::InvalidCredentials => "Invalid credentials".to_owned(),
            ApiError::InternalServerError => "Internal server error".to_owned(),
        }
    }
}

} // verus!
