use vstd::prelude::*;

verus! {

/// The error kinds that store and service operations report.
///
/// - `NotFound`: no matching row for the given key.
/// - `Conflict`: a uniqueness constraint (email, session token) was violated.
/// - `Auth`: bad credentials or an unresolvable session; deliberately does
///   not reveal which condition failed.
/// - `Hashing`: a malformed stored hash string, or an internal failure while
///   deriving a new hash.
/// - `Storage`: any other persistence-level failure (e.g. identifier space
///   exhausted).
/// - `Validation`: a malformed request (e.g. a missing or unparseable cookie).
#[derive(Clone, Copy, Debug, PartialEq, Eq, Structural)]
pub enum ApiError {
    NotFound,
    Conflict,
    Auth,
    Hashing,
    Storage,
    Validation,
}

impl ApiError {
    /// The HTTP status each error kind maps to: not-found 404, conflict 409,
    /// auth 401, validation 400, everything else 500.
    pub open spec fn spec_status_code(self) -> u16 {
        match self {
            ApiError::NotFound => 404,
            ApiError::Conflict => 409,
            ApiError::Auth => 401,
            ApiError::Validation => 400,
            ApiError::Hashing => 500,
            ApiError::Storage => 500,
        }
    }

    pub fn status_code(&self) -> (code: u16)
        ensures
            code == self.spec_status_code(),
    {
        match self {
            ApiError::NotFound => 404,
            ApiError::Conflict => 409,
            ApiError::Auth => 401,
            ApiError::Validation => 400,
            ApiError::Hashing => 500,
            ApiError::Storage => 500,
        }
    }

    /// A short client-safe description; never carries internal detail,
    /// row contents, or hash material.
    pub fn message(&self) -> (msg: &'static str)
        ensures
            self is NotFound ==> msg@ == "not found"@,
            self is Conflict ==> msg@ == "conflict"@,
            self is Auth ==> msg@ == "unauthorized"@,
            self is Validation ==> msg@ == "bad request"@,
            self is Hashing ==> msg@ == "internal error"@,
            self is Storage ==> msg@ == "internal error"@,
    {
        match self {
            ApiError::NotFound => "not found",
            ApiError::Conflict => "conflict",
            ApiError::Auth => "unauthorized",
            ApiError::Validation => "bad request",
            ApiError::Hashing => "internal error",
            ApiError::Storage => "internal error",
        }
    }
}

} // verus!
