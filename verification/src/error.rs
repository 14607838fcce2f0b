use vstd::prelude::*;

verus! {

/// The discriminated kind of a request-level failure.
#[derive(Clone, Copy, PartialEq, Eq, Structural, Debug)]
pub enum ErrorKind {
    /// No stored record matches the requested identifier.
    NotFound,
    /// The storage layer failed while executing an operation.
    StorageFailure,
    /// The client supplied a malformed identifier or body.
    BadInput,
}

/// A structured error: a kind that the boundary maps to an HTTP status code,
/// and a human-readable detail.
#[derive(Debug)]
pub struct ApiError {
    pub kind: ErrorKind,
    pub detail: String,
}

/// The single place where error kinds are mapped to HTTP status codes:
/// Not-Found is a client-visible 404, a storage failure is an opaque 500, and
/// malformed input is a 400.
pub open spec fn status_of(k: ErrorKind) -> u16 {
    match k {
        ErrorKind::NotFound => 404,
        ErrorKind::StorageFailure => 500,
        ErrorKind::BadInput => 400,
    }
}

impl ApiError {
    /// The fixed Not-Found error for an identifier that matches no record.
    pub fn not_found() -> (r: ApiError)
        ensures
            r.kind == ErrorKind::NotFound,
            r.detail@ == "Todo not found"@,
    {
        ApiError { kind: ErrorKind::NotFound, detail: "Todo not found".to_string() }
    }

    /// A storage failure carrying an opaque description.
    pub fn storage_failure(detail: String) -> (r: ApiError)
        ensures
            r.kind == ErrorKind::StorageFailure,
            r.detail@ == detail@,
    {
        ApiError { kind: ErrorKind::StorageFailure, detail }
    }

    /// A client error carrying a description of the malformed input.
    pub fn bad_input(detail: String) -> (r: ApiError)
        ensures
            r.kind == ErrorKind::BadInput,
            r.detail@ == detail@,
    {
        ApiError { kind: ErrorKind::BadInput, detail }
    }

    /// Maps this error's kind to its HTTP status code.
    pub fn status_code(&self) -> (r: u16)
        ensures
            r == status_of(self.kind),
    {
        match self.kind {
            ErrorKind::NotFound => 404,
            ErrorKind::StorageFailure => 500,
            ErrorKind::BadInput => 400,
        }
    }
}

} // verus!
