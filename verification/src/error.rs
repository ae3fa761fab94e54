//! The errors a request can end with, and the HTTP status and message each is answered with.

use vstd::prelude::*;
use crate::query::error::QueryError;
use crate::schema::field::FieldError;

verus! {

/// Why a request failed.
pub enum Error {
    NotFound,
    Unauthorized,
    Forbidden,
    /// The request is malformed; the message says how.
    BadRequest(String),
    /// The document data does not fit its type.
    Validation(Vec<FieldError>),
    /// A database query failed; `row_not_found` when it failed for want of a row.
    Database { row_not_found: bool },
    /// Anything else that went wrong on the server.
    Internal,
}

impl Error {
    /// The HTTP status a failure is answered with.
    pub open spec fn spec_status(&self) -> u16 {
        match self {
            Error::NotFound => 404,
            Error::Unauthorized => 401,
            Error::Forbidden => 403,
            Error::BadRequest(_) => 400,
            Error::Validation(_) => 422,
            Error::Database { row_not_found } => if *row_not_found {
                404
            } else {
                500
            },
            Error::Internal => 500,
        }
    }

    /// The message a failure is answered with (a failed validation is answered with the
    /// list of field errors instead). Server-side failures are not described to the client.
    pub open spec fn spec_message(&self) -> Seq<char> {
        match self {
            Error::NotFound => "not found"@,
            Error::Unauthorized => "unauthorized"@,
            Error::Forbidden => "forbidden"@,
            Error::BadRequest(m) => m@,
            Error::Validation(_) => "validation failed"@,
            Error::Database { row_not_found } => if *row_not_found {
                "not found"@
            } else {
                "internal server error"@
            },
            Error::Internal => "internal server error"@,
        }
    }

    /// The HTTP status a failure is answered with.
    pub fn status(&self) -> (r: u16)
        ensures
            r == self.spec_status(),
    {
        match self {
            Error::NotFound => 404,
            Error::Unauthorized => 401,
            Error::Forbidden => 403,
            Error::BadRequest(_) => 400,
            Error::Validation(_) => 422,
            Error::Database { row_not_found } => if *row_not_found {
                404
            } else {
                500
            },
            Error::Internal => 500,
        }
    }

    /// The message a failure is answered with.
    pub fn message(&self) -> (r: String)
        ensures
            r@ == self.spec_message(),
    {
        match self {
            Error::NotFound => "not found".to_string(),
            Error::Unauthorized => "unauthorized".to_string(),
            Error::Forbidden => "forbidden".to_string(),
            Error::BadRequest(m) => m.clone(),
            Error::Validation(_) => "validation failed".to_string(),
            Error::Database { row_not_found } => if *row_not_found {
                "not found".to_string()
            } else {
                "internal server error".to_string()
            },
            Error::Internal => "internal server error".to_string(),
        }
    }
}

impl Error {
    /// A refused query is a bad request, described by the query error's message.
    pub fn from_query(e: QueryError) -> (r: Error)
        ensures
            r matches Error::BadRequest(m) && m@ == e@.message(),
    {
        let m = e.message();
        Error::BadRequest(m)
    }
}

} // verus!
