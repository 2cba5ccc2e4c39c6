//! The errors that the platform's endpoints answer with.
use vstd::prelude::*;

verus! {

/// An error of the platform, with its message.
#[derive(Debug, PartialEq)]
pub enum AppError {
    Db(String),
    GitHub(String),
    NotFound(String),
    BadRequest(String),
}

/// The text that opens the message of each kind of error.
pub open spec fn error_prefix(e: AppError) -> Seq<char> {
    match e {
        AppError::Db(_) => "Database error: "@,
        AppError::GitHub(_) => "GitHub API error: "@,
        AppError::NotFound(_) => "Not found: "@,
        AppError::BadRequest(_) => "Bad request: "@,
    }
}

/// The detail that an error carries.
pub open spec fn error_detail(e: AppError) -> Seq<char> {
    match e {
        AppError::Db(m) => m@,
        AppError::GitHub(m) => m@,
        AppError::NotFound(m) => m@,
        AppError::BadRequest(m) => m@,
    }
}

/// The HTTP status of each kind of error.
pub open spec fn error_status(e: AppError) -> u16 {
    match e {
        AppError::Db(_) => 500,
        AppError::GitHub(_) => 502,
        AppError::NotFound(_) => 404,
        AppError::BadRequest(_) => 400,
    }
}

impl Clone for AppError {
    fn clone(&self) -> (r: Self)
        ensures
            r == *self,
    {
        match self {
            AppError::Db(m) => AppError::Db(m.clone()),
            AppError::GitHub(m) => AppError::GitHub(m.clone()),
            AppError::NotFound(m) => AppError::NotFound(m.clone()),
            AppError::BadRequest(m) => AppError::BadRequest(m.clone()),
        }
    }
}

impl AppError {
    /// The error's message: the kind of error, then its detail.
    pub fn message(&self) -> (s: String)
        ensures
            s@ == error_prefix(*self) + error_detail(*self),
    {
        match self {
            AppError::Db(m) => {
                let mut s = String::from_str("Database error: ");
                s.append(m.as_str());
                s
            },
            AppError::GitHub(m) => {
                let mut s = String::from_str("GitHub API error: ");
                s.append(m.as_str());
                s
            },
            AppError::NotFound(m) => {
                let mut s = String::from_str("Not found: ");
                s.append(m.as_str());
                s
            },
            AppError::BadRequest(m) => {
                let mut s = String::from_str("Bad request: ");
                s.append(m.as_str());
                s
            },
        }
    }

    /// The HTTP status that the error is answered with: 500 for a store
    /// error, 502 for a GitHub error, 404 for a missing record, 400 for a
    /// refused request.
    pub fn status_code(&self) -> (code: u16)
        ensures
            code == error_status(*self),
    {
        match self {
            AppError::Db(_) => 500,
            AppError::GitHub(_) => 502,
            AppError::NotFound(_) => 404,
            AppError::BadRequest(_) => 400,
        }
    }
}

} // verus!
