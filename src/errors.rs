//! The data of API errors, and the rules that turn an error's code into its
//! HTTP status, its log severity, its message to the user and its page.

use std::collections::HashMap;

use vstd::prelude::*;

use crate::bouncer::LogLevel;

verus! {

/// How an error is rendered.
#[derive(Clone, Copy, Debug, PartialEq, Eq, Structural)]
pub enum ErrorFormat {
    Html,
    Json,
}

/// The kind of an API error.
#[derive(Clone, Copy, Debug, PartialEq, Eq, Structural)]
pub enum ErrorCode {
    Authentication,
    Authorization,
    BadRequest,
    Database,
    Exception,
    NotFound,
    Validation,
}

/// Kinds of API error, in the shorter set of a flat error with one status.
#[derive(Clone, Copy, Debug, PartialEq, Eq, Structural)]
pub enum ErrorType {
    Validation,
    Exception,
    Authentication,
    Authorization,
    NotFound,
}

pub open spec fn status_of(code: ErrorCode) -> u16 {
    match code {
        ErrorCode::Authentication => 401,
        ErrorCode::Authorization => 403,
        ErrorCode::BadRequest => 400,
        ErrorCode::Validation => 400,
        ErrorCode::Database => 500,
        ErrorCode::Exception => 500,
        ErrorCode::NotFound => 404,
    }
}

pub open spec fn severity_of(code: ErrorCode) -> LogLevel {
    match code {
        ErrorCode::Authentication | ErrorCode::Authorization => LogLevel::Info,
        ErrorCode::BadRequest | ErrorCode::NotFound | ErrorCode::Validation => LogLevel::Warn,
        ErrorCode::Database | ErrorCode::Exception => LogLevel::Error,
    }
}

pub open spec fn user_message_of(code: ErrorCode, detail: Seq<char>) -> Seq<char> {
    match code {
        ErrorCode::Authentication => "Authentication is required to access this resource."@,
        ErrorCode::Authorization => "You are not authorized to perform this action."@,
        ErrorCode::BadRequest => detail,
        ErrorCode::Database => "A database error occurred."@,
        ErrorCode::Exception => "An internal server error occurred."@,
        ErrorCode::NotFound => "The requested resource was not found."@,
        ErrorCode::Validation => "There was a validation error with your request."@,
    }
}

impl ErrorCode {
    /// The HTTP status of an error of this kind.
    pub fn status_code(&self) -> (r: u16)
        ensures
            r == status_of(*self),
    {
        match self {
            ErrorCode::Authentication => 401,
            ErrorCode::Authorization => 403,
            ErrorCode::BadRequest | ErrorCode::Validation => 400,
            ErrorCode::Database | ErrorCode::Exception => 500,
            ErrorCode::NotFound => 404,
        }
    }

    /// The severity at which an error of this kind is logged.
    pub fn severity(&self) -> (r: LogLevel)
        ensures
            r == severity_of(*self),
    {
        match self {
            ErrorCode::Authentication | ErrorCode::Authorization => LogLevel::Info,
            ErrorCode::BadRequest | ErrorCode::NotFound | ErrorCode::Validation => LogLevel::Warn,
            ErrorCode::Database | ErrorCode::Exception => LogLevel::Error,
        }
    }

    /// Whether an error of this kind is reported to the notification
    /// channels: database errors and exceptions.
    pub fn is_critical(&self) -> (r: bool)
        ensures
            r == (severity_of(*self) == LogLevel::Error),
            r == (*self == ErrorCode::Database || *self == ErrorCode::Exception),
    {
        matches!(self, ErrorCode::Database | ErrorCode::Exception)
    }

    /// The message shown to the user; a bad request shows its own detail.
    pub fn user_message<'a>(&self, detail: &'a str) -> (r: &'a str)
        ensures
            r@ == user_message_of(*self, detail@),
    {
        match self {
            ErrorCode::Authentication => "Authentication is required to access this resource.",
            ErrorCode::Authorization => "You are not authorized to perform this action.",
            ErrorCode::BadRequest => detail,
            ErrorCode::Database => "A database error occurred.",
            ErrorCode::Exception => "An internal server error occurred.",
            ErrorCode::NotFound => "The requested resource was not found.",
            ErrorCode::Validation => "There was a validation error with your request.",
        }
    }

    /// The page that renders an error of this kind as HTML.
    pub fn error_page(&self) -> (r: &'static str)
        ensures
            r@ == (if *self == ErrorCode::NotFound {
                "dist/404.html"@
            } else {
                "dist/500.html"@
            }),
    {
        match self {
            ErrorCode::NotFound => "dist/404.html",
            _ => "dist/500.html",
        }
    }
}

/// One failed validation of one field.
#[derive(Debug)]
pub struct ValidationFieldError {
    pub field: String,
    pub code: String,
    pub message: String,
    pub params: HashMap<String, String>,
}

/// Every failed validation of a request.
#[derive(Debug)]
pub struct SerializableValidationErrors {
    pub errors: Vec<ValidationFieldError>,
}

} // verus!
