//! Application-level errors. Every asynchronous boundary converts its failure
//! into this taxonomy before the reducer sees it.

use vstd::prelude::*;

use crate::numfmt::{i64_to_string, int_str};

verus! {

/// Application-level errors.
#[derive(Debug, Clone, PartialEq)]
pub enum AppError {
    /// Transport-level connect failure.
    ConnectionFailed(String),
    /// Non-2xx response or malformed body.
    ApiError { status: u16, message: String },
    /// Local persistence failure.
    ConfigError(String),
    /// Any other transport failure.
    RequestFailed(String),
}

impl AppError {
    /// The display text of an error.
    pub open spec fn message_spec(self) -> Seq<char> {
        match self {
            AppError::ConnectionFailed(s) => "Connection failed: "@ + s@,
            AppError::ApiError { status, message } => "API error ("@ + int_str(status as int)
                + "): "@ + message@,
            AppError::ConfigError(s) => "Configuration error: "@ + s@,
            AppError::RequestFailed(s) => "Request failed: "@ + s@,
        }
    }

    /// Render the error for display.
    pub fn message(&self) -> (r: String)
        ensures
            r@ == self.message_spec(),
    {
        match self {
            AppError::ConnectionFailed(s) => "Connection failed: ".to_owned().concat(s.as_str()),
            AppError::ApiError { status, message } => {
                "API error (".to_owned().concat(i64_to_string(*status as i64).as_str()).concat(
                    "): ",
                ).concat(message.as_str())
            },
            AppError::ConfigError(s) => "Configuration error: ".to_owned().concat(s.as_str()),
            AppError::RequestFailed(s) => "Request failed: ".to_owned().concat(s.as_str()),
        }
    }

    /// An equal copy of the error.
    pub fn duplicate(&self) -> (r: AppError)
        ensures
            r == *self,
    {
        match self {
            AppError::ConnectionFailed(s) => AppError::ConnectionFailed(s.clone()),
            AppError::ApiError { status, message } => AppError::ApiError {
                status: *status,
                message: message.clone(),
            },
            AppError::ConfigError(s) => AppError::ConfigError(s.clone()),
            AppError::RequestFailed(s) => AppError::RequestFailed(s.clone()),
        }
    }
}

} // verus!
