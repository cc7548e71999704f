//! Errors of request handling and the responses that report them.

use vstd::prelude::*;

use crate::text::to_owned_string;
use crate::utils::env::EnvError;
use crate::utils::lettre::LettreError;
use crate::utils::maxminddb::error::MaxmindDbError;

verus! {

/// Why handling a request failed. Failures of outside services are kept by
/// their messages.
#[derive(Debug)]
pub enum AppError {
    Env(EnvError),
    Io(String),
    SerdeJson(String),
    Sqlx(String),
    HttpClient(String),
    Lettre(LettreError),
    MaxMindDB(MaxmindDbError),
    Join(String),
    Anyhow(String),
    /// A failure whose message may be shown to the client.
    InternalServerError(String),
}

/// The HTTP status of every error response: 500 Internal Server Error.
pub const INTERNAL_SERVER_ERROR: u16 = 500;

/// The message shown to the client for an error.
pub open spec fn spec_response_message(e: &AppError) -> Seq<char> {
    match e {
        AppError::InternalServerError(m) => m@,
        _ => "An error has occurred"@,
    }
}

impl AppError {
    /// The response for this error: status 500, with the error's own message
    /// for an internal server error and a generic message for every other
    /// error, whose details are only logged.
    pub fn response(&self) -> (r: (u16, String))
        ensures
            r.0 == INTERNAL_SERVER_ERROR,
            r.1@ == spec_response_message(self),
    {
        match self {
            AppError::InternalServerError(m) => (INTERNAL_SERVER_ERROR, m.clone()),
            _ => (INTERNAL_SERVER_ERROR, to_owned_string("An error has occurred")),
        }
    }
}

} // verus!
