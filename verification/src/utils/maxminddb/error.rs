//! Errors of client lookups.

use vstd::prelude::*;

use crate::utils::env::EnvError;

verus! {

/// Why a client lookup failed.
#[derive(Debug)]
pub enum MaxmindDbError {
    /// Reading or writing a file failed, by its message.
    Io(String),
    /// A setting could not be read from the environment.
    Env(EnvError),
    /// Downloading the database failed, by its message.
    Request(String),
    /// The database could not be opened or read, by its message.
    MaxMindDB(String),
    /// A time zone name is not known.
    ParseError,
    /// Any other failure.
    Custom(String),
}

} // verus!
