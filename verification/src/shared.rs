//! What the whole service shares.

use vstd::prelude::*;

verus! {

/// A failure of the service as a whole.
#[derive(Debug, Clone, Copy, PartialEq, Eq, Structural)]
pub enum AppError {
    Internal,
}

impl AppError {
    /// The error as one line of text.
    pub fn to_string(&self) -> (s: String)
        ensures
            s@ == "Internal Server Error"@,
    {
        match self {
            AppError::Internal => String::from_str("Internal Server Error"),
        }
    }
}

/// How the service is set up.
#[derive(Debug, Clone, Copy, PartialEq, Eq, Structural)]
pub struct Config {
    pub server_port: u16,
}

} // verus!
