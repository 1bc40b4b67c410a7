//! Errors that a request to the server can end in.

use vstd::prelude::*;

verus! {

/// Why a query or a ping did not produce a result.
#[derive(Debug, Clone, PartialEq, Eq)]
pub enum InfluxDbError {
    /// The query could not be turned into a request.
    InvalidQueryError { error: String },
    /// The answer was not valid UTF-8.
    DeserializationError { error: String },
    /// The HTTP exchange itself failed.
    ProtocolError { error: String },
    /// The server answered with an error.
    DatabaseError { error: String },
}

impl InfluxDbError {
    /// The message carried by the error, whatever its variant.
    pub open spec fn message(&self) -> Seq<char> {
        match self {
            InfluxDbError::InvalidQueryError { error } => error@,
            InfluxDbError::DeserializationError { error } => error@,
            InfluxDbError::ProtocolError { error } => error@,
            InfluxDbError::DatabaseError { error } => error@,
        }
    }

    /// The message carried by the error, whatever its variant.
    pub fn error_message(&self) -> (r: &str)
        ensures
            r@ == self.message(),
    {
        match self {
            InfluxDbError::InvalidQueryError { error } => error.as_str(),
            InfluxDbError::DeserializationError { error } => error.as_str(),
            InfluxDbError::ProtocolError { error } => error.as_str(),
            InfluxDbError::DatabaseError { error } => error.as_str(),
        }
    }
}

} // verus!
