//! What the user is told when the store fails.

use vstd::prelude::*;
use vstd::string::*;

verus! {

/// The ways in which the store fails, as far as the user is told of them.
#[derive(Clone, Copy, Debug, PartialEq, Eq, Structural)]
pub enum StoreError {
    /// The record asked for does not exist.
    NotFound,
    /// A text holds a character that the store cannot take.
    InvalidCString,
    /// The database refused the operation.
    DatabaseError,
    /// The query could not be built.
    QueryBuilderError,
    /// Anything else.
    Other,
}

/// The message for a failure of the store.
pub open spec fn error_text(error: StoreError) -> Seq<char> {
    match error {
        StoreError::NotFound => "Record not found"@,
        StoreError::InvalidCString => "Invalid data format"@,
        StoreError::DatabaseError => "Database operation failed"@,
        StoreError::QueryBuilderError => "Invalid query"@,
        StoreError::Other => "An unexpected error occurred"@,
    }
}

/// Error handling function to map store errors to user-friendly strings
pub fn handle_error(err: StoreError) -> (message: String)
    ensures
        message@ == error_text(err),
{
    match err {
        StoreError::NotFound => String::from_str("Record not found"),
        StoreError::InvalidCString => String::from_str("Invalid data format"),
        StoreError::DatabaseError => String::from_str("Database operation failed"),
        StoreError::QueryBuilderError => String::from_str("Invalid query"),
        StoreError::Other => String::from_str("An unexpected error occurred"),
    }
}

} // verus!
