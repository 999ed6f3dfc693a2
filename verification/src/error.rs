//! What can go wrong with a request, and the message shown for it.

use vstd::prelude::*;

verus! {

/// The three kinds of failure that a caller tells apart.
#[derive(Debug, Clone, Copy, PartialEq, Eq, Structural)]
pub enum ErrorClass {
    /// The request itself is malformed.
    Validation,
    /// A lookup by id found no row.
    NotFound,
    /// The store failed or refused a statement.
    Database,
}

/// A failure of one request. Each is final for its request: nothing is tried
/// again.
#[derive(Debug, Clone, PartialEq, Eq)]
pub enum EngineError {
    /// The payload could not be read; the reader's own words are kept.
    InvalidPayload(String),
    /// A date of the payload is no date; the text that was given is kept.
    InvalidDate(String),
    /// The kind named for a deletion or an edit is none of the five.
    UnknownKind,
    /// The kind named for an ownership removal is neither label nor badge.
    UnknownOwnershipKind,
    /// No row has the id that was asked for.
    NotFound,
    /// The store failed or refused a statement; its own words are kept. A
    /// deletion refused because other rows still refer to the row is one of
    /// these.
    Database(String),
}

impl EngineError {
    /// The kind of failure this is.
    pub open spec fn spec_class(self) -> ErrorClass {
        match self {
            EngineError::InvalidPayload(_) => ErrorClass::Validation,
            EngineError::InvalidDate(_) => ErrorClass::Validation,
            EngineError::UnknownKind => ErrorClass::Validation,
            EngineError::UnknownOwnershipKind => ErrorClass::Validation,
            EngineError::NotFound => ErrorClass::NotFound,
            EngineError::Database(_) => ErrorClass::Database,
        }
    }

    /// The message shown for this failure.
    pub open spec fn spec_message(self) -> Seq<char> {
        match self {
            EngineError::InvalidPayload(detail) => "ERROR PARSING JSON: "@ + detail@,
            EngineError::InvalidDate(text) => "ERROR PARSING DATE: "@ + text@,
            EngineError::UnknownKind => "TYPE IS NOT AVAILABLE FOR DELETION"@,
            EngineError::UnknownOwnershipKind => "NO type FOUND"@,
            EngineError::NotFound => "ID does not exist"@,
            EngineError::Database(detail) => "ERROR ADDING TO DATABASE: "@ + detail@,
        }
    }

    /// The kind of failure this is.
    pub fn class(&self) -> (r: ErrorClass)
        ensures
            r == self.spec_class(),
    {
        match self {
            EngineError::InvalidPayload(_) => ErrorClass::Validation,
            EngineError::InvalidDate(_) => ErrorClass::Validation,
            EngineError::UnknownKind => ErrorClass::Validation,
            EngineError::UnknownOwnershipKind => ErrorClass::Validation,
            EngineError::NotFound => ErrorClass::NotFound,
            EngineError::Database(_) => ErrorClass::Database,
        }
    }

    /// The message shown for this failure.
    pub fn message(&self) -> (r: String)
        ensures
            r@ == self.spec_message(),
    {
        match self {
            EngineError::InvalidPayload(detail) => {
                String::from_str("ERROR PARSING JSON: ").concat(detail.as_str())
            },
            EngineError::InvalidDate(text) => {
                String::from_str("ERROR PARSING DATE: ").concat(text.as_str())
            },
            EngineError::UnknownKind => String::from_str("TYPE IS NOT AVAILABLE FOR DELETION"),
            EngineError::UnknownOwnershipKind => String::from_str("NO type FOUND"),
            EngineError::NotFound => String::from_str("ID does not exist"),
            EngineError::Database(detail) => {
                String::from_str("ERROR ADDING TO DATABASE: ").concat(detail.as_str())
            },
        }
    }
}

} // verus!
