//! The error type shared by every operation of the library.
use vstd::prelude::*;

verus! {

#[verifier::external_type_specification]
#[verifier::external_body]
pub struct ExJsonError(json::Error);

/// What went wrong, by the kind of failure.
#[derive(Debug)]
pub enum GitmojiError {
    /// The remote catalogue could not be fetched.
    ReqwestError(String),
    /// A document is not valid JSON.
    JsonError(json::Error),
    /// A local file could not be read or written, or a prompt failed.
    IOError(String),
    /// A stored record does not have the expected shape.
    ParseError(String),
    /// The version-control process could not be started.
    ProcessError(String),
    /// A text that a user entered breaks the input rules.
    ValidationError(String),
    /// Anything else, e.g. a document without the expected shape.
    Other(String),
}

} // verus!
