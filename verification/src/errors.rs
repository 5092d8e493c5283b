//! Error kinds surfaced by the session operations, and the flat
//! (kind, message) shape handed to a transport layer.

use vstd::prelude::*;

verus! {

/// A failure of one of the session operations. Each variant carries a
/// human-readable description of what went wrong.
#[derive(Debug)]
pub enum PtyError {
    /// The pseudoterminal factory failed to allocate a terminal pair or to
    /// spawn the command in it; no session was inserted.
    CreationError(String),
    /// The write side of a session's terminal stream failed.
    WriteError(String),
    /// The read side of a session's terminal stream failed, or the bytes it
    /// produced could not be decoded as text.
    ReadError(String),
    /// Tearing a session down failed.
    DestructionError(String),
    /// A lock, channel or thread join failed: unexpected, always surfaced.
    InternalError(String),
    /// The addressed session key has no live session in the table.
    NotFound(String),
}

impl PtyError {
    /// The description this error carries.
    pub open spec fn spec_message(&self) -> Seq<char> {
        match self {
            PtyError::CreationError(m) => m@,
            PtyError::WriteError(m) => m@,
            PtyError::ReadError(m) => m@,
            PtyError::DestructionError(m) => m@,
            PtyError::InternalError(m) => m@,
            PtyError::NotFound(m) => m@,
        }
    }

    /// The name of this error's kind.
    pub open spec fn spec_error_type(&self) -> Seq<char> {
        match self {
            PtyError::CreationError(_) => "CreationError"@,
            PtyError::WriteError(_) => "WriteError"@,
            PtyError::ReadError(_) => "ReadError"@,
            PtyError::DestructionError(_) => "DestructionError"@,
            PtyError::InternalError(_) => "InternalError"@,
            PtyError::NotFound(_) => "NotFound"@,
        }
    }

    /// The carried description, as an owned string.
    pub fn message(&self) -> (r: String)
        ensures
            r@ == self.spec_message(),
    {
        match self {
            PtyError::CreationError(m) => m.clone(),
            PtyError::WriteError(m) => m.clone(),
            PtyError::ReadError(m) => m.clone(),
            PtyError::DestructionError(m) => m.clone(),
            PtyError::InternalError(m) => m.clone(),
            PtyError::NotFound(m) => m.clone(),
        }
    }

    /// The kind name, as an owned string.
    pub fn error_type(&self) -> (r: String)
        ensures
            r@ == self.spec_error_type(),
    {
        match self {
            PtyError::CreationError(_) => "CreationError".to_owned(),
            PtyError::WriteError(_) => "WriteError".to_owned(),
            PtyError::ReadError(_) => "ReadError".to_owned(),
            PtyError::DestructionError(_) => "DestructionError".to_owned(),
            PtyError::InternalError(_) => "InternalError".to_owned(),
            PtyError::NotFound(_) => "NotFound".to_owned(),
        }
    }
}

/// The flat error shape returned to callers across a transport boundary:
/// the kind's name beside the message, with the enum structure erased.
#[derive(Debug)]
pub struct PtyResponseError {
    /// Name of the `PtyError` kind this was built from.
    pub error_type: String,
    /// The description the error carried.
    pub message: String,
}

impl PtyResponseError {
    /// Flattens an error into its kind name and its message.
    pub fn from(error: PtyError) -> (r: PtyResponseError)
        ensures
            r.error_type@ == error.spec_error_type(),
            r.message@ == error.spec_message(),
    {
        PtyResponseError { error_type: error.error_type(), message: error.message() }
    }
}

} // verus!
