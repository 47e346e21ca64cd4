use vstd::prelude::*;

verus! {

/// The kinds of input/output failure that Forge reports itself.
#[derive(Debug, Clone, Copy, PartialEq, Eq, Structural)]
pub enum IoErrorKind {
    NotFound,
    AlreadyExists,
    InvalidInput,
    Other,
}

/// An error of a file system operation.
#[derive(Debug)]
pub enum FileSystemError {
    /// A failed input/output operation, with its kind and message.
    IoError { kind: IoErrorKind, message: String },
    /// Any other failed operation, with a message that says what went wrong.
    OperationError(String),
}

impl FileSystemError {
    /// The message that the error carries.
    pub fn describe(&self) -> (res: String)
        ensures
            res@ == match self {
                FileSystemError::IoError { message, .. } => message@,
                FileSystemError::OperationError(message) => message@,
            },
    {
        match self {
            FileSystemError::IoError { message, .. } => message.clone(),
            FileSystemError::OperationError(message) => message.clone(),
        }
    }
}

} // verus!
