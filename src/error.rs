use vstd::prelude::*;

verus! {

/// The kinds of failure an operation can report.
#[derive(Clone, Copy, Debug, PartialEq, Eq, Structural)]
pub enum FsError {
    /// The path has no usable name component.
    InvalidPath,
    /// The path does not exist.
    NotFound,
    /// The path exists but is not a directory.
    NotADirectory,
    /// The destination already exists.
    AlreadyExists,
    /// Every candidate name for a new entry is already taken.
    NamespaceExhausted,
    /// The path has no parent directory.
    NoParent,
    /// A name cannot be represented as text.
    InvalidEncoding,
    /// Any other failure of the underlying filesystem.
    IoError,
}

} // verus!
