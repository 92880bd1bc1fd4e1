use vstd::prelude::*;

verus! {

/// The kinds of failure that the storage engine reports.
#[derive(Debug, Clone, Copy, PartialEq, Eq, Structural)]
pub enum ErrorKind {
    /// The connect target exists but is not a directory.
    InvalidPath,
    /// An underlying filesystem read, write, create, remove or rename failed.
    IOError,
    /// The referenced collection or record identifier does not exist.
    NotFound,
    /// A collection-creation or rename target already exists.
    AlreadyExists,
    /// An insert carried an identifier already present in the collection.
    DuplicateKey,
    /// A collection file does not hold a well-formed array of records.
    CorruptData,
}

/// Error returned by every fallible operation of the database.
#[derive(Debug, Clone, Copy, PartialEq, Eq, Structural)]
pub struct DBError(pub ErrorKind);

impl DBError {
    /// The kind of this error.
    pub fn kind(&self) -> (r: ErrorKind)
        ensures
            r == self.0,
    {
        self.0
    }

    /// A human-readable description of the error.
    pub fn message(&self) -> (r: &'static str) {
        match self.0 {
            ErrorKind::InvalidPath => "DBError: Path is not a directory",
            ErrorKind::IOError => "DBError: Filesystem operation failed",
            ErrorKind::NotFound => "DBError: Not found",
            ErrorKind::AlreadyExists => "DBError: Collection already exists",
            ErrorKind::DuplicateKey => "DBError: Data already exists",
            ErrorKind::CorruptData => "DBError: Collection data is corrupt",
        }
    }
}

} // verus!
