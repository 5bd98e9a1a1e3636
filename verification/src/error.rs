//! The closed set of failures and the text each one is reported with.

use vstd::prelude::*;
use vstd::string::*;

verus! {

/// Why an operation on the database file failed.
#[derive(Debug, PartialEq, Eq)]
pub enum DatabaseError {
    /// The operating system offers no per-user data directory; the payload
    /// names the directory that was expected.
    DirectoryNotFound(String),
    /// A file-system call failed; the payload is the system's description.
    IoError(String),
    /// The database path could not be built.
    PathError(String),
    /// There is no database file at the resolved path.
    FileNotFound,
    /// The database file exists and holds no bytes.
    FileEmpty,
}

/// The mathematical value of a [`DatabaseError`].
pub enum DatabaseErrorView {
    DirectoryNotFound(Seq<char>),
    IoError(Seq<char>),
    PathError(Seq<char>),
    FileNotFound,
    FileEmpty,
}

impl View for DatabaseError {
    type V = DatabaseErrorView;

    open spec fn view(&self) -> DatabaseErrorView {
        match *self {
            DatabaseError::DirectoryNotFound(name) => DatabaseErrorView::DirectoryNotFound(name@),
            DatabaseError::IoError(cause) => DatabaseErrorView::IoError(cause@),
            DatabaseError::PathError(detail) => DatabaseErrorView::PathError(detail@),
            DatabaseError::FileNotFound => DatabaseErrorView::FileNotFound,
            DatabaseError::FileEmpty => DatabaseErrorView::FileEmpty,
        }
    }
}

/// The text that reports `error` to a caller.
pub open spec fn message(error: DatabaseErrorView) -> Seq<char> {
    match error {
        DatabaseErrorView::DirectoryNotFound(name) => "Directory not found: "@ + name,
        DatabaseErrorView::IoError(cause) => "IO error: "@ + cause,
        DatabaseErrorView::PathError(detail) => "Database path error: "@ + detail,
        DatabaseErrorView::FileNotFound => "Database file not found"@,
        DatabaseErrorView::FileEmpty => "Database file is empty"@,
    }
}

impl DatabaseError {
    /// The text that reports this error.
    pub fn to_string(&self) -> (text: String)
        ensures
            text@ == message(self@),
    {
        match self {
            DatabaseError::DirectoryNotFound(name) => String::from_str("Directory not found: ").concat(
                name.as_str(),
            ),
            DatabaseError::IoError(cause) => String::from_str("IO error: ").concat(cause.as_str()),
            DatabaseError::PathError(detail) => String::from_str("Database path error: ").concat(
                detail.as_str(),
            ),
            DatabaseError::FileNotFound => String::from_str("Database file not found"),
            DatabaseError::FileEmpty => String::from_str("Database file is empty"),
        }
    }
}

} // verus!
