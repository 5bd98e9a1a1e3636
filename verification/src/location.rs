//! Where the database lives: a folder below a root directory, and the file
//! inside that folder.

use std::path::PathBuf;
use vstd::prelude::*;

verus! {

/// Name of the folder that holds the database below the per-user data
/// directory.
pub const APP_NAME: &'static str = "db_store";

/// Name of the folder that holds the database below the working directory.
pub const FALLBACK_DIR: &'static str = "database";

/// Name of the database file.
pub const DB_NAME: &'static str = "database.db";

/// The directory that holds the database: `folder` directly below `root`.
#[derive(Debug, PartialEq, Eq)]
pub struct StorageLocation {
    pub root: PathBuf,
    pub folder: String,
}

/// The mathematical value of a [`StorageLocation`].
pub struct StorageLocationView {
    pub root: PathBuf,
    pub folder: Seq<char>,
}

impl View for StorageLocation {
    type V = StorageLocationView;

    open spec fn view(&self) -> StorageLocationView {
        StorageLocationView { root: self.root, folder: self.folder@ }
    }
}

/// The database file: `file_name` directly inside `directory`.
#[derive(Debug, PartialEq, Eq)]
pub struct DatabasePath {
    pub directory: StorageLocation,
    pub file_name: String,
}

/// The mathematical value of a [`DatabasePath`].
pub struct DatabasePathView {
    pub directory: StorageLocationView,
    pub file_name: Seq<char>,
}

impl View for DatabasePath {
    type V = DatabasePathView;

    open spec fn view(&self) -> DatabasePathView {
        DatabasePathView { directory: self.directory@, file_name: self.file_name@ }
    }
}

/// The storage directory below the per-user data directory `root`.
pub open spec fn application_dir(root: PathBuf) -> StorageLocationView {
    StorageLocationView { root, folder: APP_NAME@ }
}

/// The storage directory below the working directory `root`.
pub open spec fn fallback_dir(root: PathBuf) -> StorageLocationView {
    StorageLocationView { root, folder: FALLBACK_DIR@ }
}

/// The database file inside `directory`.
pub open spec fn database_file(directory: StorageLocationView) -> DatabasePathView {
    DatabasePathView { directory, file_name: DB_NAME@ }
}

impl StorageLocation {
    /// The storage directory below the per-user data directory `root`.
    pub fn application(root: PathBuf) -> (dir: StorageLocation)
        ensures
            dir@ == application_dir(root),
    {
        StorageLocation { root, folder: APP_NAME.to_owned() }
    }

    /// The storage directory below the working directory `root`.
    pub fn fallback(root: PathBuf) -> (dir: StorageLocation)
        ensures
            dir@ == fallback_dir(root),
    {
        StorageLocation { root, folder: FALLBACK_DIR.to_owned() }
    }

    /// The database file inside this directory.
    pub fn database(self) -> (path: DatabasePath)
        ensures
            path@ == database_file(self@),
    {
        DatabasePath { directory: self, file_name: DB_NAME.to_owned() }
    }
}

} // verus!
