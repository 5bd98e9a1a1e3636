//! Finding the directory that holds the database, and creating it when it is
//! missing.

use crate::error::{DatabaseError, DatabaseErrorView};
use crate::host::{answers, Reply, ReplyView, Request, RequestView};
use crate::location::{
    application_dir, database_file, fallback_dir, DatabasePath, DatabasePathView, StorageLocation,
    StorageLocationView,
};
use crate::platform::Platform;
use crate::progress::{Progress, ProgressView};
use std::path::PathBuf;
use vstd::prelude::*;

verus! {

/// A point at which the search for the storage directory waits for its host.
#[derive(Debug, PartialEq, Eq)]
pub enum Resolving {
    /// Waiting for the working directory.
    WorkingDir,
    /// Waiting to learn whether the storage directory exists.
    Probing(StorageLocation),
    /// Waiting for the storage directory to be created.
    Creating(StorageLocation),
}

/// The mathematical value of a [`Resolving`].
pub enum ResolvingView {
    WorkingDir,
    Probing(StorageLocationView),
    Creating(StorageLocationView),
}

impl View for Resolving {
    type V = ResolvingView;

    open spec fn view(&self) -> ResolvingView {
        match *self {
            Resolving::WorkingDir => ResolvingView::WorkingDir,
            Resolving::Probing(dir) => ResolvingView::Probing(dir@),
            Resolving::Creating(dir) => ResolvingView::Creating(dir@),
        }
    }
}

/// The request that a stage of the search waits on.
pub open spec fn resolving_request(stage: ResolvingView) -> RequestView {
    match stage {
        ResolvingView::WorkingDir => RequestView::CurrentDir,
        ResolvingView::Probing(dir) => RequestView::DirectoryExists(dir),
        ResolvingView::Creating(dir) => RequestView::CreateDirectory(dir),
    }
}

/// The name by which a platform's per-user data directory is reported
/// missing.
pub open spec fn data_dir_label(platform: Platform) -> Seq<char> {
    match platform {
        Platform::Windows => "AppData"@,
        Platform::Linux => ".local/share"@,
        Platform::Unknown => Seq::empty(),
    }
}

/// How the search for the storage directory begins on `platform`, given the
/// per-user data directory that the operating system offers.
pub open spec fn begin_dir(platform: Platform, data_root: Option<PathBuf>) -> ProgressView<
    ResolvingView,
    StorageLocationView,
> {
    match platform {
        Platform::Unknown => ProgressView::Pending(ResolvingView::WorkingDir),
        _ => match data_root {
            Some(root) => ProgressView::Pending(ResolvingView::Probing(application_dir(root))),
            None => ProgressView::Finished(
                Err(DatabaseErrorView::DirectoryNotFound(data_dir_label(platform))),
            ),
        },
    }
}

/// How the search goes on from `stage` when the host reports `reply`. A
/// reply that does not answer the stage's request leaves the search where it
/// is.
pub open spec fn resume_dir(stage: ResolvingView, reply: ReplyView) -> ProgressView<
    ResolvingView,
    StorageLocationView,
> {
    match (stage, reply) {
        (ResolvingView::WorkingDir, ReplyView::Found(root)) => ProgressView::Pending(
            ResolvingView::Probing(fallback_dir(root)),
        ),
        (ResolvingView::WorkingDir, ReplyView::Failed(cause)) => ProgressView::Finished(
            Err(DatabaseErrorView::IoError(cause)),
        ),
        (ResolvingView::Probing(dir), ReplyView::Exists(true)) => ProgressView::Finished(Ok(dir)),
        (ResolvingView::Probing(dir), ReplyView::Exists(false)) => ProgressView::Pending(
            ResolvingView::Creating(dir),
        ),
        (ResolvingView::Creating(dir), ReplyView::Done) => ProgressView::Finished(Ok(dir)),
        (ResolvingView::Creating(dir), ReplyView::Failed(cause)) => ProgressView::Finished(
            Err(DatabaseErrorView::IoError(cause)),
        ),
        _ => ProgressView::Pending(stage),
    }
}

/// The search for the database file: the search for the storage directory,
/// with the name of the database file joined to the directory it ends with.
pub open spec fn to_file(progress: ProgressView<ResolvingView, StorageLocationView>) -> ProgressView<
    ResolvingView,
    DatabasePathView,
> {
    match progress {
        ProgressView::Pending(stage) => ProgressView::Pending(stage),
        ProgressView::Finished(Ok(dir)) => ProgressView::Finished(Ok(database_file(dir))),
        ProgressView::Finished(Err(error)) => ProgressView::Finished(Err(error)),
    }
}

impl Resolving {
    /// The request that this stage waits on.
    pub fn request(&self) -> (request: Request<'_>)
        ensures
            request@ == resolving_request(self@),
    {
        match self {
            Resolving::WorkingDir => Request::CurrentDir,
            Resolving::Probing(dir) => Request::DirectoryExists(dir),
            Resolving::Creating(dir) => Request::CreateDirectory(dir),
        }
    }
}

/// Begins the search for the storage directory. `data_root` is the per-user
/// data directory that the operating system offers; it is not consulted on
/// [`Platform::Unknown`].
pub fn get_database_dir(platform: Platform, data_root: Option<PathBuf>) -> (progress: Progress<
    Resolving,
    StorageLocation,
>)
    ensures
        progress@ == begin_dir(platform, data_root),
{
    match platform {
        Platform::Unknown => Progress::Pending(Resolving::WorkingDir),
        Platform::Windows => match data_root {
            Some(root) => Progress::Pending(Resolving::Probing(StorageLocation::application(root))),
            None => Progress::Finished(
                Err(DatabaseError::DirectoryNotFound("AppData".to_owned())),
            ),
        },
        Platform::Linux => match data_root {
            Some(root) => Progress::Pending(Resolving::Probing(StorageLocation::application(root))),
            None => Progress::Finished(
                Err(DatabaseError::DirectoryNotFound(".local/share".to_owned())),
            ),
        },
    }
}

/// Takes the search for the storage directory one step further.
pub fn resume_database_dir(stage: Resolving, reply: Reply) -> (progress: Progress<
    Resolving,
    StorageLocation,
>)
    ensures
        progress@ == resume_dir(stage@, reply@),
        !answers(resolving_request(stage@), reply@) <==> progress@ == ProgressView::<
            ResolvingView,
            StorageLocationView,
        >::Pending(stage@),
{
    match (stage, reply) {
        (Resolving::WorkingDir, Reply::Found(root)) => Progress::Pending(
            Resolving::Probing(StorageLocation::fallback(root)),
        ),
        (Resolving::WorkingDir, Reply::Failed(cause)) => Progress::Finished(
            Err(DatabaseError::IoError(cause)),
        ),
        (Resolving::Probing(dir), Reply::Exists(true)) => Progress::Finished(Ok(dir)),
        (Resolving::Probing(dir), Reply::Exists(false)) => Progress::Pending(
            Resolving::Creating(dir),
        ),
        (Resolving::Creating(dir), Reply::Done) => Progress::Finished(Ok(dir)),
        (Resolving::Creating(dir), Reply::Failed(cause)) => Progress::Finished(
            Err(DatabaseError::IoError(cause)),
        ),
        (stage, _) => Progress::Pending(stage),
    }
}

fn join_file_name(progress: Progress<Resolving, StorageLocation>) -> (joined: Progress<
    Resolving,
    DatabasePath,
>)
    ensures
        joined@ == to_file(progress@),
{
    match progress {
        Progress::Pending(stage) => Progress::Pending(stage),
        Progress::Finished(Ok(dir)) => Progress::Finished(Ok(dir.database())),
        Progress::Finished(Err(error)) => Progress::Finished(Err(error)),
    }
}

/// Begins the search for the database file: the storage directory is found,
/// and created when missing, before the path of the file is handed out.
pub fn get_database_path(platform: Platform, data_root: Option<PathBuf>) -> (progress: Progress<
    Resolving,
    DatabasePath,
>)
    ensures
        progress@ == to_file(begin_dir(platform, data_root)),
{
    join_file_name(get_database_dir(platform, data_root))
}

/// Takes the search for the database file one step further.
pub fn resume_database_path(stage: Resolving, reply: Reply) -> (progress: Progress<
    Resolving,
    DatabasePath,
>)
    ensures
        progress@ == to_file(resume_dir(stage@, reply@)),
        !answers(resolving_request(stage@), reply@) <==> progress@ == ProgressView::<
            ResolvingView,
            DatabasePathView,
        >::Pending(stage@),
{
    join_file_name(resume_database_dir(stage, reply))
}

} // verus!
