//! The two operations on the database file: export its bytes, and replace it
//! wholesale with new bytes.

use crate::error::{DatabaseError, DatabaseErrorView};
use crate::host::{answers, Reply, ReplyView, Request, RequestView};
use crate::location::{DatabasePath, DatabasePathView};
use crate::platform::Platform;
use crate::progress::{Progress, ProgressView};
use crate::resolver::{
    begin_dir, get_database_path, resolving_request, resume_database_path, resume_dir, to_file,
    Resolving, ResolvingView,
};
use std::path::PathBuf;
use vstd::prelude::*;

verus! {

/// A point at which an export waits for its host.
#[derive(Debug, PartialEq, Eq)]
pub enum Exporting {
    /// The database file is being located.
    Locating(Resolving),
    /// Waiting to learn whether the database file exists.
    Checking(DatabasePath),
    /// Waiting for the size of the database file.
    Measuring(DatabasePath),
    /// Waiting for the contents of the database file.
    Reading(DatabasePath),
}

/// The mathematical value of an [`Exporting`].
pub enum ExportingView {
    Locating(ResolvingView),
    Checking(DatabasePathView),
    Measuring(DatabasePathView),
    Reading(DatabasePathView),
}

impl View for Exporting {
    type V = ExportingView;

    open spec fn view(&self) -> ExportingView {
        match *self {
            Exporting::Locating(stage) => ExportingView::Locating(stage@),
            Exporting::Checking(path) => ExportingView::Checking(path@),
            Exporting::Measuring(path) => ExportingView::Measuring(path@),
            Exporting::Reading(path) => ExportingView::Reading(path@),
        }
    }
}

/// The request that a stage of an export waits on.
pub open spec fn exporting_request(stage: ExportingView) -> RequestView {
    match stage {
        ExportingView::Locating(inner) => resolving_request(inner),
        ExportingView::Checking(path) => RequestView::FileExists(path),
        ExportingView::Measuring(path) => RequestView::FileLength(path),
        ExportingView::Reading(path) => RequestView::ReadFile(path),
    }
}

/// What an export does once the search for the database file has moved: it
/// goes on searching, starts on the file that was found, or fails as the
/// search did.
pub open spec fn export_located(located: ProgressView<ResolvingView, DatabasePathView>)
    -> ProgressView<ExportingView, Seq<u8>> {
    match located {
        ProgressView::Pending(stage) => ProgressView::Pending(ExportingView::Locating(stage)),
        ProgressView::Finished(Ok(path)) => ProgressView::Pending(ExportingView::Checking(path)),
        ProgressView::Finished(Err(error)) => ProgressView::Finished(Err(error)),
    }
}

/// How an export begins on `platform`, given the per-user data directory
/// that the operating system offers.
pub open spec fn begin_export(platform: Platform, data_root: Option<PathBuf>) -> ProgressView<
    ExportingView,
    Seq<u8>,
> {
    export_located(to_file(begin_dir(platform, data_root)))
}

/// How an export goes on from `stage` when the host reports `reply`. A file
/// that is missing or empty is never read; a reply that does not answer the
/// stage's request leaves the export where it is.
pub open spec fn resume_export(stage: ExportingView, reply: ReplyView) -> ProgressView<
    ExportingView,
    Seq<u8>,
> {
    match (stage, reply) {
        (ExportingView::Locating(inner), _) => export_located(to_file(resume_dir(inner, reply))),
        (ExportingView::Checking(path), ReplyView::Exists(true)) => ProgressView::Pending(
            ExportingView::Measuring(path),
        ),
        (ExportingView::Checking(path), ReplyView::Exists(false)) => ProgressView::Finished(
            Err(DatabaseErrorView::FileNotFound),
        ),
        (ExportingView::Measuring(path), ReplyView::Length(length)) => if length == 0 {
            ProgressView::Finished(Err(DatabaseErrorView::FileEmpty))
        } else {
            ProgressView::Pending(ExportingView::Reading(path))
        },
        (ExportingView::Measuring(path), ReplyView::Failed(cause)) => ProgressView::Finished(
            Err(DatabaseErrorView::IoError(cause)),
        ),
        (ExportingView::Reading(path), ReplyView::Contents(bytes)) => ProgressView::Finished(
            Ok(bytes),
        ),
        (ExportingView::Reading(path), ReplyView::Failed(cause)) => ProgressView::Finished(
            Err(DatabaseErrorView::IoError(cause)),
        ),
        _ => ProgressView::Pending(stage),
    }
}

impl Exporting {
    /// The request that this stage waits on.
    pub fn request(&self) -> (request: Request<'_>)
        ensures
            request@ == exporting_request(self@),
    {
        match self {
            Exporting::Locating(inner) => inner.request(),
            Exporting::Checking(path) => Request::FileExists(path),
            Exporting::Measuring(path) => Request::FileLength(path),
            Exporting::Reading(path) => Request::ReadFile(path),
        }
    }
}

fn export_from(located: Progress<Resolving, DatabasePath>) -> (progress: Progress<
    Exporting,
    Vec<u8>,
>)
    ensures
        progress@ == export_located(located@),
{
    match located {
        Progress::Pending(stage) => Progress::Pending(Exporting::Locating(stage)),
        Progress::Finished(Ok(path)) => Progress::Pending(Exporting::Checking(path)),
        Progress::Finished(Err(error)) => Progress::Finished(Err(error)),
    }
}

/// Begins an export of the database file. `data_root` is the per-user data
/// directory that the operating system offers.
pub fn download_database(platform: Platform, data_root: Option<PathBuf>) -> (progress: Progress<
    Exporting,
    Vec<u8>,
>)
    ensures
        progress@ == begin_export(platform, data_root),
{
    export_from(get_database_path(platform, data_root))
}

/// Takes an export one step further.
pub fn resume_download_database(stage: Exporting, reply: Reply) -> (progress: Progress<Exporting, Vec<u8>>)
    ensures
        progress@ == resume_export(stage@, reply@),
        !answers(exporting_request(stage@), reply@) <==> progress@ == ProgressView::<
            ExportingView,
            Seq<u8>,
        >::Pending(stage@),
{
    match (stage, reply) {
        (Exporting::Locating(inner), reply) => export_from(resume_database_path(inner, reply)),
        (Exporting::Checking(path), Reply::Exists(true)) => Progress::Pending(
            Exporting::Measuring(path),
        ),
        (Exporting::Checking(_), Reply::Exists(false)) => Progress::Finished(
            Err(DatabaseError::FileNotFound),
        ),
        (Exporting::Measuring(path), Reply::Length(length)) => if length == 0 {
            Progress::Finished(Err(DatabaseError::FileEmpty))
        } else {
            Progress::Pending(Exporting::Reading(path))
        },
        (Exporting::Measuring(_), Reply::Failed(cause)) => Progress::Finished(
            Err(DatabaseError::IoError(cause)),
        ),
        (Exporting::Reading(_), Reply::Contents(bytes)) => Progress::Finished(Ok(bytes)),
        (Exporting::Reading(_), Reply::Failed(cause)) => Progress::Finished(
            Err(DatabaseError::IoError(cause)),
        ),
        (stage, _) => Progress::Pending(stage),
    }
}

/// A point at which a replacement waits for its host. Every stage carries the
/// bytes that are to become the database file.
#[derive(Debug, PartialEq, Eq)]
pub enum Replacing {
    /// The database file is being located.
    Locating(Resolving, Vec<u8>),
    /// Waiting to learn whether a database file is already there.
    Checking(DatabasePath, Vec<u8>),
    /// Waiting for the old database file to be deleted.
    Removing(DatabasePath, Vec<u8>),
    /// Waiting for the new database file to be written.
    Writing(DatabasePath, Vec<u8>),
}

/// The mathematical value of a [`Replacing`].
pub enum ReplacingView {
    Locating(ResolvingView, Seq<u8>),
    Checking(DatabasePathView, Seq<u8>),
    Removing(DatabasePathView, Seq<u8>),
    Writing(DatabasePathView, Seq<u8>),
}

impl View for Replacing {
    type V = ReplacingView;

    open spec fn view(&self) -> ReplacingView {
        match *self {
            Replacing::Locating(stage, bytes) => ReplacingView::Locating(stage@, bytes@),
            Replacing::Checking(path, bytes) => ReplacingView::Checking(path@, bytes@),
            Replacing::Removing(path, bytes) => ReplacingView::Removing(path@, bytes@),
            Replacing::Writing(path, bytes) => ReplacingView::Writing(path@, bytes@),
        }
    }
}

/// The request that a stage of a replacement waits on.
pub open spec fn replacing_request(stage: ReplacingView) -> RequestView {
    match stage {
        ReplacingView::Locating(inner, _) => resolving_request(inner),
        ReplacingView::Checking(path, _) => RequestView::FileExists(path),
        ReplacingView::Removing(path, _) => RequestView::RemoveFile(path),
        ReplacingView::Writing(path, bytes) => RequestView::WriteFile(path, bytes),
    }
}

/// What a replacement with `bytes` does once the search for the database
/// file has moved: it goes on searching, starts on the file that was found,
/// or fails as the search did.
pub open spec fn replace_located(
    located: ProgressView<ResolvingView, DatabasePathView>,
    bytes: Seq<u8>,
) -> ProgressView<ReplacingView, ()> {
    match located {
        ProgressView::Pending(stage) => ProgressView::Pending(
            ReplacingView::Locating(stage, bytes),
        ),
        ProgressView::Finished(Ok(path)) => ProgressView::Pending(
            ReplacingView::Checking(path, bytes),
        ),
        ProgressView::Finished(Err(error)) => ProgressView::Finished(Err(error)),
    }
}

/// How a replacement with `bytes` begins on `platform`, given the per-user
/// data directory that the operating system offers.
pub open spec fn begin_replace(platform: Platform, data_root: Option<PathBuf>, bytes: Seq<u8>)
    -> ProgressView<ReplacingView, ()> {
    replace_located(to_file(begin_dir(platform, data_root)), bytes)
}

/// How a replacement goes on from `stage` when the host reports `reply`. A
/// file that is already there is deleted before the new one is written, and
/// a deletion that succeeds is followed by the write. A reply that does not
/// answer the stage's request leaves the replacement where it is.
pub open spec fn resume_replace(stage: ReplacingView, reply: ReplyView) -> ProgressView<
    ReplacingView,
    (),
> {
    match (stage, reply) {
        (ReplacingView::Locating(inner, bytes), _) => replace_located(
            to_file(resume_dir(inner, reply)),
            bytes,
        ),
        (ReplacingView::Checking(path, bytes), ReplyView::Exists(true)) => ProgressView::Pending(
            ReplacingView::Removing(path, bytes),
        ),
        (ReplacingView::Checking(path, bytes), ReplyView::Exists(false)) => ProgressView::Pending(
            ReplacingView::Writing(path, bytes),
        ),
        (ReplacingView::Removing(path, bytes), ReplyView::Done) => ProgressView::Pending(
            ReplacingView::Writing(path, bytes),
        ),
        (ReplacingView::Removing(path, bytes), ReplyView::Failed(cause)) => ProgressView::Finished(
            Err(DatabaseErrorView::IoError(cause)),
        ),
        (ReplacingView::Writing(path, bytes), ReplyView::Done) => ProgressView::Finished(Ok(())),
        (ReplacingView::Writing(path, bytes), ReplyView::Failed(cause)) => ProgressView::Finished(
            Err(DatabaseErrorView::IoError(cause)),
        ),
        _ => ProgressView::Pending(stage),
    }
}

impl Replacing {
    /// The request that this stage waits on.
    pub fn request(&self) -> (request: Request<'_>)
        ensures
            request@ == replacing_request(self@),
    {
        match self {
            Replacing::Locating(inner, _) => inner.request(),
            Replacing::Checking(path, _) => Request::FileExists(path),
            Replacing::Removing(path, _) => Request::RemoveFile(path),
            Replacing::Writing(path, bytes) => Request::WriteFile(path, bytes),
        }
    }
}

fn replace_from(located: Progress<Resolving, DatabasePath>, bytes: Vec<u8>) -> (progress: Progress<
    Replacing,
    (),
>)
    ensures
        progress@ == replace_located(located@, bytes@),
{
    match located {
        Progress::Pending(stage) => Progress::Pending(Replacing::Locating(stage, bytes)),
        Progress::Finished(Ok(path)) => Progress::Pending(Replacing::Checking(path, bytes)),
        Progress::Finished(Err(error)) => Progress::Finished(Err(error)),
    }
}

/// Begins the replacement of the database file with `new_db_data`.
/// `data_root` is the per-user data directory that the operating system
/// offers.
pub fn replace_database(platform: Platform, data_root: Option<PathBuf>, new_db_data: Vec<u8>) -> (progress:
    Progress<Replacing, ()>)
    ensures
        progress@ == begin_replace(platform, data_root, new_db_data@),
{
    replace_from(get_database_path(platform, data_root), new_db_data)
}

/// Takes a replacement one step further.
pub fn resume_replace_database(stage: Replacing, reply: Reply) -> (progress: Progress<Replacing, ()>)
    ensures
        progress@ == resume_replace(stage@, reply@),
        !answers(replacing_request(stage@), reply@) <==> progress@ == ProgressView::<
            ReplacingView,
            (),
        >::Pending(stage@),
{
    match (stage, reply) {
        (Replacing::Locating(inner, bytes), reply) => replace_from(
            resume_database_path(inner, reply),
            bytes,
        ),
        (Replacing::Checking(path, bytes), Reply::Exists(true)) => Progress::Pending(
            Replacing::Removing(path, bytes),
        ),
        (Replacing::Checking(path, bytes), Reply::Exists(false)) => Progress::Pending(
            Replacing::Writing(path, bytes),
        ),
        (Replacing::Removing(path, bytes), Reply::Done) => Progress::Pending(
            Replacing::Writing(path, bytes),
        ),
        (Replacing::Removing(_, _), Reply::Failed(cause)) => Progress::Finished(
            Err(DatabaseError::IoError(cause)),
        ),
        (Replacing::Writing(_, _), Reply::Done) => Progress::Finished(Ok(())),
        (Replacing::Writing(_, _), Reply::Failed(cause)) => Progress::Finished(
            Err(DatabaseError::IoError(cause)),
        ),
        (stage, _) => Progress::Pending(stage),
    }
}

} // verus!
