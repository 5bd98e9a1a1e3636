//! The conversation between an operation and its host. An operation never
//! touches the file system: it names one step at a time as a [`Request`], the
//! host carries the step out and hands back a [`Reply`].

use crate::location::{DatabasePath, DatabasePathView, StorageLocation, StorageLocationView};
use std::path::PathBuf;
use vstd::prelude::*;

verus! {

/// One step that the host is asked to carry out.
#[derive(Debug, PartialEq, Eq)]
pub enum Request<'a> {
    /// Look up the working directory of the process.
    CurrentDir,
    /// Does this directory exist?
    DirectoryExists(&'a StorageLocation),
    /// Create this directory and every missing ancestor.
    CreateDirectory(&'a StorageLocation),
    /// Does this file exist?
    FileExists(&'a DatabasePath),
    /// Read the size of this file from its metadata.
    FileLength(&'a DatabasePath),
    /// Read this file in full.
    ReadFile(&'a DatabasePath),
    /// Delete this file.
    RemoveFile(&'a DatabasePath),
    /// Create this file with exactly these bytes.
    WriteFile(&'a DatabasePath, &'a Vec<u8>),
}

/// The mathematical value of a [`Request`].
pub enum RequestView {
    CurrentDir,
    DirectoryExists(StorageLocationView),
    CreateDirectory(StorageLocationView),
    FileExists(DatabasePathView),
    FileLength(DatabasePathView),
    ReadFile(DatabasePathView),
    RemoveFile(DatabasePathView),
    WriteFile(DatabasePathView, Seq<u8>),
}

impl<'a> View for Request<'a> {
    type V = RequestView;

    open spec fn view(&self) -> RequestView {
        match *self {
            Request::CurrentDir => RequestView::CurrentDir,
            Request::DirectoryExists(dir) => RequestView::DirectoryExists(dir@),
            Request::CreateDirectory(dir) => RequestView::CreateDirectory(dir@),
            Request::FileExists(path) => RequestView::FileExists(path@),
            Request::FileLength(path) => RequestView::FileLength(path@),
            Request::ReadFile(path) => RequestView::ReadFile(path@),
            Request::RemoveFile(path) => RequestView::RemoveFile(path@),
            Request::WriteFile(path, bytes) => RequestView::WriteFile(path@, bytes@),
        }
    }
}

/// What the host reports after carrying out a request.
#[derive(Debug, PartialEq, Eq)]
pub enum Reply {
    /// The directory that was looked up.
    Found(PathBuf),
    /// Whether the directory or file exists.
    Exists(bool),
    /// The size of the file in bytes.
    Length(u64),
    /// The whole contents of the file.
    Contents(Vec<u8>),
    /// The step was carried out and has nothing to report.
    Done,
    /// The step failed; the payload is the system's description of why.
    Failed(String),
}

/// The mathematical value of a [`Reply`].
pub enum ReplyView {
    Found(PathBuf),
    Exists(bool),
    Length(u64),
    Contents(Seq<u8>),
    Done,
    Failed(Seq<char>),
}

impl View for Reply {
    type V = ReplyView;

    open spec fn view(&self) -> ReplyView {
        match *self {
            Reply::Found(root) => ReplyView::Found(root),
            Reply::Exists(present) => ReplyView::Exists(present),
            Reply::Length(length) => ReplyView::Length(length),
            Reply::Contents(bytes) => ReplyView::Contents(bytes@),
            Reply::Done => ReplyView::Done,
            Reply::Failed(cause) => ReplyView::Failed(cause@),
        }
    }
}

/// Whether `reply` is a report that the step `request` can end with.
pub open spec fn answers(request: RequestView, reply: ReplyView) -> bool {
    match request {
        RequestView::CurrentDir => reply is Found || reply is Failed,
        RequestView::DirectoryExists(_) => reply is Exists,
        RequestView::CreateDirectory(_) => reply is Done || reply is Failed,
        RequestView::FileExists(_) => reply is Exists,
        RequestView::FileLength(_) => reply is Length || reply is Failed,
        RequestView::ReadFile(_) => reply is Contents || reply is Failed,
        RequestView::RemoveFile(_) => reply is Done || reply is Failed,
        RequestView::WriteFile(_, _) => reply is Done || reply is Failed,
    }
}

} // verus!
