//! A model of a host that never fails on its own account: the directories and
//! files of a machine as mathematical values, and what each operation comes
//! to when every request is carried out against them.

use crate::host::{ReplyView, RequestView};
use crate::location::{application_dir, fallback_dir, DatabasePathView, StorageLocationView};
use crate::platform::Platform;
use crate::progress::ProgressView;
use crate::resolver::{begin_dir, resolving_request, resume_dir, ResolvingView};
use crate::store::{
    begin_export, begin_replace, exporting_request, replacing_request, resume_export,
    resume_replace, ExportingView, ReplacingView,
};
use std::path::PathBuf;
use vstd::prelude::*;

verus! {

/// The part of a machine that the operations depend on.
pub struct World {
    /// The per-user data directory that the operating system offers.
    pub data_dir: Option<PathBuf>,
    /// The working directory of the process.
    pub working_dir: PathBuf,
    /// The storage directories that exist.
    pub directories: Set<StorageLocationView>,
    /// The database files that exist, each with its contents.
    pub files: Map<DatabasePathView, Seq<u8>>,
}

impl World {
    /// Every file has a size that its metadata can hold.
    pub open spec fn well_formed(self) -> bool {
        forall|path: DatabasePathView| #[trigger]
            self.files.contains_key(path) ==> self.files[path].len() <= u64::MAX
    }
}

/// The description with which the model reports a step on something that is
/// not there.
pub open spec fn not_found() -> Seq<char> {
    "No such file or directory"@
}

/// Carries out `request` against `world`: the world afterwards, and the
/// reply. A step fails only where what it needs is not there.
pub open spec fn serve(world: World, request: RequestView) -> (World, ReplyView) {
    match request {
        RequestView::CurrentDir => (world, ReplyView::Found(world.working_dir)),
        RequestView::DirectoryExists(dir) => (
            world,
            ReplyView::Exists(world.directories.contains(dir)),
        ),
        RequestView::CreateDirectory(dir) => (
            World { directories: world.directories.insert(dir), ..world },
            ReplyView::Done,
        ),
        RequestView::FileExists(path) => (world, ReplyView::Exists(world.files.contains_key(path))),
        RequestView::FileLength(path) => if world.files.contains_key(path) {
            (world, ReplyView::Length(world.files[path].len() as u64))
        } else {
            (world, ReplyView::Failed(not_found()))
        },
        RequestView::ReadFile(path) => if world.files.contains_key(path) {
            (world, ReplyView::Contents(world.files[path]))
        } else {
            (world, ReplyView::Failed(not_found()))
        },
        RequestView::RemoveFile(path) => if world.files.contains_key(path) {
            (World { files: world.files.remove(path), ..world }, ReplyView::Done)
        } else {
            (world, ReplyView::Failed(not_found()))
        },
        RequestView::WriteFile(path, bytes) => if world.directories.contains(path.directory) {
            (World { files: world.files.insert(path, bytes), ..world }, ReplyView::Done)
        } else {
            (world, ReplyView::Failed(not_found()))
        },
    }
}

/// The search for the storage directory, taken up to `fuel` steps further
/// against `world`.
pub open spec fn run_dir(
    world: World,
    progress: ProgressView<ResolvingView, StorageLocationView>,
    fuel: nat,
) -> (World, ProgressView<ResolvingView, StorageLocationView>)
    decreases fuel,
{
    match progress {
        ProgressView::Pending(stage) if fuel > 0 => {
            let (next, reply) = serve(world, resolving_request(stage));
            run_dir(next, resume_dir(stage, reply), (fuel - 1) as nat)
        },
        _ => (world, progress),
    }
}

/// An export, taken up to `fuel` steps further against `world`.
pub open spec fn run_export(
    world: World,
    progress: ProgressView<ExportingView, Seq<u8>>,
    fuel: nat,
) -> (World, ProgressView<ExportingView, Seq<u8>>)
    decreases fuel,
{
    match progress {
        ProgressView::Pending(stage) if fuel > 0 => {
            let (next, reply) = serve(world, exporting_request(stage));
            run_export(next, resume_export(stage, reply), (fuel - 1) as nat)
        },
        _ => (world, progress),
    }
}

/// A replacement, taken up to `fuel` steps further against `world`.
pub open spec fn run_replace(
    world: World,
    progress: ProgressView<ReplacingView, ()>,
    fuel: nat,
) -> (World, ProgressView<ReplacingView, ()>)
    decreases fuel,
{
    match progress {
        ProgressView::Pending(stage) if fuel > 0 => {
            let (next, reply) = serve(world, replacing_request(stage));
            run_replace(next, resume_replace(stage, reply), (fuel - 1) as nat)
        },
        _ => (world, progress),
    }
}

/// The most requests that a search for the storage directory makes.
pub open spec fn dir_steps() -> nat {
    3
}

/// The most requests that an export or a replacement makes.
pub open spec fn file_steps() -> nat {
    6
}

/// The search for the storage directory on `platform`, run against `world`.
pub open spec fn resolve_directory(world: World, platform: Platform) -> (
    World,
    ProgressView<ResolvingView, StorageLocationView>,
) {
    run_dir(world, begin_dir(platform, world.data_dir), dir_steps())
}

/// An export on `platform`, run against `world`.
pub open spec fn export(world: World, platform: Platform) -> (
    World,
    ProgressView<ExportingView, Seq<u8>>,
) {
    run_export(world, begin_export(platform, world.data_dir), file_steps())
}

/// A replacement with `bytes` on `platform`, run against `world`.
pub open spec fn replace(world: World, platform: Platform, bytes: Seq<u8>) -> (
    World,
    ProgressView<ReplacingView, ()>,
) {
    run_replace(world, begin_replace(platform, world.data_dir, bytes), file_steps())
}

/// The storage directory that `platform` calls for in `world`, where there
/// is one.
pub open spec fn storage_dir(world: World, platform: Platform) -> Option<StorageLocationView> {
    match platform {
        Platform::Unknown => Some(fallback_dir(world.working_dir)),
        _ => match world.data_dir {
            Some(root) => Some(application_dir(root)),
            None => None,
        },
    }
}

} // verus!
