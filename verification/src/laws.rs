//! What holds of the operations on every machine whose host carries out
//! each request without failing on its own account.

use crate::error::DatabaseErrorView;
use crate::host::ReplyView;
use crate::location::{database_file, fallback_dir};
use crate::model::{
    export, replace, resolve_directory, run_dir, run_export, run_replace, storage_dir, World,
};
use crate::platform::Platform;
use crate::progress::ProgressView;
use crate::resolver::data_dir_label;
use crate::store::{
    begin_export, begin_replace, resume_export, resume_replace, ExportingView, ReplacingView,
};
use std::path::PathBuf;
use vstd::prelude::*;

verus! {

/// The search for the storage directory always ends. It ends with the
/// directory that the platform calls for, which exists afterwards, and with
/// every file as it was; or, where the operating system offers no per-user
/// data directory on a platform that needs one, with `DirectoryNotFound` and
/// the world untouched.
pub proof fn resolve_directory_creates(world: World, platform: Platform)
    ensures
        match storage_dir(world, platform) {
            Some(dir) => {
                &&& resolve_directory(world, platform).1.gives(dir)
                &&& resolve_directory(world, platform).0.directories.contains(dir)
                &&& resolve_directory(world, platform).0 == World {
                    directories: world.directories.insert(dir),
                    ..world
                }
            },
            None => {
                &&& resolve_directory(world, platform).1.fails_with(
                    DatabaseErrorView::DirectoryNotFound(data_dir_label(platform)),
                )
                &&& resolve_directory(world, platform).0 == world
            },
        },
{
    reveal_with_fuel(run_dir, 4);
    match storage_dir(world, platform) {
        Some(dir) => {
            assert(world.directories.contains(dir) ==> world.directories.insert(dir)
                =~= world.directories);
        },
        None => {},
    }
}

/// On a platform without a storage policy of its own the search never fails
/// with `DirectoryNotFound`, whether or not the operating system offers a
/// per-user data directory: it ends with the folder below the working
/// directory.
pub proof fn resolve_directory_falls_back(world: World)
    ensures
        resolve_directory(world, Platform::Unknown).1.gives(fallback_dir(world.working_dir)),
{
    resolve_directory_creates(world, Platform::Unknown);
}

/// Searching for the storage directory a second time ends as the first time
/// did, and changes nothing: a directory that is already there is no
/// failure.
pub proof fn resolve_directory_idempotent(world: World, platform: Platform)
    ensures
        resolve_directory(resolve_directory(world, platform).0, platform) == resolve_directory(
            world,
            platform,
        ),
{
    let first = resolve_directory(world, platform);
    resolve_directory_creates(world, platform);
    resolve_directory_creates(first.0, platform);
    match storage_dir(world, platform) {
        Some(dir) => {
            assert(first.0.directories.insert(dir) =~= first.0.directories);
        },
        None => {},
    }
}

/// What an export comes to. It fails as the search for the storage directory
/// does; with `FileNotFound` where there is no database file; with
/// `FileEmpty` where the file holds no bytes; and otherwise gives the file's
/// contents, whole. It leaves every file as it was.
pub proof fn export_outcome(world: World, platform: Platform)
    requires
        world.well_formed(),
    ensures
        export(world, platform).0 == resolve_directory(world, platform).0,
        match storage_dir(world, platform) {
            Some(dir) => {
                let file = database_file(dir);
                if !world.files.contains_key(file) {
                    export(world, platform).1.fails_with(DatabaseErrorView::FileNotFound)
                } else if world.files[file].len() == 0 {
                    export(world, platform).1.fails_with(DatabaseErrorView::FileEmpty)
                } else {
                    export(world, platform).1.gives(world.files[file])
                }
            },
            None => export(world, platform).1.fails_with(
                DatabaseErrorView::DirectoryNotFound(data_dir_label(platform)),
            ),
        },
{
    reveal_with_fuel(run_dir, 4);
    reveal_with_fuel(run_export, 7);
}

/// What a replacement comes to. It fails as the search for the storage
/// directory does, and otherwise succeeds: afterwards the database file
/// holds exactly the new bytes, whatever was there before, and every other
/// file is as it was.
pub proof fn replace_outcome(world: World, platform: Platform, bytes: Seq<u8>)
    ensures
        match storage_dir(world, platform) {
            Some(dir) => {
                &&& replace(world, platform, bytes).1.gives(())
                &&& replace(world, platform, bytes).0 == World {
                    directories: world.directories.insert(dir),
                    files: world.files.insert(database_file(dir), bytes),
                    ..world
                }
            },
            None => {
                &&& replace(world, platform, bytes).1.fails_with(
                    DatabaseErrorView::DirectoryNotFound(data_dir_label(platform)),
                )
                &&& replace(world, platform, bytes).0 == world
            },
        },
{
    reveal_with_fuel(run_replace, 7);
    match storage_dir(world, platform) {
        Some(dir) => {
            let file = database_file(dir);
            assert(world.directories.contains(dir) ==> world.directories.insert(dir)
                =~= world.directories);
            assert(world.files.remove(file).insert(file, bytes) =~= world.files.insert(
                file,
                bytes,
            ));
        },
        None => {},
    }
}

/// Where no database file has been written, an export fails with
/// `FileNotFound`.
pub proof fn export_without_file(world: World, platform: Platform)
    requires
        storage_dir(world, platform) is Some,
        !world.files.contains_key(database_file(storage_dir(world, platform)->0)),
    ensures
        export(world, platform).1.fails_with(DatabaseErrorView::FileNotFound),
{
    reveal_with_fuel(run_export, 7);
}

/// An export reads and does not write: every file is afterwards as it was,
/// and a second export ends as the first did.
pub proof fn export_repeatable(world: World, platform: Platform)
    requires
        world.well_formed(),
    ensures
        export(world, platform).0.files == world.files,
        export(export(world, platform).0, platform).1 == export(world, platform).1,
{
    let after = export(world, platform).0;
    export_outcome(world, platform);
    resolve_directory_creates(world, platform);
    export_outcome(after, platform);
}

/// A replacement needs no database file to be there beforehand: it succeeds
/// without one, and afterwards the file exists with exactly the new bytes.
pub proof fn replace_creates_file(world: World, platform: Platform, bytes: Seq<u8>)
    requires
        storage_dir(world, platform) is Some,
        !world.files.contains_key(database_file(storage_dir(world, platform)->0)),
    ensures
        replace(world, platform, bytes).1.gives(()),
        replace(world, platform, bytes).0.files.contains_key(
            database_file(storage_dir(world, platform)->0),
        ),
        replace(world, platform, bytes).0.files[database_file(storage_dir(world, platform)->0)]
            == bytes,
{
    replace_outcome(world, platform, bytes);
}

/// An export that follows a replacement gives back exactly the bytes that
/// were written, unless there were none: after a replacement with no bytes
/// an export fails with `FileEmpty`.
pub proof fn replace_then_export(world: World, platform: Platform, bytes: Seq<u8>)
    requires
        bytes.len() <= u64::MAX,
        replace(world, platform, bytes).1.gives(()),
    ensures
        bytes.len() > 0 ==> export(replace(world, platform, bytes).0, platform).1.gives(bytes),
        bytes.len() == 0 ==> export(replace(world, platform, bytes).0, platform).1.fails_with(
            DatabaseErrorView::FileEmpty,
        ),
{
    replace_outcome(world, platform, bytes);
    reveal_with_fuel(run_export, 7);
}

/// Of two replacements in a row only the second counts: the database file
/// afterwards holds exactly the second bytes, and an export gives them back.
pub proof fn replace_twice_then_export(
    world: World,
    platform: Platform,
    first: Seq<u8>,
    second: Seq<u8>,
)
    requires
        0 < second.len() <= u64::MAX,
        replace(world, platform, first).1.gives(()),
    ensures
        replace(replace(world, platform, first).0, platform, second).1.gives(()),
        replace(replace(world, platform, first).0, platform, second).0.files[database_file(
            storage_dir(world, platform)->0,
        )] == second,
        export(
            replace(replace(world, platform, first).0, platform, second).0,
            platform,
        ).1.gives(second),
{
    let once = replace(world, platform, first).0;
    replace_outcome(world, platform, first);
    replace_outcome(once, platform, second);
    replace_then_export(once, platform, second);
}

/// No step of an export or of a replacement ends with `PathError`, whatever
/// the host reports: that kind of failure is never produced.
pub proof fn path_error_is_never_produced(
    platform: Platform,
    data_root: Option<PathBuf>,
    bytes: Seq<u8>,
    exporting: ExportingView,
    replacing: ReplacingView,
    reply: ReplyView,
)
    ensures
        !(begin_export(platform, data_root) matches ProgressView::Finished(Err(error))
            && error is PathError),
        !(resume_export(exporting, reply) matches ProgressView::Finished(Err(error))
            && error is PathError),
        !(begin_replace(platform, data_root, bytes) matches ProgressView::Finished(Err(error))
            && error is PathError),
        !(resume_replace(replacing, reply) matches ProgressView::Finished(Err(error))
            && error is PathError),
{
}

} // verus!
