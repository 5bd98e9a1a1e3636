use db_store::error::DatabaseError;
use db_store::host::{Reply, Request};
use db_store::location::{DatabasePath, StorageLocation, APP_NAME, DB_NAME, FALLBACK_DIR};
use db_store::platform::Platform;
use db_store::progress::Progress;
use db_store::resolver::{
    get_database_dir, get_database_path, resume_database_dir, resume_database_path, Resolving,
};
use std::path::PathBuf;

fn dir(root: &str, folder: &str) -> StorageLocation {
    StorageLocation { root: PathBuf::from(root), folder: folder.to_string() }
}

fn file(root: &str, folder: &str) -> DatabasePath {
    DatabasePath { directory: dir(root, folder), file_name: DB_NAME.to_string() }
}

#[test]
fn the_fixed_names() {
    assert_eq!(FALLBACK_DIR, "database");
    assert!(!APP_NAME.is_empty());
    assert!(!DB_NAME.is_empty());
}

#[test]
fn storage_location_builders() {
    assert_eq!(StorageLocation::application(PathBuf::from("/data")), dir("/data", APP_NAME));
    assert_eq!(StorageLocation::fallback(PathBuf::from("/work")), dir("/work", "database"));
    assert_eq!(dir("/work", "database").database(), file("/work", "database"));
}

#[test]
fn windows_without_data_dir_fails() {
    assert_eq!(
        get_database_dir(Platform::Windows, None),
        Progress::Finished(Err(DatabaseError::DirectoryNotFound("AppData".to_string())))
    );
}

#[test]
fn linux_without_data_dir_fails() {
    assert_eq!(
        get_database_dir(Platform::Linux, None),
        Progress::Finished(Err(DatabaseError::DirectoryNotFound(".local/share".to_string())))
    );
}

#[test]
fn windows_probes_the_application_folder() {
    let progress = get_database_dir(Platform::Windows, Some(PathBuf::from("C:\\Users\\a\\AppData\\Roaming")));
    assert_eq!(
        progress,
        Progress::Pending(Resolving::Probing(dir("C:\\Users\\a\\AppData\\Roaming", APP_NAME)))
    );
}

#[test]
fn linux_probes_the_application_folder() {
    let progress = get_database_dir(Platform::Linux, Some(PathBuf::from("/home/a/.local/share")));
    let expected = dir("/home/a/.local/share", APP_NAME);
    match progress {
        Progress::Pending(stage) => {
            assert_eq!(stage.request(), Request::DirectoryExists(&expected));
            assert_eq!(stage, Resolving::Probing(dir("/home/a/.local/share", APP_NAME)));
        }
        Progress::Finished(_) => panic!("the search cannot end before the directory is probed"),
    }
}

#[test]
fn other_platforms_ask_for_the_working_directory() {
    let progress = get_database_dir(Platform::Unknown, None);
    match progress {
        Progress::Pending(stage) => {
            assert_eq!(stage.request(), Request::CurrentDir);
            assert_eq!(stage, Resolving::WorkingDir);
        }
        Progress::Finished(_) => panic!("the search cannot end before the working directory is known"),
    }
}

#[test]
fn other_platforms_ignore_the_data_dir() {
    assert_eq!(
        get_database_dir(Platform::Unknown, Some(PathBuf::from("/home/a/.local/share"))),
        Progress::Pending(Resolving::WorkingDir)
    );
}

#[test]
fn fallback_directory_is_created_when_absent() {
    let progress = get_database_dir(Platform::Unknown, None);
    let stage = match progress {
        Progress::Pending(stage) => stage,
        Progress::Finished(_) => panic!("ended early"),
    };
    let progress = resume_database_dir(stage, Reply::Found(PathBuf::from("/work")));
    assert_eq!(progress, Progress::Pending(Resolving::Probing(dir("/work", "database"))));
    let progress = resume_database_dir(Resolving::Probing(dir("/work", "database")), Reply::Exists(false));
    let stage = match progress {
        Progress::Pending(stage) => stage,
        Progress::Finished(_) => panic!("a missing directory must be created"),
    };
    assert_eq!(stage.request(), Request::CreateDirectory(&dir("/work", "database")));
    assert_eq!(
        resume_database_dir(stage, Reply::Done),
        Progress::Finished(Ok(dir("/work", "database")))
    );
}

#[test]
fn existing_directory_is_not_created_again() {
    assert_eq!(
        resume_database_dir(Resolving::Probing(dir("/work", "database")), Reply::Exists(true)),
        Progress::Finished(Ok(dir("/work", "database")))
    );
}

#[test]
fn working_directory_failure_is_an_io_error() {
    assert_eq!(
        resume_database_dir(Resolving::WorkingDir, Reply::Failed("gone".to_string())),
        Progress::Finished(Err(DatabaseError::IoError("gone".to_string())))
    );
}

#[test]
fn creation_failure_is_an_io_error() {
    assert_eq!(
        resume_database_dir(
            Resolving::Creating(dir("/work", "database")),
            Reply::Failed("read-only file system".to_string())
        ),
        Progress::Finished(Err(DatabaseError::IoError("read-only file system".to_string())))
    );
}

#[test]
fn a_reply_to_another_request_changes_nothing() {
    assert_eq!(
        resume_database_dir(Resolving::WorkingDir, Reply::Exists(true)),
        Progress::Pending(Resolving::WorkingDir)
    );
    assert_eq!(
        resume_database_dir(Resolving::Probing(dir("/work", "database")), Reply::Done),
        Progress::Pending(Resolving::Probing(dir("/work", "database")))
    );
    assert_eq!(
        resume_database_dir(
            Resolving::Probing(dir("/work", "database")),
            Reply::Failed("no".to_string())
        ),
        Progress::Pending(Resolving::Probing(dir("/work", "database")))
    );
    assert_eq!(
        resume_database_dir(Resolving::Creating(dir("/work", "database")), Reply::Length(3)),
        Progress::Pending(Resolving::Creating(dir("/work", "database")))
    );
    assert_eq!(
        resume_database_dir(Resolving::Creating(dir("/work", "database")), Reply::Contents(vec![1])),
        Progress::Pending(Resolving::Creating(dir("/work", "database")))
    );
}

#[test]
fn the_path_is_the_directory_with_the_file_name() {
    assert_eq!(
        resume_database_path(Resolving::Probing(dir("/data", APP_NAME)), Reply::Exists(true)),
        Progress::Finished(Ok(file("/data", APP_NAME)))
    );
    assert_eq!(
        resume_database_path(Resolving::Creating(dir("/work", "database")), Reply::Done),
        Progress::Finished(Ok(file("/work", "database")))
    );
}

#[test]
fn the_path_search_starts_as_the_directory_search() {
    assert_eq!(
        get_database_path(Platform::Linux, Some(PathBuf::from("/data"))),
        Progress::Pending(Resolving::Probing(dir("/data", APP_NAME)))
    );
    assert_eq!(get_database_path(Platform::Unknown, None), Progress::Pending(Resolving::WorkingDir));
    assert_eq!(
        get_database_path(Platform::Windows, None),
        Progress::Finished(Err(DatabaseError::DirectoryNotFound("AppData".to_string())))
    );
}

#[test]
fn the_path_search_passes_failures_on() {
    assert_eq!(
        resume_database_path(Resolving::WorkingDir, Reply::Failed("gone".to_string())),
        Progress::Finished(Err(DatabaseError::IoError("gone".to_string())))
    );
    assert_eq!(
        resume_database_path(Resolving::Probing(dir("/data", APP_NAME)), Reply::Exists(false)),
        Progress::Pending(Resolving::Creating(dir("/data", APP_NAME)))
    );
}
