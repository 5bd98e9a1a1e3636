use db_store::error::DatabaseError;

#[test]
fn directory_not_found_names_the_directory() {
    let error = DatabaseError::DirectoryNotFound("AppData".to_string());
    assert_eq!(error.to_string(), "Directory not found: AppData");
}

#[test]
fn io_error_carries_its_cause() {
    let error = DatabaseError::IoError("permission denied".to_string());
    assert_eq!(error.to_string(), "IO error: permission denied");
}

#[test]
fn path_error_carries_its_detail() {
    let error = DatabaseError::PathError("bad name".to_string());
    assert_eq!(error.to_string(), "Database path error: bad name");
}

#[test]
fn file_not_found_has_a_fixed_text() {
    assert_eq!(DatabaseError::FileNotFound.to_string(), "Database file not found");
}

#[test]
fn file_empty_has_a_fixed_text() {
    assert_eq!(DatabaseError::FileEmpty.to_string(), "Database file is empty");
}

#[test]
fn an_empty_payload_leaves_the_prefix() {
    assert_eq!(DatabaseError::IoError(String::new()).to_string(), "IO error: ");
    assert_eq!(
        DatabaseError::DirectoryNotFound(String::new()).to_string(),
        "Directory not found: "
    );
}

#[test]
fn every_kind_has_a_text_of_its_own() {
    let texts = vec![
        DatabaseError::DirectoryNotFound("x".to_string()).to_string(),
        DatabaseError::IoError("x".to_string()).to_string(),
        DatabaseError::PathError("x".to_string()).to_string(),
        DatabaseError::FileNotFound.to_string(),
        DatabaseError::FileEmpty.to_string(),
    ];
    for (i, a) in texts.iter().enumerate() {
        for (j, b) in texts.iter().enumerate() {
            if i != j {
                assert_ne!(a, b);
            }
        }
    }
}
