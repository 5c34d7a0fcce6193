use model_catalog::paths::{get_database_path, get_db_path, DATABASE_DIR};
use std::path::{Path, PathBuf};

#[test]
fn the_database_lies_below_the_data_directory() {
    assert_eq!(DATABASE_DIR, "database");
    let found = get_db_path(Ok(PathBuf::from("/home/user/.local/share/app")));
    assert_eq!(found, Ok(Path::new("/home/user/.local/share/app").join("database")));
    assert_eq!(get_db_path(Ok(PathBuf::new())), Ok(PathBuf::from("database")));
}

#[test]
fn the_database_path_is_given_as_text() {
    let expected = Path::new("data").join("database").to_string_lossy().to_string();
    assert_eq!(get_database_path(Ok(PathBuf::from("data"))), Ok(expected));
}

#[test]
fn a_missing_data_directory_is_reported() {
    let reason = "unknown path".to_string();
    assert_eq!(
        get_db_path(Err(reason.clone())),
        Err("Failed to get app data dir: unknown path".to_string())
    );
    assert_eq!(
        get_database_path(Err(reason)),
        Err("Failed to get app data dir: unknown path".to_string())
    );
    assert_eq!(
        get_database_path(Err(String::new())),
        Err("Failed to get app data dir: ".to_string())
    );
}
