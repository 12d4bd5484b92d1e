use clinicdesk::paths::{backup_file_name, database_path, join_path};
use clinicdesk::{backup_plan, BackupError, BackupPlan, StorageConfig};

fn config() -> StorageConfig {
    StorageConfig {
        data_dir: "/home/u/.local/share/clinicdesk".to_string(),
        backup_dir: "/tmp/".to_string(),
    }
}

#[test]
fn backup_name_carries_the_date() {
    assert_eq!(backup_file_name("2024-01-15"), "clinicdesk_2024-01-15.db");
}

#[test]
fn backup_plan_on_a_given_day() {
    assert_eq!(
        backup_plan(&config(), true, "2024-01-15"),
        Ok(BackupPlan {
            source: "/home/u/.local/share/clinicdesk/clinicdesk.db".to_string(),
            target: "/tmp/clinicdesk_2024-01-15.db".to_string(),
        })
    );
}

#[test]
fn backup_without_database_is_not_found() {
    assert_eq!(backup_plan(&config(), false, "2024-01-15"), Err(BackupError::NotFound));
    assert_eq!(backup_plan(&config(), false, ""), Err(BackupError::NotFound));
}

#[test]
fn paths_are_joined_with_one_separator() {
    assert_eq!(join_path("/data", "a.db"), "/data/a.db");
    assert_eq!(join_path("/data/", "a.db"), "/data/a.db");
    assert_eq!(join_path("", "a.db"), "a.db");
    let c = StorageConfig { data_dir: "store".to_string(), backup_dir: String::new() };
    assert_eq!(database_path(&c), "store/clinicdesk.db");
}

#[test]
fn backup_error_messages() {
    assert_eq!(BackupError::NotFound.message(), "Database not found");
    assert_eq!(
        BackupError::Io("permission denied".to_string()).message(),
        "Failed to copy DB: permission denied"
    );
}
