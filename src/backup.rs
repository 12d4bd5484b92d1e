//! Dated snapshots of the database file. The library decides what is copied
//! where; the caller reads the local date and the file system, and makes the
//! byte copy.

use vstd::prelude::*;
use crate::paths::{StorageConfig, database_path, backup_file_name, join_path, joined,
    database_file_name, backup_name};

verus! {

/// The copy a backup makes: the live file at `source` goes to `target`.
#[derive(Clone, Debug, PartialEq, Eq)]
pub struct BackupPlan {
    pub source: String,
    pub target: String,
}

/// A failure of a backup.
#[derive(Clone, Debug, PartialEq, Eq)]
pub enum BackupError {
    /// There is no database file to copy.
    NotFound,
    /// Copying the file failed.
    Io(String),
}

impl BackupError {
    /// A human-readable description of the failure.
    pub fn message(&self) -> (r: String)
        ensures
            self is NotFound ==> r@ == "Database not found"@,
            self is Io ==> r@ == "Failed to copy DB: "@ + self->Io_0@,
    {
        match self {
            BackupError::NotFound => String::from_str("Database not found"),
            BackupError::Io(m) => {
                let r = String::from_str("Failed to copy DB: ");
                r.concat(m.as_str())
            },
        }
    }
}

/// The backup taken on the day whose date text is `date`: the live file, when
/// `db_exists` says it is there, is copied to `clinicdesk_<date>.db` in the
/// backup directory; otherwise the backup fails with `NotFound`.
pub fn backup_plan(config: &StorageConfig, db_exists: bool, date: &str) -> (r: Result<BackupPlan, BackupError>)
    ensures
        !db_exists <==> r == Err::<BackupPlan, BackupError>(BackupError::NotFound),
        db_exists ==> r is Ok
            && r->Ok_0.source@ == joined(config.data_dir@, database_file_name())
            && r->Ok_0.target@ == joined(config.backup_dir@, backup_name(date@)),
{
    if !db_exists {
        return Err(BackupError::NotFound);
    }
    let source = database_path(config);
    let name = backup_file_name(date);
    let target = join_path(config.backup_dir.as_str(), name.as_str());
    Ok(BackupPlan { source, target })
}

} // verus!
