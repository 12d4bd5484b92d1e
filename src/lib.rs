//! Persistence of patient-visit records in an embedded SQLite file, and dated
//! snapshots of that file.

pub mod backup;
pub mod paths;
pub mod record;
mod sqlite;
pub mod table;
pub mod statements;
pub mod store;

pub use backup::{BackupError, BackupPlan, backup_plan};
pub use paths::StorageConfig;
pub use record::{PatientRecord, StoredRow, SqlValue, StoreError};
pub use store::{init_db, insert_patient, update_patient, delete_patient, get_patients};
