use clinicdesk::record::{
    follow_up_code, follow_up_from_code, insert_parameters, record_from_row, update_parameters,
};
use clinicdesk::paths::database_path;
use clinicdesk::statements::{
    delete_parameters, delete_statement, insert_statement, schema_statement, select_column,
    select_statement, update_statement,
};
use clinicdesk::store::records_from_rows;
use clinicdesk::{
    delete_patient, get_patients, init_db, insert_patient, update_patient, PatientRecord,
    SqlValue, StorageConfig, StoreError, StoredRow,
};

/// A store in a shared in-memory database, alive while the returned
/// connection is held; the trailing query parameter absorbs the file name
/// that the store appends to its directory.
fn fresh_config(tag: &str) -> (StorageConfig, rusqlite::Connection) {
    let config = StorageConfig {
        data_dir: format!("file:clinicdesk_{}?mode=memory&cache=shared&dir=", tag),
        backup_dir: String::new(),
    };
    let keep = rusqlite::Connection::open(database_path(&config)).unwrap();
    (config, keep)
}

fn jane() -> PatientRecord {
    PatientRecord {
        id: None,
        name: "Jane Doe".to_string(),
        phone: "555-0100".to_string(),
        address: None,
        visit_date: "2024-01-15".to_string(),
        reason: None,
        clinical_notes: None,
        follow_up_required: true,
        follow_up_date: Some("2024-02-15".to_string()),
    }
}

fn with_id(mut p: PatientRecord, id: i64) -> PatientRecord {
    p.id = Some(id);
    p
}

#[test]
fn jane_doe_insert_update_delete() {
    let (config, _keep) = fresh_config("jane");
    init_db(&config).unwrap();
    assert_eq!(insert_patient(&config, jane()).unwrap(), 1);
    let listed = get_patients(&config).unwrap();
    assert_eq!(listed, vec![with_id(jane(), 1)]);

    let mut changed = with_id(jane(), 1);
    changed.follow_up_required = false;
    changed.follow_up_date = None;
    update_patient(&config, changed.clone()).unwrap();
    let listed = get_patients(&config).unwrap();
    assert_eq!(listed.len(), 1);
    assert!(!listed[0].follow_up_required);
    assert_eq!(listed[0].follow_up_date, None);
    assert_eq!(listed[0], changed);

    delete_patient(&config, 1).unwrap();
    assert_eq!(get_patients(&config).unwrap(), Vec::<PatientRecord>::new());
}

#[test]
fn insert_then_list_gives_one_full_record() {
    let (config, _keep) = fresh_config("insert");
    init_db(&config).unwrap();
    let full = PatientRecord {
        id: None,
        name: "Ali Khan".to_string(),
        phone: "555-0199".to_string(),
        address: Some("12 High St".to_string()),
        visit_date: "2024-03-01T09:30".to_string(),
        reason: Some("cough".to_string()),
        clinical_notes: Some("mild fever".to_string()),
        follow_up_required: false,
        follow_up_date: None,
    };
    let first = insert_patient(&config, jane()).unwrap();
    let second = insert_patient(&config, full.clone()).unwrap();
    assert!(second > first);
    let listed = get_patients(&config).unwrap();
    assert_eq!(listed, vec![with_id(jane(), first), with_id(full, second)]);
}

#[test]
fn follow_up_flag_survives_storage() {
    let (config, _keep) = fresh_config("flag");
    init_db(&config).unwrap();
    let mut no = jane();
    no.follow_up_required = false;
    let a = insert_patient(&config, jane()).unwrap();
    let b = insert_patient(&config, no).unwrap();
    let listed = get_patients(&config).unwrap();
    assert_eq!(listed[0].id, Some(a));
    assert!(listed[0].follow_up_required);
    assert_eq!(listed[1].id, Some(b));
    assert!(!listed[1].follow_up_required);
}

#[test]
fn update_replaces_only_the_matching_row() {
    let (config, _keep) = fresh_config("update");
    init_db(&config).unwrap();
    let a = insert_patient(&config, jane()).unwrap();
    let b = insert_patient(&config, jane()).unwrap();
    let mut changed = with_id(jane(), b);
    changed.name = "Janet Doe".to_string();
    changed.reason = Some("check-up".to_string());
    update_patient(&config, changed.clone()).unwrap();
    let listed = get_patients(&config).unwrap();
    assert_eq!(listed, vec![with_id(jane(), a), changed]);
}

#[test]
fn update_of_unknown_id_changes_nothing() {
    let (config, _keep) = fresh_config("unknown");
    init_db(&config).unwrap();
    let a = insert_patient(&config, jane()).unwrap();
    let mut ghost = with_id(jane(), a + 100);
    ghost.name = "Nobody".to_string();
    assert_eq!(update_patient(&config, ghost), Ok(()));
    assert_eq!(get_patients(&config).unwrap(), vec![with_id(jane(), a)]);
}

#[test]
fn update_without_id_is_missing_id() {
    let config = StorageConfig {
        data_dir: "/nonexistent/clinicdesk/dir".to_string(),
        backup_dir: "/nonexistent".to_string(),
    };
    assert_eq!(update_patient(&config, jane()), Err(StoreError::MissingId));
}

#[test]
fn delete_removes_one_row_and_repeats_harmlessly() {
    let (config, _keep) = fresh_config("delete");
    init_db(&config).unwrap();
    let a = insert_patient(&config, jane()).unwrap();
    let b = insert_patient(&config, jane()).unwrap();
    delete_patient(&config, a).unwrap();
    assert_eq!(get_patients(&config).unwrap(), vec![with_id(jane(), b)]);
    assert_eq!(delete_patient(&config, a), Ok(()));
    assert_eq!(get_patients(&config).unwrap(), vec![with_id(jane(), b)]);
}

#[test]
fn init_db_twice_keeps_rows() {
    let (config, _keep) = fresh_config("init");
    init_db(&config).unwrap();
    let a = insert_patient(&config, jane()).unwrap();
    init_db(&config).unwrap();
    assert_eq!(get_patients(&config).unwrap(), vec![with_id(jane(), a)]);
}

#[test]
fn unreachable_directory_is_a_persistence_error() {
    let config = StorageConfig {
        data_dir: "/nonexistent/clinicdesk/dir".to_string(),
        backup_dir: "/nonexistent".to_string(),
    };
    assert!(matches!(init_db(&config), Err(StoreError::Persistence(_))));
    assert!(matches!(insert_patient(&config, jane()), Err(StoreError::Persistence(_))));
    assert!(matches!(delete_patient(&config, 1), Err(StoreError::Persistence(_))));
    assert!(matches!(get_patients(&config), Err(StoreError::Persistence(_))));
    let err = get_patients(&config).unwrap_err();
    assert!(!err.message().is_empty());
}

#[test]
fn listing_without_table_is_a_persistence_error() {
    let (config, _keep) = fresh_config("notable");
    assert!(matches!(get_patients(&config), Err(StoreError::Persistence(_))));
}

#[test]
fn follow_up_codes() {
    assert_eq!(follow_up_code(true), 1);
    assert_eq!(follow_up_code(false), 0);
    assert!(follow_up_from_code(1));
    assert!(!follow_up_from_code(0));
    assert!(!follow_up_from_code(2));
    assert!(follow_up_from_code(follow_up_code(true)));
    assert!(!follow_up_from_code(follow_up_code(false)));
}

#[test]
fn insert_parameters_follow_column_order() {
    let mut p = jane();
    p.address = Some("1 Elm".to_string());
    assert_eq!(
        insert_parameters(p),
        vec![
            SqlValue::Text("Jane Doe".to_string()),
            SqlValue::Text("1 Elm".to_string()),
            SqlValue::Text("555-0100".to_string()),
            SqlValue::Text("2024-01-15".to_string()),
            SqlValue::Null,
            SqlValue::Null,
            SqlValue::Integer(1),
            SqlValue::Text("2024-02-15".to_string()),
        ]
    );
}

#[test]
fn update_parameters_end_with_the_id() {
    let mut p = with_id(jane(), 7);
    p.follow_up_required = false;
    p.follow_up_date = None;
    assert_eq!(
        update_parameters(p),
        Ok(vec![
            SqlValue::Text("Jane Doe".to_string()),
            SqlValue::Text("555-0100".to_string()),
            SqlValue::Null,
            SqlValue::Text("2024-01-15".to_string()),
            SqlValue::Null,
            SqlValue::Null,
            SqlValue::Integer(0),
            SqlValue::Null,
            SqlValue::Integer(7),
        ])
    );
    assert_eq!(update_parameters(jane()), Err(StoreError::MissingId));
}

#[test]
fn rows_read_back_as_records() {
    let row = StoredRow {
        id: 3,
        name: "Jane Doe".to_string(),
        phone: "555-0100".to_string(),
        address: None,
        visit_datetime: "2024-01-15".to_string(),
        reason: None,
        clinical_notes: None,
        followup_required: 1,
        followup_date: Some("2024-02-15".to_string()),
    };
    assert_eq!(record_from_row(row.clone()), with_id(jane(), 3));
    let mut other = row.clone();
    other.id = 4;
    other.followup_required = 0;
    let mut expected = with_id(jane(), 4);
    expected.follow_up_required = false;
    assert_eq!(records_from_rows(vec![row, other]), vec![with_id(jane(), 3), expected]);
    assert_eq!(records_from_rows(Vec::new()), Vec::<PatientRecord>::new());
}

#[test]
fn store_error_messages() {
    assert_eq!(StoreError::MissingId.message(), "ID required for update");
    assert_eq!(StoreError::Persistence("disk full".to_string()).message(), "disk full");
}

#[test]
fn statements_name_the_patients_table() {
    assert!(schema_statement().starts_with("CREATE TABLE IF NOT EXISTS patients ("));
    assert_eq!(
        insert_statement(),
        "INSERT INTO patients (name, address, phone, visit_datetime, reason, clinical_notes, followup_required, followup_date) VALUES (?1, ?2, ?3, ?4, ?5, ?6, ?7, ?8)"
    );
    assert!(update_statement().ends_with("WHERE id = ?9"));
    assert_eq!(delete_statement(), "DELETE FROM patients WHERE id = ?1");
    assert!(select_statement().ends_with("FROM patients ORDER BY id ASC"));
    assert_eq!(delete_parameters(42), vec![SqlValue::Integer(42)]);
    let columns: Vec<&str> = (0..9).map(select_column).collect();
    assert_eq!(
        format!("SELECT {} FROM patients ORDER BY id ASC", columns.join(", ")),
        select_statement()
    );
}
