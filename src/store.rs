//! The record store: each operation opens the database file, runs one
//! statement of `statements` and closes it again. Rows are listed in
//! ascending id order.

use vstd::prelude::*;
use crate::paths::{StorageConfig, database_path};
use crate::record::{
    PatientRecord, StoredRow, RowView, StoreError, insert_parameters, update_parameters,
    record_from_row, record_of_row,
};
use crate::statements::{
    schema_statement, insert_statement, update_statement, delete_statement, select_statement,
    select_column, delete_parameters,
};
use crate::table::listed;
use crate::sqlite::{
    open_connection, execute_statement, last_insert_rowid, prepare_statement, query_rows,
    column_integer, column_text, column_optional_text, error_text,
};

verus! {

fn persistence_error(e: &rusqlite::Error) -> (r: StoreError)
    ensures
        r is Persistence,
{
    StoreError::Persistence(error_text(e))
}

fn connect(config: &StorageConfig) -> (r: Result<rusqlite::Connection, StoreError>)
    ensures
        r is Err ==> r->Err_0 is Persistence,
{
    let path = database_path(config);
    match open_connection(path.as_str()) {
        Ok(c) => Ok(c),
        Err(e) => Err(persistence_error(&e)),
    }
}

/// Creates the `patients` table, with `schema_statement`, unless it exists;
/// existing rows are kept.
pub fn init_db(config: &StorageConfig) -> (r: Result<(), StoreError>)
    ensures
        r is Err ==> r->Err_0 is Persistence,
{
    let conn = connect(config)?;
    match execute_statement(&conn, schema_statement(), Vec::new()) {
        Ok(_) => Ok(()),
        Err(e) => Err(persistence_error(&e)),
    }
}

/// Stores `patient` as a new row, with `insert_statement` and
/// `insert_parameters`, whatever its id, and returns the id SQLite assigned.
pub fn insert_patient(config: &StorageConfig, patient: PatientRecord) -> (r: Result<i64, StoreError>)
    ensures
        r is Err ==> r->Err_0 is Persistence,
{
    let conn = connect(config)?;
    match execute_statement(&conn, insert_statement(), insert_parameters(patient)) {
        Ok(_) => Ok(last_insert_rowid(&conn)),
        Err(e) => Err(persistence_error(&e)),
    }
}

/// Replaces every field but the id of the row whose id is `patient.id`, with
/// `update_statement` and `update_parameters`. A record without an id fails
/// with `MissingId` before the file is opened; an id that matches no row
/// changes nothing and is no error.
pub fn update_patient(config: &StorageConfig, patient: PatientRecord) -> (r: Result<(), StoreError>)
    ensures
        patient.id is None <==> r == Err::<(), StoreError>(StoreError::MissingId),
        patient.id is Some && r is Err ==> r->Err_0 is Persistence,
{
    let params = update_parameters(patient)?;
    let conn = connect(config)?;
    match execute_statement(&conn, update_statement(), params) {
        Ok(_) => Ok(()),
        Err(e) => Err(persistence_error(&e)),
    }
}

/// Removes the row with this id, with `delete_statement` and
/// `delete_parameters`; removing an id that is not there is no error.
pub fn delete_patient(config: &StorageConfig, id: i64) -> (r: Result<(), StoreError>)
    ensures
        r is Err ==> r->Err_0 is Persistence,
{
    let conn = connect(config)?;
    match execute_statement(&conn, delete_statement(), delete_parameters(id)) {
        Ok(_) => Ok(()),
        Err(e) => Err(persistence_error(&e)),
    }
}

/// Decodes one result row of `select_statement`, each field from the column
/// of the same name.
pub(crate) fn read_stored_row(row: &rusqlite::Row) -> (r: Result<StoredRow, rusqlite::Error>) {
    let id = column_integer(row, select_column(0))?;
    let name = column_text(row, select_column(1))?;
    let phone = column_text(row, select_column(2))?;
    let address = column_optional_text(row, select_column(3))?;
    let visit_datetime = column_text(row, select_column(4))?;
    let reason = column_optional_text(row, select_column(5))?;
    let clinical_notes = column_optional_text(row, select_column(6))?;
    let followup_required = column_integer(row, select_column(7))?;
    let followup_date = column_optional_text(row, select_column(8))?;
    Ok(StoredRow {
        id,
        name,
        phone,
        address,
        visit_datetime,
        reason,
        clinical_notes,
        followup_required,
        followup_date,
    })
}

/// The records that `rows` read back as, in the same order.
pub fn records_from_rows(rows: Vec<StoredRow>) -> (r: Vec<PatientRecord>)
    ensures
        r@.len() == rows@.len(),
        forall|i: int| 0 <= i < rows@.len() ==> #[trigger] r@[i]@ == record_of_row(rows@[i]@),
{
    let ghost input = rows@;
    let mut rest = rows;
    let mut out: Vec<PatientRecord> = Vec::new();
    while rest.len() > 0
        invariant
            rest@ == input.subrange(out@.len() as int, input.len() as int),
            out@.len() <= input.len(),
            forall|i: int| 0 <= i < out@.len() ==> #[trigger] out@[i]@ == record_of_row(input[i]@),
        decreases rest@.len(),
    {
        let row = rest.remove(0);
        out.push(record_from_row(row));
    }
    out
}

/// Every stored record, read with `select_statement` (ascending id order);
/// the list is what the rows SQLite returned read back as, so each record
/// carries its id.
pub fn get_patients(config: &StorageConfig) -> (r: Result<Vec<PatientRecord>, StoreError>)
    ensures
        r is Err ==> r->Err_0 is Persistence,
        r is Ok ==> exists|rows: Seq<RowView>| r->Ok_0@.map_values(|p: PatientRecord| p@) == listed(rows),
        r is Ok ==> forall|i: int| 0 <= i < r->Ok_0@.len() ==> (#[trigger] r->Ok_0@[i]).id is Some,
{
    let conn = connect(config)?;
    let mut stmt = match prepare_statement(&conn, select_statement()) {
        Ok(s) => s,
        Err(e) => {
            return Err(persistence_error(&e));
        },
    };
    match query_rows(&mut stmt) {
        Ok(rows) => {
            let ghost row_views = rows@.map_values(|x: StoredRow| x@);
            let records = records_from_rows(rows);
            assert(records@.map_values(|p: PatientRecord| p@) =~= listed(row_views));
            assert forall|i: int| 0 <= i < records@.len() implies (#[trigger] records@[i]).id is Some by {
                assert(records@[i]@.id is Some);
            }
            Ok(records)
        },
        Err(e) => Err(persistence_error(&e)),
    }
}

} // verus!
