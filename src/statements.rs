//! The SQL that the record store hands to SQLite, and the values it binds.

use vstd::prelude::*;
use crate::record::{SqlValue, ParamView, params_view};

verus! {

/// The table definition; `IF NOT EXISTS` makes running it again harmless.
pub open spec fn schema_sql() -> Seq<char> {
    "CREATE TABLE IF NOT EXISTS patients (id INTEGER PRIMARY KEY AUTOINCREMENT, name TEXT NOT NULL, address TEXT, phone TEXT NOT NULL, visit_datetime TEXT NOT NULL, reason TEXT, clinical_notes TEXT, followup_required INTEGER NOT NULL, followup_date TEXT)"@
}

/// Inserts one row; ?1..?8 fill the listed columns in order, and SQLite
/// assigns the id.
pub open spec fn insert_sql() -> Seq<char> {
    "INSERT INTO patients (name, address, phone, visit_datetime, reason, clinical_notes, followup_required, followup_date) VALUES (?1, ?2, ?3, ?4, ?5, ?6, ?7, ?8)"@
}

/// Replaces every column but the id of the row whose id is ?9.
pub open spec fn update_sql() -> Seq<char> {
    "UPDATE patients SET name = ?1, phone = ?2, address = ?3, visit_datetime = ?4, reason = ?5, clinical_notes = ?6, followup_required = ?7, followup_date = ?8 WHERE id = ?9"@
}

/// Removes the row whose id is ?1.
pub open spec fn delete_sql() -> Seq<char> {
    "DELETE FROM patients WHERE id = ?1"@
}

/// Every row, in ascending id order, with the columns of `select_columns`.
pub open spec fn select_sql() -> Seq<char> {
    "SELECT id, name, phone, address, visit_datetime, reason, clinical_notes, followup_required, followup_date FROM patients ORDER BY id ASC"@
}

/// The columns that `select_sql` lists, in its order; `StoredRow` has its
/// fields in the same order.
pub open spec fn select_columns() -> Seq<Seq<char>> {
    seq![
        "id"@,
        "name"@,
        "phone"@,
        "address"@,
        "visit_datetime"@,
        "reason"@,
        "clinical_notes"@,
        "followup_required"@,
        "followup_date"@,
    ]
}

/// The columns that `insert_sql` fills, in the order of its parameters.
pub open spec fn insert_columns() -> Seq<Seq<char>> {
    seq![
        "name"@,
        "address"@,
        "phone"@,
        "visit_datetime"@,
        "reason"@,
        "clinical_notes"@,
        "followup_required"@,
        "followup_date"@,
    ]
}

/// The names joined with `", "`.
pub open spec fn comma_list(cols: Seq<Seq<char>>) -> Seq<char>
    decreases cols.len(),
{
    if cols.len() == 0 {
        Seq::empty()
    } else if cols.len() == 1 {
        cols[0]
    } else {
        cols[0] + ", "@ + comma_list(cols.drop_first())
    }
}

/// `select_sql` lists exactly `select_columns`, in order.
pub proof fn lemma_select_lists_columns()
    ensures
        select_sql() == "SELECT "@ + comma_list(select_columns()) + " FROM patients ORDER BY id ASC"@,
{
    reveal_strlit(
        "SELECT id, name, phone, address, visit_datetime, reason, clinical_notes, followup_required, followup_date FROM patients ORDER BY id ASC",
    );
    reveal_strlit("SELECT ");
    reveal_strlit(" FROM patients ORDER BY id ASC");
    reveal_strlit(", ");
    reveal_strlit("name");
    reveal_strlit("address");
    reveal_strlit("phone");
    reveal_strlit("visit_datetime");
    reveal_strlit("reason");
    reveal_strlit("clinical_notes");
    reveal_strlit("followup_required");
    reveal_strlit("followup_date");
    reveal_strlit("id");
    reveal_with_fuel(comma_list, 10);
    let c = select_columns();
    assert(c.drop_first() =~= c.subrange(1, 9));
    assert(c.subrange(1, 9).drop_first() =~= c.subrange(2, 9));
    assert(c.subrange(2, 9).drop_first() =~= c.subrange(3, 9));
    assert(c.subrange(3, 9).drop_first() =~= c.subrange(4, 9));
    assert(c.subrange(4, 9).drop_first() =~= c.subrange(5, 9));
    assert(c.subrange(5, 9).drop_first() =~= c.subrange(6, 9));
    assert(c.subrange(6, 9).drop_first() =~= c.subrange(7, 9));
    assert(c.subrange(7, 9).drop_first() =~= c.subrange(8, 9));
    assert(select_sql() =~= "SELECT "@ + comma_list(c) + " FROM patients ORDER BY id ASC"@);
}

/// `insert_sql` fills exactly `insert_columns`, in the order of ?1..?8.
pub proof fn lemma_insert_lists_columns()
    ensures
        insert_sql() == "INSERT INTO patients ("@ + comma_list(insert_columns())
            + ") VALUES (?1, ?2, ?3, ?4, ?5, ?6, ?7, ?8)"@,
{
    reveal_strlit(
        "INSERT INTO patients (name, address, phone, visit_datetime, reason, clinical_notes, followup_required, followup_date) VALUES (?1, ?2, ?3, ?4, ?5, ?6, ?7, ?8)",
    );
    reveal_strlit("INSERT INTO patients (");
    reveal_strlit(") VALUES (?1, ?2, ?3, ?4, ?5, ?6, ?7, ?8)");
    reveal_strlit(", ");
    reveal_strlit("name");
    reveal_strlit("address");
    reveal_strlit("phone");
    reveal_strlit("visit_datetime");
    reveal_strlit("reason");
    reveal_strlit("clinical_notes");
    reveal_strlit("followup_required");
    reveal_strlit("followup_date");
    reveal_with_fuel(comma_list, 9);
    let c = insert_columns();
    assert(c.drop_first() =~= c.subrange(1, 8));
    assert(c.subrange(1, 8).drop_first() =~= c.subrange(2, 8));
    assert(c.subrange(2, 8).drop_first() =~= c.subrange(3, 8));
    assert(c.subrange(3, 8).drop_first() =~= c.subrange(4, 8));
    assert(c.subrange(4, 8).drop_first() =~= c.subrange(5, 8));
    assert(c.subrange(5, 8).drop_first() =~= c.subrange(6, 8));
    assert(c.subrange(6, 8).drop_first() =~= c.subrange(7, 8));
    assert(insert_sql() =~= "INSERT INTO patients ("@ + comma_list(c) + ") VALUES (?1, ?2, ?3, ?4, ?5, ?6, ?7, ?8)"@);
}

/// The columns that `update_sql` assigns, in the order of ?1..?8.
pub open spec fn update_columns() -> Seq<Seq<char>> {
    seq![
        "name"@,
        "phone"@,
        "address"@,
        "visit_datetime"@,
        "reason"@,
        "clinical_notes"@,
        "followup_required"@,
        "followup_date"@,
    ]
}

/// `col = ?k, col = ?k+1, ...` for the names in `cols`, numbering from `k`
/// (a single digit each).
pub open spec fn assignment_list(cols: Seq<Seq<char>>, k: int) -> Seq<char>
    decreases cols.len(),
{
    if cols.len() == 0 {
        Seq::empty()
    } else {
        let first = cols[0] + " = ?"@ + seq!["0123456789"@[k]];
        if cols.len() == 1 {
            first
        } else {
            first + ", "@ + assignment_list(cols.drop_first(), k + 1)
        }
    }
}

/// `update_sql` assigns ?1..?8 to exactly `update_columns`, in order, and
/// selects the row by ?9.
pub proof fn lemma_update_lists_columns()
    ensures
        update_sql() == "UPDATE patients SET "@ + assignment_list(update_columns(), 1)
            + " WHERE id = ?9"@,
{
    reveal_strlit(
        "UPDATE patients SET name = ?1, phone = ?2, address = ?3, visit_datetime = ?4, reason = ?5, clinical_notes = ?6, followup_required = ?7, followup_date = ?8 WHERE id = ?9",
    );
    reveal_strlit("UPDATE patients SET ");
    reveal_strlit(" WHERE id = ?9");
    reveal_strlit(" = ?");
    reveal_strlit("0123456789");
    reveal_strlit(", ");
    reveal_strlit("name");
    reveal_strlit("address");
    reveal_strlit("phone");
    reveal_strlit("visit_datetime");
    reveal_strlit("reason");
    reveal_strlit("clinical_notes");
    reveal_strlit("followup_required");
    reveal_strlit("followup_date");
    reveal_with_fuel(assignment_list, 9);
    let c = update_columns();
    assert(c.drop_first() =~= c.subrange(1, 8));
    assert(c.subrange(1, 8).drop_first() =~= c.subrange(2, 8));
    assert(c.subrange(2, 8).drop_first() =~= c.subrange(3, 8));
    assert(c.subrange(3, 8).drop_first() =~= c.subrange(4, 8));
    assert(c.subrange(4, 8).drop_first() =~= c.subrange(5, 8));
    assert(c.subrange(5, 8).drop_first() =~= c.subrange(6, 8));
    assert(c.subrange(6, 8).drop_first() =~= c.subrange(7, 8));
    assert(update_sql() =~= "UPDATE patients SET "@ + assignment_list(c, 1) + " WHERE id = ?9"@);
}

/// Facts about the column names that tell them apart.
pub proof fn reveal_names()
    ensures
        ", "@ =~= seq![',', ' '],
        "name"@.len() == 4,
        "address"@.len() == 7,
        "phone"@.len() == 5,
        "visit_datetime"@.len() == 14,
        "reason"@.len() == 6,
        "clinical_notes"@.len() == 14,
        "followup_required"@.len() == 17,
        "followup_date"@.len() == 13,
        "visit_datetime"@[0] != "clinical_notes"@[0],
{
    reveal_strlit(", ");
    reveal_strlit("name");
    reveal_strlit("address");
    reveal_strlit("phone");
    reveal_strlit("visit_datetime");
    reveal_strlit("reason");
    reveal_strlit("clinical_notes");
    reveal_strlit("followup_required");
    reveal_strlit("followup_date");
}

pub fn schema_statement() -> (r: &'static str)
    ensures
        r@ == schema_sql(),
{
    "CREATE TABLE IF NOT EXISTS patients (id INTEGER PRIMARY KEY AUTOINCREMENT, name TEXT NOT NULL, address TEXT, phone TEXT NOT NULL, visit_datetime TEXT NOT NULL, reason TEXT, clinical_notes TEXT, followup_required INTEGER NOT NULL, followup_date TEXT)"
}

pub fn insert_statement() -> (r: &'static str)
    ensures
        r@ == insert_sql(),
{
    "INSERT INTO patients (name, address, phone, visit_datetime, reason, clinical_notes, followup_required, followup_date) VALUES (?1, ?2, ?3, ?4, ?5, ?6, ?7, ?8)"
}

pub fn update_statement() -> (r: &'static str)
    ensures
        r@ == update_sql(),
{
    "UPDATE patients SET name = ?1, phone = ?2, address = ?3, visit_datetime = ?4, reason = ?5, clinical_notes = ?6, followup_required = ?7, followup_date = ?8 WHERE id = ?9"
}

pub fn delete_statement() -> (r: &'static str)
    ensures
        r@ == delete_sql(),
{
    "DELETE FROM patients WHERE id = ?1"
}

pub fn select_statement() -> (r: &'static str)
    ensures
        r@ == select_sql(),
{
    "SELECT id, name, phone, address, visit_datetime, reason, clinical_notes, followup_required, followup_date FROM patients ORDER BY id ASC"
}

/// The name of column `i` of `select_sql`.
pub fn select_column(i: usize) -> (r: &'static str)
    requires
        i < 9,
    ensures
        r@ == select_columns()[i as int],
{
    if i == 0 {
        "id"
    } else if i == 1 {
        "name"
    } else if i == 2 {
        "phone"
    } else if i == 3 {
        "address"
    } else if i == 4 {
        "visit_datetime"
    } else if i == 5 {
        "reason"
    } else if i == 6 {
        "clinical_notes"
    } else if i == 7 {
        "followup_required"
    } else {
        "followup_date"
    }
}

/// The values bound to `delete_sql`: the id alone.
pub fn delete_parameters(id: i64) -> (r: Vec<SqlValue>)
    ensures
        params_view(r@) == seq![ParamView::Integer(id)],
{
    let mut v: Vec<SqlValue> = Vec::new();
    v.push(SqlValue::Integer(id));
    assert(params_view(v@) =~= seq![ParamView::Integer(id)]);
    v
}

} // verus!
