//! The patient record, the row it is stored as, and the mapping between them.

use vstd::prelude::*;

verus! {

/// One patient visit. `id` is absent until the store has assigned one.
#[derive(Clone, Debug, PartialEq, Eq)]
pub struct PatientRecord {
    pub id: Option<i64>,
    pub name: String,
    pub phone: String,
    pub address: Option<String>,
    pub visit_date: String,
    pub reason: Option<String>,
    pub clinical_notes: Option<String>,
    pub follow_up_required: bool,
    pub follow_up_date: Option<String>,
}

/// The mathematical content of a `PatientRecord`.
pub struct PatientView {
    pub id: Option<i64>,
    pub name: Seq<char>,
    pub phone: Seq<char>,
    pub address: Option<Seq<char>>,
    pub visit_date: Seq<char>,
    pub reason: Option<Seq<char>>,
    pub clinical_notes: Option<Seq<char>>,
    pub follow_up_required: bool,
    pub follow_up_date: Option<Seq<char>>,
}

pub open spec fn opt_text(o: Option<String>) -> Option<Seq<char>> {
    match o {
        Some(s) => Some(s@),
        None => None,
    }
}

impl View for PatientRecord {
    type V = PatientView;

    open spec fn view(&self) -> PatientView {
        PatientView {
            id: self.id,
            name: self.name@,
            phone: self.phone@,
            address: opt_text(self.address),
            visit_date: self.visit_date@,
            reason: opt_text(self.reason),
            clinical_notes: opt_text(self.clinical_notes),
            follow_up_required: self.follow_up_required,
            follow_up_date: opt_text(self.follow_up_date),
        }
    }
}

/// A row of the `patients` table, in the column order of a full `SELECT`:
/// id, name, phone, address, visit_datetime, reason, clinical_notes,
/// followup_required, followup_date.
#[derive(Clone, Debug, PartialEq, Eq)]
pub struct StoredRow {
    pub id: i64,
    pub name: String,
    pub phone: String,
    pub address: Option<String>,
    pub visit_datetime: String,
    pub reason: Option<String>,
    pub clinical_notes: Option<String>,
    pub followup_required: i64,
    pub followup_date: Option<String>,
}

/// The mathematical content of a `StoredRow`.
pub struct RowView {
    pub id: i64,
    pub name: Seq<char>,
    pub phone: Seq<char>,
    pub address: Option<Seq<char>>,
    pub visit_datetime: Seq<char>,
    pub reason: Option<Seq<char>>,
    pub clinical_notes: Option<Seq<char>>,
    pub followup_required: i64,
    pub followup_date: Option<Seq<char>>,
}

impl View for StoredRow {
    type V = RowView;

    open spec fn view(&self) -> RowView {
        RowView {
            id: self.id,
            name: self.name@,
            phone: self.phone@,
            address: opt_text(self.address),
            visit_datetime: self.visit_datetime@,
            reason: opt_text(self.reason),
            clinical_notes: opt_text(self.clinical_notes),
            followup_required: self.followup_required,
            followup_date: opt_text(self.followup_date),
        }
    }
}

/// A value bound to a statement parameter.
#[derive(Clone, Debug, PartialEq, Eq)]
pub enum SqlValue {
    Null,
    Integer(i64),
    Text(String),
}

pub enum ParamView {
    Null,
    Integer(i64),
    Text(Seq<char>),
}

impl View for SqlValue {
    type V = ParamView;

    open spec fn view(&self) -> ParamView {
        match self {
            SqlValue::Null => ParamView::Null,
            SqlValue::Integer(i) => ParamView::Integer(*i),
            SqlValue::Text(s) => ParamView::Text(s@),
        }
    }
}

pub open spec fn params_view(v: Seq<SqlValue>) -> Seq<ParamView> {
    v.map_values(|x: SqlValue| x@)
}

/// A failure of a record-store operation.
#[derive(Clone, Debug, PartialEq, Eq)]
pub enum StoreError {
    /// `update` was given a record without an identifier; no I/O was attempted.
    MissingId,
    /// The database could not be opened, read or written.
    Persistence(String),
}

/// How the follow-up flag is stored: 1 for true, 0 for false.
pub open spec fn flag_code(b: bool) -> i64 {
    if b { 1 } else { 0 }
}

/// How a stored follow-up code is read: only 1 means true.
pub open spec fn flag_of_code(c: i64) -> bool {
    c == 1
}

pub open spec fn text_param(s: Seq<char>) -> ParamView {
    ParamView::Text(s)
}

pub open spec fn opt_text_param(o: Option<Seq<char>>) -> ParamView {
    match o {
        Some(s) => ParamView::Text(s),
        None => ParamView::Null,
    }
}

/// Parameters ?1..?8 of the insert statement, whose columns are
/// name, address, phone, visit_datetime, reason, clinical_notes,
/// followup_required, followup_date.
pub open spec fn insert_params(p: PatientView) -> Seq<ParamView> {
    seq![
        text_param(p.name),
        opt_text_param(p.address),
        text_param(p.phone),
        text_param(p.visit_date),
        opt_text_param(p.reason),
        opt_text_param(p.clinical_notes),
        ParamView::Integer(flag_code(p.follow_up_required)),
        opt_text_param(p.follow_up_date),
    ]
}

/// Parameters ?1..?9 of the update statement: name, phone, address,
/// visit_datetime, reason, clinical_notes, followup_required, followup_date,
/// then the id of the row to replace.
pub open spec fn update_params(p: PatientView, id: i64) -> Seq<ParamView> {
    seq![
        text_param(p.name),
        text_param(p.phone),
        opt_text_param(p.address),
        text_param(p.visit_date),
        opt_text_param(p.reason),
        opt_text_param(p.clinical_notes),
        ParamView::Integer(flag_code(p.follow_up_required)),
        opt_text_param(p.follow_up_date),
        ParamView::Integer(id),
    ]
}

/// The record that a stored row reads back as.
pub open spec fn record_of_row(r: RowView) -> PatientView {
    PatientView {
        id: Some(r.id),
        name: r.name,
        phone: r.phone,
        address: r.address,
        visit_date: r.visit_datetime,
        reason: r.reason,
        clinical_notes: r.clinical_notes,
        follow_up_required: flag_of_code(r.followup_required),
        follow_up_date: r.followup_date,
    }
}

/// The integer stored for a follow-up flag.
pub fn follow_up_code(b: bool) -> (r: i64)
    ensures
        r == flag_code(b),
{
    if b {
        1
    } else {
        0
    }
}

/// The follow-up flag that a stored integer stands for.
pub fn follow_up_from_code(c: i64) -> (r: bool)
    ensures
        r == flag_of_code(c),
{
    c == 1
}

fn optional_text_value(o: Option<String>) -> (r: SqlValue)
    ensures
        r@ == opt_text_param(opt_text(o)),
{
    match o {
        Some(s) => SqlValue::Text(s),
        None => SqlValue::Null,
    }
}

/// The values bound to the insert statement for `p`; its id is not used.
pub fn insert_parameters(p: PatientRecord) -> (r: Vec<SqlValue>)
    ensures
        params_view(r@) == insert_params(p@),
{
    let ghost pv = p@;
    let flag = follow_up_code(p.follow_up_required);
    let mut v: Vec<SqlValue> = Vec::new();
    v.push(SqlValue::Text(p.name));
    v.push(optional_text_value(p.address));
    v.push(SqlValue::Text(p.phone));
    v.push(SqlValue::Text(p.visit_date));
    v.push(optional_text_value(p.reason));
    v.push(optional_text_value(p.clinical_notes));
    v.push(SqlValue::Integer(flag));
    v.push(optional_text_value(p.follow_up_date));
    assert(params_view(v@) =~= insert_params(pv));
    v
}

/// The values bound to the update statement for `p`, or `MissingId` when
/// `p` carries no identifier.
pub fn update_parameters(p: PatientRecord) -> (r: Result<Vec<SqlValue>, StoreError>)
    ensures
        p.id is None <==> r == Err::<Vec<SqlValue>, StoreError>(StoreError::MissingId),
        p.id is Some ==> r is Ok && params_view(r->Ok_0@) == update_params(p@, p.id->Some_0),
{
    let ghost pv = p@;
    let id = match p.id {
        Some(id) => id,
        None => {
            return Err(StoreError::MissingId);
        },
    };
    let flag = follow_up_code(p.follow_up_required);
    let mut v: Vec<SqlValue> = Vec::new();
    v.push(SqlValue::Text(p.name));
    v.push(SqlValue::Text(p.phone));
    v.push(optional_text_value(p.address));
    v.push(SqlValue::Text(p.visit_date));
    v.push(optional_text_value(p.reason));
    v.push(optional_text_value(p.clinical_notes));
    v.push(SqlValue::Integer(flag));
    v.push(optional_text_value(p.follow_up_date));
    v.push(SqlValue::Integer(id));
    assert(params_view(v@) =~= update_params(pv, id));
    Ok(v)
}

/// The record that a stored row reads back as: the id is set from the row,
/// and the follow-up flag is true exactly when the stored code is 1.
pub fn record_from_row(row: StoredRow) -> (r: PatientRecord)
    ensures
        r@ == record_of_row(row@),
{
    let flag = follow_up_from_code(row.followup_required);
    PatientRecord {
        id: Some(row.id),
        name: row.name,
        phone: row.phone,
        address: row.address,
        visit_date: row.visit_datetime,
        reason: row.reason,
        clinical_notes: row.clinical_notes,
        follow_up_required: flag,
        follow_up_date: row.followup_date,
    }
}

impl StoreError {
    /// A human-readable description of the failure.
    pub fn message(&self) -> (r: String)
        ensures
            self is MissingId ==> r@ == "ID required for update"@,
            self is Persistence ==> r@ == self->Persistence_0@,
    {
        match self {
            StoreError::MissingId => String::from_str("ID required for update"),
            StoreError::Persistence(m) => m.clone(),
        }
    }
}

} // verus!
