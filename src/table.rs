//! A mathematical model of the `patients` table and of what the store's
//! statements do to it, with the laws that the store's operations obey in it.
//!
//! A table is the sequence of its rows in ascending id order, the order of
//! `select_sql`. `inserted_row` reads each column's parameter by its name in
//! `insert_columns`, the list that `insert_sql` is proved to fill, and
//! `updated_row` by `update_columns`, which `update_sql` is proved to assign.
//! The laws take the parameters as `insert_params` and `update_params` give
//! them, which is what `insert_parameters` and `update_parameters` build.
//! What SQLite does to the file is outside this library: the laws hold of
//! the model, not of the file.

use vstd::prelude::*;
use crate::statements::{insert_columns, update_columns, reveal_names};
use crate::record::{
    RowView, PatientView, ParamView, insert_params, update_params, record_of_row, flag_code,
    flag_of_code,
};

verus! {

broadcast use vstd::seq_lib::group_filter_ensures;

pub open spec fn param_text(p: ParamView) -> Seq<char> {
    match p {
        ParamView::Text(s) => s,
        _ => Seq::empty(),
    }
}

pub open spec fn param_opt_text(p: ParamView) -> Option<Seq<char>> {
    match p {
        ParamView::Text(s) => Some(s),
        _ => None,
    }
}

pub open spec fn param_int(p: ParamView) -> i64 {
    match p {
        ParamView::Integer(i) => i,
        _ => 0,
    }
}

/// Ids strictly ascending along the table, hence unique.
pub open spec fn ids_ascending(t: Seq<RowView>) -> bool {
    forall|i: int, j: int| 0 <= i < j < t.len() ==> t[i].id < t[j].id
}

/// An id larger than every id in the table, as AUTOINCREMENT issues.
pub open spec fn fresh_id(t: Seq<RowView>, id: i64) -> bool {
    forall|i: int| 0 <= i < t.len() ==> t[i].id < id
}

/// The parameter bound for column `name`, where `cols` lists the columns
/// that the parameters fill in order.
pub open spec fn param_named(cols: Seq<Seq<char>>, ps: Seq<ParamView>, name: Seq<char>) -> ParamView
    decreases cols.len(),
{
    if cols.len() == 0 || ps.len() == 0 {
        ParamView::Null
    } else if cols[0] == name {
        ps[0]
    } else {
        param_named(cols.drop_first(), ps.drop_first(), name)
    }
}

/// The row that `insert_sql` writes with parameters `ps` under `id`: each
/// column takes the parameter that `insert_columns` places at it.
pub open spec fn inserted_row(ps: Seq<ParamView>, id: i64) -> RowView {
    let p = |name: Seq<char>| param_named(insert_columns(), ps, name);
    RowView {
        id,
        name: param_text(p("name"@)),
        address: param_opt_text(p("address"@)),
        phone: param_text(p("phone"@)),
        visit_datetime: param_text(p("visit_datetime"@)),
        reason: param_opt_text(p("reason"@)),
        clinical_notes: param_opt_text(p("clinical_notes"@)),
        followup_required: param_int(p("followup_required"@)),
        followup_date: param_opt_text(p("followup_date"@)),
    }
}

/// With eight parameters, column k of `insert_columns` takes parameter k.
proof fn lemma_inserted_row_by_position(ps: Seq<ParamView>, id: i64)
    requires
        ps.len() == 8,
    ensures
        inserted_row(ps, id) == (RowView {
            id,
            name: param_text(ps[0]),
            address: param_opt_text(ps[1]),
            phone: param_text(ps[2]),
            visit_datetime: param_text(ps[3]),
            reason: param_opt_text(ps[4]),
            clinical_notes: param_opt_text(ps[5]),
            followup_required: param_int(ps[6]),
            followup_date: param_opt_text(ps[7]),
        }),
{
    reveal_names();
    reveal_with_fuel(param_named, 9);
    let c = insert_columns();
    assert(c.drop_first() =~= c.subrange(1, 8));
    assert(ps.drop_first() =~= ps.subrange(1, 8));
    assert(c.subrange(1, 8).drop_first() =~= c.subrange(2, 8));
    assert(ps.subrange(1, 8).drop_first() =~= ps.subrange(2, 8));
    assert(c.subrange(2, 8).drop_first() =~= c.subrange(3, 8));
    assert(ps.subrange(2, 8).drop_first() =~= ps.subrange(3, 8));
    assert(c.subrange(3, 8).drop_first() =~= c.subrange(4, 8));
    assert(ps.subrange(3, 8).drop_first() =~= ps.subrange(4, 8));
    assert(c.subrange(4, 8).drop_first() =~= c.subrange(5, 8));
    assert(ps.subrange(4, 8).drop_first() =~= ps.subrange(5, 8));
    assert(c.subrange(5, 8).drop_first() =~= c.subrange(6, 8));
    assert(ps.subrange(5, 8).drop_first() =~= ps.subrange(6, 8));
    assert(c.subrange(6, 8).drop_first() =~= c.subrange(7, 8));
    assert(ps.subrange(6, 8).drop_first() =~= ps.subrange(7, 8));
}

/// What `update_sql` with parameters `ps` makes of row `r`: the row whose id
/// is ?9 takes, in each column, the parameter that `update_columns` places
/// at it; other rows stay.
pub open spec fn updated_row(r: RowView, ps: Seq<ParamView>) -> RowView {
    let p = |name: Seq<char>| param_named(update_columns(), ps, name);
    if r.id == param_int(ps[8]) {
        RowView {
            id: r.id,
            name: param_text(p("name"@)),
            phone: param_text(p("phone"@)),
            address: param_opt_text(p("address"@)),
            visit_datetime: param_text(p("visit_datetime"@)),
            reason: param_opt_text(p("reason"@)),
            clinical_notes: param_opt_text(p("clinical_notes"@)),
            followup_required: param_int(p("followup_required"@)),
            followup_date: param_opt_text(p("followup_date"@)),
        }
    } else {
        r
    }
}

/// With nine parameters, column k of `update_columns` takes parameter k.
proof fn lemma_updated_row_by_position(r: RowView, ps: Seq<ParamView>)
    requires
        ps.len() == 9,
        r.id == param_int(ps[8]),
    ensures
        updated_row(r, ps) == (RowView {
            id: r.id,
            name: param_text(ps[0]),
            phone: param_text(ps[1]),
            address: param_opt_text(ps[2]),
            visit_datetime: param_text(ps[3]),
            reason: param_opt_text(ps[4]),
            clinical_notes: param_opt_text(ps[5]),
            followup_required: param_int(ps[6]),
            followup_date: param_opt_text(ps[7]),
        }),
{
    reveal_names();
    reveal_with_fuel(param_named, 9);
    let c = update_columns();
    assert(c.drop_first() =~= c.subrange(1, 8));
    assert(ps.drop_first() =~= ps.subrange(1, 9));
    assert(c.subrange(1, 8).drop_first() =~= c.subrange(2, 8));
    assert(ps.subrange(1, 9).drop_first() =~= ps.subrange(2, 9));
    assert(c.subrange(2, 8).drop_first() =~= c.subrange(3, 8));
    assert(ps.subrange(2, 9).drop_first() =~= ps.subrange(3, 9));
    assert(c.subrange(3, 8).drop_first() =~= c.subrange(4, 8));
    assert(ps.subrange(3, 9).drop_first() =~= ps.subrange(4, 9));
    assert(c.subrange(4, 8).drop_first() =~= c.subrange(5, 8));
    assert(ps.subrange(4, 9).drop_first() =~= ps.subrange(5, 9));
    assert(c.subrange(5, 8).drop_first() =~= c.subrange(6, 8));
    assert(ps.subrange(5, 9).drop_first() =~= ps.subrange(6, 9));
    assert(c.subrange(6, 8).drop_first() =~= c.subrange(7, 8));
    assert(ps.subrange(6, 9).drop_first() =~= ps.subrange(7, 9));
}

pub open spec fn after_insert(t: Seq<RowView>, ps: Seq<ParamView>, id: i64) -> Seq<RowView> {
    t.push(inserted_row(ps, id))
}

pub open spec fn after_update(t: Seq<RowView>, ps: Seq<ParamView>) -> Seq<RowView> {
    t.map_values(|r: RowView| updated_row(r, ps))
}

pub open spec fn after_delete(t: Seq<RowView>, id: i64) -> Seq<RowView> {
    t.filter(|r: RowView| r.id != id)
}

/// What listing the table returns.
pub open spec fn listed(t: Seq<RowView>) -> Seq<PatientView> {
    t.map_values(|r: RowView| record_of_row(r))
}

/// `p` with its id set to `id`.
pub open spec fn with_id(p: PatientView, id: i64) -> PatientView {
    PatientView { id: Some(id), ..p }
}

/// The stored follow-up code reads back as the flag it was written from.
pub proof fn lemma_follow_up_round_trip(b: bool)
    ensures
        flag_of_code(flag_code(b)) == b,
{
}

/// Inserting a record without an id and listing the table gives the earlier
/// listing followed by exactly one new record: equal to the inserted one in
/// every field, with the fresh id set, and that id held by no other record.
pub proof fn lemma_insert_then_list(t: Seq<RowView>, p: PatientView, id: i64)
    requires
        ids_ascending(t),
        fresh_id(t, id),
        p.id is None,
    ensures
        listed(after_insert(t, insert_params(p), id)) == listed(t).push(with_id(p, id)),
        ids_ascending(after_insert(t, insert_params(p), id)),
        forall|i: int| 0 <= i < t.len() ==> (#[trigger] listed(t)[i]).id != Some(id),
        flag_of_code(inserted_row(insert_params(p), id).followup_required) == p.follow_up_required,
{
    let t2 = after_insert(t, insert_params(p), id);
    lemma_inserted_row_by_position(insert_params(p), id);
    assert(record_of_row(inserted_row(insert_params(p), id)) == with_id(p, id));
    assert(listed(t2) =~= listed(t).push(with_id(p, id)));
}

/// Updating an existing record and listing the table replaces every field but
/// the id of that record, leaves every other record as it was, and keeps the
/// number of records and their ids, so no duplicate appears.
pub proof fn lemma_update_then_list(t: Seq<RowView>, p: PatientView, k: i64)
    requires
        ids_ascending(t),
        p.id == Some(k),
        exists|i: int| 0 <= i < t.len() && t[i].id == k,
    ensures
        listed(after_update(t, update_params(p, k))).len() == listed(t).len(),
        ids_ascending(after_update(t, update_params(p, k))),
        forall|i: int| 0 <= i < t.len() && t[i].id == k
            ==> #[trigger] listed(after_update(t, update_params(p, k)))[i] == p,
        forall|i: int| 0 <= i < t.len() && t[i].id != k
            ==> #[trigger] listed(after_update(t, update_params(p, k)))[i] == listed(t)[i],
{
    let ps = update_params(p, k);
    let t2 = after_update(t, ps);
    assert forall|i: int| 0 <= i < t.len() && t[i].id == k implies #[trigger] listed(t2)[i] == p by {
        assert(t2[i] == updated_row(t[i], ps));
        lemma_updated_row_by_position(t[i], ps);
    }
    assert forall|i: int| 0 <= i < t.len() && t[i].id != k implies #[trigger] listed(t2)[i] == listed(t)[i] by {
        assert(t2[i] == t[i]);
    }
    assert forall|i: int, j: int| 0 <= i < j < t2.len() implies t2[i].id < t2[j].id by {
        assert(t2[i].id == t[i].id);
        assert(t2[j].id == t[j].id);
    }
}

proof fn lemma_filter_twice(t: Seq<RowView>, id: i64)
    ensures
        after_delete(after_delete(t, id), id) == after_delete(t, id),
    decreases t.len(),
{
    let pred = |r: RowView| r.id != id;
    reveal(Seq::filter);
    if t.len() > 0 {
        let s = t.drop_last();
        lemma_filter_twice(s, id);
        assert(t.filter(pred) == if pred(t.last()) {
            s.filter(pred).push(t.last())
        } else {
            s.filter(pred)
        });
        if pred(t.last()) {
            let f = s.filter(pred).push(t.last());
            assert(f.drop_last() =~= s.filter(pred));
            assert(f.filter(pred) == f.drop_last().filter(pred).push(f.last()));
        }
    } else {
        assert(t.filter(pred) =~= t);
        assert(t.filter(pred).filter(pred) =~= t);
    }
}

/// Deleting an id removes exactly the record with that id: no listed record
/// keeps it, every record with another id stays, and deleting it again
/// changes nothing.
pub proof fn lemma_delete_then_list(t: Seq<RowView>, id: i64)
    requires
        ids_ascending(t),
    ensures
        forall|i: int| 0 <= i < listed(after_delete(t, id)).len()
            ==> (#[trigger] listed(after_delete(t, id))[i]).id != Some(id),
        forall|i: int| 0 <= i < t.len() && t[i].id != id
            ==> listed(after_delete(t, id)).contains(#[trigger] listed(t)[i]),
        after_delete(after_delete(t, id), id) == after_delete(t, id),
{
    let pred = |r: RowView| r.id != id;
    let d = after_delete(t, id);
    assert forall|i: int| 0 <= i < listed(d).len() implies (#[trigger] listed(d)[i]).id != Some(id) by {
        assert(pred(d[i]));
    }
    assert forall|i: int| 0 <= i < t.len() && t[i].id != id implies listed(d).contains(#[trigger] listed(t)[i]) by {
        assert(pred(t[i]));
        assert(d.contains(t[i]));
        let j = choose|j: int| 0 <= j < d.len() && d[j] == t[i];
        assert(listed(d)[j] == listed(t)[i]);
    }
    lemma_filter_twice(t, id);
}

} // verus!
