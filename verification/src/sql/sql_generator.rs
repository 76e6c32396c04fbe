//! SQL text for inserts, updates, deletes and key lookups of an entity, and
//! for the queries a `QueryWrapper` describes, with the values they bind.
use vstd::prelude::*;
use crate::base::datetime::LocalDateTime;
use crate::base::entity::{ColumnInfo, ColumnType, Entity};
use crate::base::param::{IntoParamValue, ParamValue, ParamValueView, param_views};
use crate::base::page::Page;
use crate::query::query::Query;
use crate::query::query_wrapper::{QueryWrapper, into_params, spec_params};
use crate::sql::where_sql::{WhereSqlGenerator, group_text, group_params, group_to_sql};
use crate::query::query::QueryItemGroup;
use crate::util::text::{
    join, join_strs, join_text, placeholders, placeholder_list, str_views, string_views, concat2, concat3,
    contains_str,
};

verus! {

/// The current time as a bound value.
fn now_param() -> (r: ParamValue)
    ensures
        r@ is DateTime,
{
    ParamValue::DateTime(LocalDateTime::now())
}

/// Whether an insert names this column: it has a value, or it is a
/// date-time column filled with the current time on insert or update.
pub open spec fn on_insert<E: Entity>(e: E, c: ColumnInfo) -> bool {
    ||| !(e.spec_value_by_column(c.column_name@) is Null)
    ||| (c.column_type == ColumnType::DateTime && (c.fill_on_insert || c.fill_on_update))
}

/// The columns an insert of `e` names, in order.
pub open spec fn insert_infos<E: Entity>(e: E, infos: Seq<ColumnInfo>) -> Seq<ColumnInfo>
    decreases infos.len(),
{
    if infos.len() == 0 {
        Seq::empty()
    } else {
        let rest = insert_infos(e, infos.drop_last());
        if on_insert(e, infos.last()) {
            rest.push(infos.last())
        } else {
            rest
        }
    }
}

/// Whether an update sets this column: it is not a skipped key column, and it
/// has a value (or nulls are written too), or it is a date-time column filled
/// with the current time on update.
pub open spec fn on_update<E: Entity>(e: E, c: ColumnInfo, keep_null: bool, skip_key: bool) -> bool {
    &&& !(skip_key && c.is_primary_key)
    &&& (keep_null || !(e.spec_value_by_column(c.column_name@) is Null)
        || (c.fill_on_update && c.column_type == ColumnType::DateTime))
}

/// The columns an update of `e` sets, in order.
pub open spec fn update_infos<E: Entity>(e: E, infos: Seq<ColumnInfo>, keep_null: bool, skip_key: bool) -> Seq<ColumnInfo>
    decreases infos.len(),
{
    if infos.len() == 0 {
        Seq::empty()
    } else {
        let rest = update_infos(e, infos.drop_last(), keep_null, skip_key);
        if on_update(e, infos.last(), keep_null, skip_key) {
            rest.push(infos.last())
        } else {
            rest
        }
    }
}

/// The value bound for a column: its own value where that is used (it is not
/// null, or nulls are written too), else some current time.
pub open spec fn fill_ok(v: ParamValueView, keep_null: bool, p: ParamValueView) -> bool {
    if keep_null || !(v is Null) {
        p == v
    } else {
        p is DateTime
    }
}

/// `params` are the values bound for the columns `infos` of `e`, one each.
pub open spec fn filled<E: Entity>(e: E, infos: Seq<ColumnInfo>, keep_null: bool, params: Seq<ParamValueView>) -> bool {
    &&& params.len() == infos.len()
    &&& forall|i: int| 0 <= i < infos.len() ==>
        #[trigger] fill_ok(e.spec_value_by_column(infos[i].column_name@), keep_null, params[i])
}

/// The names of columns.
pub open spec fn info_names(infos: Seq<ColumnInfo>) -> Seq<Seq<char>> {
    infos.map_values(|c: ColumnInfo| c.column_name@)
}

/// The assignments `name = ?` of columns.
pub open spec fn assign_texts(infos: Seq<ColumnInfo>) -> Seq<Seq<char>> {
    infos.map_values(|c: ColumnInfo| c.column_name@ + " = ?"@)
}

/// The text of an insert of one row into `table` naming `names`.
pub open spec fn insert_text(table: Seq<char>, names: Seq<Seq<char>>) -> Seq<char> {
    "insert into "@ + table + "("@ + join_text(names, ","@) + ") values ("@ + placeholders(names.len()) + ")"@
}

/// The text of an update of `table` setting `assignments` where `condition`.
pub open spec fn update_text(table: Seq<char>, assignments: Seq<Seq<char>>, condition: Seq<char>) -> Seq<char> {
    "update "@ + table + " set "@ + join_text(assignments, ","@) + " where "@ + condition
}

/// The columns an insert of `e` names, and the values bound for them.
fn insert_columns<E: Entity>(e: &E) -> (r: (Vec<&'static str>, Vec<ParamValue>))
    ensures
        str_views(r.0@) == info_names(insert_infos(*e, E::spec_column_infos())),
        filled(*e, insert_infos(*e, E::spec_column_infos()), false, param_views(r.1@)),
{
    let infos = E::get_column_infos();
    let ghost all = infos@;
    let mut names: Vec<&'static str> = Vec::new();
    let mut params: Vec<ParamValue> = Vec::new();
    let mut i: usize = 0;
    while i < infos.len()
        invariant
            i <= all.len(),
            all == infos@,
            all == E::spec_column_infos(),
            str_views(names@) == info_names(insert_infos(*e, all.take(i as int))),
            filled(*e, insert_infos(*e, all.take(i as int)), false, param_views(params@)),
        decreases all.len() - i,
    {
        let info = infos[i];
        let value = e.get_value_by_column_name(info.column_name);
        let ghost before = insert_infos(*e, all.take(i as int));
        let ghost names0 = names@;
        let ghost params0 = params@;
        proof {
            assert(all.take(i + 1).drop_last() =~= all.take(i as int));
            assert(all.take(i + 1).last() == info);
        }
        if value.is_not_null() {
            names.push(info.column_name);
            params.push(value);
        } else if info.column_type == ColumnType::DateTime && (info.fill_on_insert || info.fill_on_update) {
            names.push(info.column_name);
            params.push(now_param());
        }
        proof {
            let after = insert_infos(*e, all.take(i + 1));
            if on_insert(*e, info) {
                assert(after == before.push(info));
                assert(str_views(names@) =~= str_views(names0).push(info.column_name@));
                assert(info_names(after) =~= info_names(before).push(info.column_name@));
                assert(param_views(params@) =~= param_views(params0).push(params@.last()@));
                assert forall|k: int| 0 <= k < after.len() implies #[trigger] fill_ok(
                    e.spec_value_by_column(after[k].column_name@),
                    false,
                    param_views(params@)[k],
                ) by {
                    if k < before.len() {
                        assert(after[k] == before[k]);
                        assert(param_views(params@)[k] == param_views(params0)[k]);
                    }
                }
            } else {
                assert(after == before);
            }
        }
        i = i + 1;
    }
    proof {
        assert(all.take(all.len() as int) =~= all);
    }
    (names, params)
}

/// The assignments an update of `e` makes, and the values bound for them.
fn assignments<E: Entity>(e: &E, keep_null: bool, skip_key: bool) -> (r: (Vec<String>, Vec<ParamValue>))
    ensures
        string_views(r.0@) == assign_texts(update_infos(*e, E::spec_column_infos(), keep_null, skip_key)),
        filled(*e, update_infos(*e, E::spec_column_infos(), keep_null, skip_key), keep_null, param_views(r.1@)),
{
    let infos = E::get_column_infos();
    let ghost all = infos@;
    let mut parts: Vec<String> = Vec::new();
    let mut params: Vec<ParamValue> = Vec::new();
    let mut i: usize = 0;
    while i < infos.len()
        invariant
            i <= all.len(),
            all == infos@,
            all == E::spec_column_infos(),
            string_views(parts@) == assign_texts(update_infos(*e, all.take(i as int), keep_null, skip_key)),
            filled(*e, update_infos(*e, all.take(i as int), keep_null, skip_key), keep_null, param_views(params@)),
        decreases all.len() - i,
    {
        let info = infos[i];
        let ghost before = update_infos(*e, all.take(i as int), keep_null, skip_key);
        let ghost parts0 = parts@;
        let ghost params0 = params@;
        proof {
            assert(all.take(i + 1).drop_last() =~= all.take(i as int));
            assert(all.take(i + 1).last() == info);
        }
        if !(skip_key && info.is_primary_key) {
            let value = e.get_value_by_column_name(info.column_name);
            if keep_null || value.is_not_null() {
                parts.push(concat2(info.column_name, " = ?"));
                params.push(value);
            } else if info.fill_on_update && info.column_type == ColumnType::DateTime {
                parts.push(concat2(info.column_name, " = ?"));
                params.push(now_param());
            }
        }
        proof {
            let after = update_infos(*e, all.take(i + 1), keep_null, skip_key);
            if on_update(*e, info, keep_null, skip_key) {
                assert(after == before.push(info));
                assert(string_views(parts@) =~= string_views(parts0).push(info.column_name@ + " = ?"@));
                assert(assign_texts(after) =~= assign_texts(before).push(info.column_name@ + " = ?"@));
                assert(param_views(params@) =~= param_views(params0).push(params@.last()@));
                assert forall|k: int| 0 <= k < after.len() implies #[trigger] fill_ok(
                    e.spec_value_by_column(after[k].column_name@),
                    keep_null,
                    param_views(params@)[k],
                ) by {
                    if k < before.len() {
                        assert(after[k] == before[k]);
                        assert(param_views(params@)[k] == param_views(params0)[k]);
                    }
                }
            } else {
                assert(after == before);
            }
        }
        i = i + 1;
    }
    proof {
        assert(all.take(all.len() as int) =~= all);
    }
    (parts, params)
}

/// Which columns an update sets: none of no columns; of columns followed by
/// `c`, those of the first columns, then `c` exactly when it is not a key
/// column that is skipped and either its value is written (it is not null,
/// or nulls are written too) or it is a date-time column filled with the
/// current time on update. Whether it is filled on insert plays no part.
pub proof fn law_update_sets_columns<E: Entity>(
    e: E,
    infos: Seq<ColumnInfo>,
    c: ColumnInfo,
    keep_null: bool,
    skip_key: bool,
)
    ensures
        update_infos(e, Seq::<ColumnInfo>::empty(), keep_null, skip_key).len() == 0,
        update_infos(e, infos.push(c), keep_null, skip_key) == (if !(skip_key && c.is_primary_key) && (keep_null
            || !(e.spec_value_by_column(c.column_name@) is Null) || (c.column_type == ColumnType::DateTime
            && c.fill_on_update)) {
            update_infos(e, infos, keep_null, skip_key).push(c)
        } else {
            update_infos(e, infos, keep_null, skip_key)
        }),
{
    assert(infos.push(c).drop_last() =~= infos);
}

/// Which columns an insert names: none of no columns; of columns followed
/// by `c`, those of the first columns, then `c` exactly when its value is
/// not null or it is a date-time column filled with the current time on
/// insert or on update.
pub proof fn law_insert_names_columns<E: Entity>(e: E, infos: Seq<ColumnInfo>, c: ColumnInfo)
    ensures
        insert_infos(e, Seq::<ColumnInfo>::empty()).len() == 0,
        insert_infos(e, infos.push(c)) == (if !(e.spec_value_by_column(c.column_name@) is Null) || (c.column_type
            == ColumnType::DateTime && (c.fill_on_insert || c.fill_on_update)) {
            insert_infos(e, infos).push(c)
        } else {
            insert_infos(e, infos)
        }),
{
    assert(infos.push(c).drop_last() =~= infos);
}

/// The value bound for a column an update sets or an insert names: its own
/// value where that is written, and a date-time (the current time) where the
/// column is null and nulls are not written.
pub proof fn law_bound_values(v: ParamValueView, keep_null: bool, p: ParamValueView)
    ensures
        (keep_null || !(v is Null)) ==> (fill_ok(v, keep_null, p) <==> p == v),
        (!keep_null && v is Null) ==> (fill_ok(v, keep_null, p) <==> p is DateTime),
{
}

/// The value bound for column `c` of a row of a batch insert: its own value
/// where it is not null, else a date-time (the current time) for a date-time
/// column filled on insert or on update, else `Null`.
pub proof fn law_batch_values<E: Entity>(e: E, c: ColumnInfo, p: ParamValueView)
    ensures
        !(e.spec_value_by_column(c.column_name@) is Null) ==> (batch_fill_ok(e, c, p) <==> p
            == e.spec_value_by_column(c.column_name@)),
        (e.spec_value_by_column(c.column_name@) is Null && c.column_type == ColumnType::DateTime && (c.fill_on_insert
            || c.fill_on_update)) ==> (batch_fill_ok(e, c, p) <==> p is DateTime),
        (e.spec_value_by_column(c.column_name@) is Null && !(c.column_type == ColumnType::DateTime && (
        c.fill_on_insert || c.fill_on_update))) ==> (batch_fill_ok(e, c, p) <==> p is Null),
{
}

/// The shape of the statements: an insert names its columns and binds one
/// `?` each; an update sets `column = ?` for each column, joined by commas;
/// lookups and deletes by key compare the key column with `?`, or with a
/// list of `n` placeholders; a batch insert writes one group of placeholders
/// per row, joined by commas.
pub proof fn law_statement_texts(
    table: Seq<char>,
    key: Seq<char>,
    names: Seq<Seq<char>>,
    infos: Seq<ColumnInfo>,
    assignments: Seq<Seq<char>>,
    condition: Seq<char>,
    n: nat,
)
    ensures
        insert_text(table, names) == "insert into "@ + table + "("@ + join_text(names, ","@) + ") values ("@
            + placeholders(names.len()) + ")"@,
        update_text(table, assignments, condition) == "update "@ + table + " set "@ + join_text(assignments, ","@)
            + " where "@ + condition,
        select_by_key_text(table, key) == "select * from "@ + table + " where "@ + key + " = ?"@,
        delete_by_key_text(table, key) == "delete from "@ + table + " where "@ + key + " = ?"@,
        select_by_keys_text(table, key, n) == "select * from "@ + table + " where "@ + key + " in ("@
            + placeholders(n) + ")"@,
        delete_by_keys_text(table, key, n) == "delete from "@ + table + " where "@ + key + " in ("@
            + placeholders(n) + ")"@,
        batch_text(table, names, n) == "insert into "@ + table + "("@ + join_text(names, ","@) + ") values "@
            + join_text(Seq::new(n, |i: int| "("@ + placeholders(names.len()) + ")"@), ","@),
        assign_texts(infos).len() == infos.len(),
        forall|i: int| 0 <= i < infos.len() ==> #[trigger] assign_texts(infos)[i] == infos[i].column_name@ + " = ?"@,
        info_names(infos).len() == infos.len(),
        forall|i: int| 0 <= i < infos.len() ==> #[trigger] info_names(infos)[i] == infos[i].column_name@,
        join_text(Seq::<Seq<char>>::empty(), ","@).len() == 0,
        names.len() == 1 ==> join_text(names, ","@) == names[0],
        names.len() >= 1 ==> join_text(names.push(key), ","@) == join_text(names, ","@) + ","@ + key,
        placeholders(0).len() == 0,
        placeholders(1) == "?"@,
        n >= 1 ==> placeholders(n + 1) == placeholders(n) + ","@ + "?"@,
{
    assert(names.push(key).drop_last() =~= names);
    assert(Seq::new(1, |i: int| "?"@)[0] == "?"@);
    if n >= 1 {
        let a = Seq::new(n + 1, |i: int| "?"@);
        assert(a.drop_last() =~= Seq::new(n, |i: int| "?"@));
    }
}

/// The value bound for column `c` of `e` in an insert of several rows: its
/// own value where it has one, else some current time for a date-time column
/// filled on insert or update, else `Null`.
pub open spec fn batch_fill_ok<E: Entity>(e: E, c: ColumnInfo, p: ParamValueView) -> bool {
    let v = e.spec_value_by_column(c.column_name@);
    if !(v is Null) {
        p == v
    } else if c.column_type == ColumnType::DateTime && (c.fill_on_insert || c.fill_on_update) {
        p is DateTime
    } else {
        p is Null
    }
}

/// `params` are the values of one row: one for every column, in order.
pub open spec fn row_filled<E: Entity>(e: E, infos: Seq<ColumnInfo>, params: Seq<ParamValueView>) -> bool {
    &&& params.len() == infos.len()
    &&& forall|i: int| 0 <= i < infos.len() ==> #[trigger] batch_fill_ok(e, infos[i], params[i])
}

/// The values bound by an insert of several rows: for each row in turn, one
/// value for every column.
pub open spec fn batch_filled<E: Entity>(es: Seq<E>, infos: Seq<ColumnInfo>, params: Seq<ParamValueView>) -> bool
    decreases es.len(),
{
    if es.len() == 0 {
        params.len() == 0
    } else {
        let k = params.len() - infos.len();
        &&& infos.len() <= params.len()
        &&& batch_filled(es.drop_last(), infos, params.take(k))
        &&& row_filled(es.last(), infos, params.skip(k))
    }
}

/// The values of one row of an insert of several rows.
fn row_values<E: Entity>(e: &E) -> (r: Vec<ParamValue>)
    ensures
        row_filled(*e, E::spec_column_infos(), param_views(r@)),
{
    let infos = E::get_column_infos();
    let ghost all = infos@;
    let mut params: Vec<ParamValue> = Vec::new();
    let mut i: usize = 0;
    while i < infos.len()
        invariant
            i <= all.len(),
            all == infos@,
            all == E::spec_column_infos(),
            row_filled(*e, all.take(i as int), param_views(params@)),
        decreases all.len() - i,
    {
        let info = infos[i];
        let value = e.get_value_by_column_name(info.column_name);
        let ghost params0 = param_views(params@);
        if value.is_not_null() {
            params.push(value);
        } else if info.column_type == ColumnType::DateTime && (info.fill_on_insert || info.fill_on_update) {
            params.push(now_param());
        } else {
            params.push(ParamValue::Null);
        }
        proof {
            let t = all.take(i + 1);
            assert(t =~= all.take(i as int).push(info));
            assert(param_views(params@) =~= params0.push(params@.last()@));
            assert(batch_fill_ok(*e, info, params@.last()@));
            assert forall|k: int| 0 <= k < t.len() implies #[trigger] batch_fill_ok(*e, t[k], param_views(params@)[k]) by {
                if k < i {
                    assert(t[k] == all.take(i as int)[k]);
                    assert(param_views(params@)[k] == params0[k]);
                }
            }
        }
        i = i + 1;
    }
    proof {
        assert(all.take(all.len() as int) =~= all);
    }
    params
}

/// The text of an insert of `rows` rows into `table`, each binding one value
/// per name of `names`.
pub open spec fn batch_text(table: Seq<char>, names: Seq<Seq<char>>, rows: nat) -> Seq<char> {
    "insert into "@ + table + "("@ + join_text(names, ","@) + ") values "@ + join_text(
        Seq::new(rows, |i: int| "("@ + placeholders(names.len()) + ")"@),
        ","@,
    )
}

/// The text of a lookup of a row of `table` by its key.
pub open spec fn select_by_key_text(table: Seq<char>, key: Seq<char>) -> Seq<char> {
    "select * from "@ + table + " where "@ + key + " = ?"@
}

/// The text of a lookup of the rows of `table` with one of `n` keys.
pub open spec fn select_by_keys_text(table: Seq<char>, key: Seq<char>, n: nat) -> Seq<char> {
    "select * from "@ + table + " where "@ + key + " in ("@ + placeholders(n) + ")"@
}

/// The text of a delete of a row of `table` by its key.
pub open spec fn delete_by_key_text(table: Seq<char>, key: Seq<char>) -> Seq<char> {
    "delete from "@ + table + " where "@ + key + " = ?"@
}

/// The text of a delete of the rows of `table` with one of `n` keys.
pub open spec fn delete_by_keys_text(table: Seq<char>, key: Seq<char>, n: nat) -> Seq<char> {
    "delete from "@ + table + " where "@ + key + " in ("@ + placeholders(n) + ")"@
}

/// The text that counts the rows of a query.
pub open spec fn total_text(query_sql: Seq<char>) -> Seq<char> {
    "select count(*) from ("@ + query_sql + ") t"@
}

/// The two values bound for a page of a query.
pub open spec fn page_params(args: (u64, u64)) -> Seq<ParamValueView> {
    seq![ParamValueView::U64(args.0), ParamValueView::U64(args.1)]
}

/// The n texts "(?,...)" of a multi-row insert.
fn row_groups(rows: usize, width: usize) -> (r: Vec<String>)
    ensures
        string_views(r@) == Seq::new(rows as nat, |i: int| "("@ + placeholders(width as nat) + ")"@),
{
    let ghost target = Seq::new(rows as nat, |i: int| "("@ + placeholders(width as nat) + ")"@);
    let mut r: Vec<String> = Vec::new();
    let mut i: usize = 0;
    while i < rows
        invariant
            i <= rows,
            target == Seq::new(rows as nat, |i: int| "("@ + placeholders(width as nat) + ")"@),
            string_views(r@) =~= target.take(i as int),
        decreases rows - i,
    {
        let marks = placeholder_list(width);
        let group = concat3("(", marks.as_str(), ")");
        let ghost r0 = r@;
        r.push(group);
        proof {
            assert(r@ == r0.push(group));
            assert(string_views(r@) =~= string_views(r0).push(group@));
            assert(target.take(i + 1) =~= target.take(i as int).push(target[i as int]));
            assert(string_views(r@) =~= target.take(i + 1));
        }
        i = i + 1;
    }
    r
}

/// `p` is the value of some clone of `k`.
pub open spec fn cloned_param<K: IntoParamValue + Clone>(k: K, p: ParamValueView) -> bool {
    exists|c: K| cloned::<K>(k, c) && p == c.spec_param()
}

/// Clones each key and converts it to a value.
fn cloned_key_params<K: IntoParamValue + Clone>(ks: &Vec<K>) -> (r: Vec<ParamValue>)
    ensures
        r@.len() == ks@.len(),
        forall|i: int| 0 <= i < ks@.len() ==> #[trigger] cloned_param(ks@[i], r@[i]@),
{
    let mut r: Vec<ParamValue> = Vec::new();
    let mut i: usize = 0;
    while i < ks.len()
        invariant
            i <= ks@.len(),
            r@.len() == i,
            forall|j: int| 0 <= j < i ==> #[trigger] cloned_param(ks@[j], r@[j]@),
        decreases ks@.len() - i,
    {
        let c = ks[i].clone();
        let ghost cg = c;
        let ghost r0 = r@;
        r.push(c.into_param_value());
        proof {
            assert(cloned::<K>(ks@[i as int], cg) && r@[i as int]@ == cg.spec_param());
            assert(cloned_param(ks@[i as int], r@[i as int]@));
            assert forall|j: int| 0 <= j < i + 1 implies #[trigger] cloned_param(ks@[j], r@[j]@) by {
                if j < i {
                    assert(r@[j] == r0[j]);
                }
            }
        }
        i = i + 1;
    }
    r
}

/// How a dialect pages a query.
pub trait PageSqlGenerator: Sized {
    /// Whether a page can be taken with these arguments (the arithmetic on
    /// them stays within `u64`).
    spec fn page_args_ok(&self, current_page: u64, page_size: u64) -> bool;

    /// The text that takes a page of a query.
    spec fn spec_page_query_sql(&self, query_sql: Seq<char>) -> Seq<char>;

    /// The two values bound for a page.
    spec fn spec_page_args(&self, current_page: u64, page_size: u64) -> (u64, u64);

    /// Whether this generator pages queries at all.
    spec fn has_page_sql(&self) -> bool;

    /// Where pages are offered, the first page can always be taken.
    proof fn lemma_first_page(&self, page_size: u64)
        requires
            self.has_page_sql(),
        ensures
            self.page_args_ok(1, page_size),
    ;

    /// The text that takes a page of a query, and the two values it binds.
    fn gen_page_query_sql(&self, query_sql: &str, current_page: u64, page_size: u64) -> (r: (String, u64, u64))
        requires
            self.has_page_sql(),
            self.page_args_ok(current_page, page_size),
        ensures
            r.0@ == self.spec_page_query_sql(query_sql@),
            (r.1, r.2) == self.spec_page_args(current_page, page_size),
    ;

    /// The text that counts the rows of a query.
    fn gen_page_total_sql(&self, query_sql: &str) -> (r: String)
        ensures
            r@ == total_text(query_sql@),
    {
        concat3("select count(*) from (", query_sql, ") t")
    }
}

/// Inserts, updates, deletes and key lookups of an entity.
pub trait BaseSqlGenerator: Sized {
    /// Whether this dialect inserts a row and reads back its generated key
    /// in one statement.
    spec fn supports_insert_and_get_id(&self) -> bool;

    /// The statement that inserts by `insert_sql` and reads back the key.
    spec fn spec_insert_and_get_id(&self, insert_sql: Seq<char>) -> Seq<char>;

    /// The insert of one row: the columns that have a value, and the
    /// date-time columns filled with the current time on insert or update.
    fn gen_insert_one_sql<E: Entity>(&self, e: &E) -> (r: (String, Vec<ParamValue>))
        ensures
            r.0@ == insert_text(E::spec_table_name(), info_names(insert_infos(*e, E::spec_column_infos()))),
            filled(*e, insert_infos(*e, E::spec_column_infos()), false, param_views(r.1@)),
    {
        let (names, params) = insert_columns(e);
        let columns = join_strs(&names, ",");
        let marks = placeholder_list(names.len());
        let head = concat3("insert into ", E::table_name(), "(");
        let mid = concat3(head.as_str(), columns.as_str(), ") values (");
        (concat3(mid.as_str(), marks.as_str(), ")"), params)
    }

    /// The insert of several rows: every column name, one group of
    /// placeholders per row (groups separated by commas), and for each row
    /// one value per column (`Null` for an empty one).
    fn gen_insert_batch_sql<E: Entity>(&self, e_vec: &Vec<E>) -> (r: (String, Vec<ParamValue>))
        ensures
            r.0@ == batch_text(E::spec_table_name(), E::spec_column_names(), e_vec@.len()),
            batch_filled(e_vec@, E::spec_column_infos(), param_views(r.1@)),
    {
        let mut params: Vec<ParamValue> = Vec::new();
        let mut k: usize = 0;
        while k < e_vec.len()
            invariant
                k <= e_vec@.len(),
                batch_filled(e_vec@.take(k as int), E::spec_column_infos(), param_views(params@)),
            decreases e_vec@.len() - k,
        {
            let ghost before = param_views(params@);
            let more = row_values(&e_vec[k]);
            let ghost added = param_views(more@);
            let mut more = more;
            params.append(&mut more);
            proof {
                let es = e_vec@.take(k + 1);
                let all = param_views(params@);
                assert(all =~= before + added);
                assert(es.drop_last() =~= e_vec@.take(k as int));
                assert(es.last() == e_vec@[k as int]);
                let row = E::spec_column_infos();
                assert(added.len() == row.len());
                assert(all.take(all.len() - row.len()) =~= before);
                assert(all.skip(all.len() - row.len()) =~= added);
            }
            k = k + 1;
        }
        proof {
            assert(e_vec@.take(e_vec@.len() as int) =~= e_vec@);
        }
        let names = E::column_names();
        let columns = join_strs(&names, ",");
        let groups = row_groups(e_vec.len(), names.len());
        let values = join(&groups, ",");
        let head = concat3("insert into ", E::table_name(), "(");
        let mid = concat3(head.as_str(), columns.as_str(), ") values ");
        (concat2(mid.as_str(), values.as_str()), params)
    }

    /// The lookup of a row by its key.
    fn gen_select_by_key_sql<E: Entity>(&self, k: E::K) -> (r: (String, ParamValue))
        ensures
            r.0@ == select_by_key_text(E::spec_table_name(), E::spec_key_name()),
            r.1@ == k.spec_param(),
    {
        let head = concat3("select * from ", E::table_name(), " where ");
        (concat3(head.as_str(), E::key_name(), " = ?"), k.into_param_value())
    }

    /// The lookup of the rows with one of the keys: one placeholder per key,
    /// and every key bound in order.
    fn gen_select_by_keys_sql<E: Entity>(&self, ks: Vec<E::K>) -> (r: (String, Vec<ParamValue>))
        ensures
            r.0@ == select_by_keys_text(E::spec_table_name(), E::spec_key_name(), ks@.len()),
            param_views(r.1@) == spec_params(ks@),
    {
        let head = concat3("select * from ", E::table_name(), " where ");
        let mid = concat3(head.as_str(), E::key_name(), " in (");
        let marks = placeholder_list(ks.len());
        (concat3(mid.as_str(), marks.as_str(), ")"), into_params(ks))
    }

    /// The delete of a row by its key, bound as a clone of the key.
    fn gen_delete_by_key_sql<E: Entity>(&self, k: &E::K) -> (r: (String, ParamValue))
        ensures
            r.0@ == delete_by_key_text(E::spec_table_name(), E::spec_key_name()),
            cloned_param(*k, r.1@),
    {
        let head = concat3("delete from ", E::table_name(), " where ");
        let c = k.clone();
        let ghost cg = c;
        let value = c.into_param_value();
        proof {
            assert(cloned::<E::K>(*k, cg) && value@ == cg.spec_param());
        }
        (concat3(head.as_str(), E::key_name(), " = ?"), value)
    }

    /// The delete of the rows with one of the keys, each bound as a clone.
    fn gen_delete_by_keys_sql<E: Entity>(&self, ks: &Vec<E::K>) -> (r: (String, Vec<ParamValue>))
        ensures
            r.0@ == delete_by_keys_text(E::spec_table_name(), E::spec_key_name(), ks@.len()),
            r.1@.len() == ks@.len(),
            forall|i: int| 0 <= i < ks@.len() ==> #[trigger] cloned_param(ks@[i], r.1@[i]@),
    {
        let head = concat3("delete from ", E::table_name(), " where ");
        let mid = concat3(head.as_str(), E::key_name(), " in (");
        let marks = placeholder_list(ks.len());
        (concat3(mid.as_str(), marks.as_str(), ")"), cloned_key_params(ks))
    }

    /// The update of a row by its key: every other column that has a value
    /// (or every other column, where `is_update_null`), and the date-time
    /// columns filled with the current time on update; the key is bound last.
    fn gen_update_by_key_sql<E: Entity>(&self, e: &E, is_update_null: bool) -> (r: (String, Vec<ParamValue>))
        requires
            e.key_ready(),
        ensures
            r.0@ == update_text(
                E::spec_table_name(),
                assign_texts(update_infos(*e, E::spec_column_infos(), is_update_null, true)),
                E::spec_key_name() + " = ?"@,
            ),
            param_views(r.1@).len() > 0,
            filled(*e, update_infos(*e, E::spec_column_infos(), is_update_null, true), is_update_null,
                param_views(r.1@).drop_last()),
            param_views(r.1@).last() == e.spec_key().spec_param(),
    {
        let (parts, params) = assignments(e, is_update_null, true);
        let ghost values = param_views(params@);
        let mut params = params;
        params.push(e.key().into_param_value());
        proof {
            assert(param_views(params@).drop_last() =~= values);
        }
        let sets = join(&parts, ",");
        let head = concat3("update ", E::table_name(), " set ");
        let mid = concat3(head.as_str(), sets.as_str(), " where ");
        (concat3(mid.as_str(), E::key_name(), " = ?"), params)
    }

    /// The insert of one row followed by the read of its generated key.
    fn gen_insert_and_get_id_sql<E: Entity>(&self, e: &E) -> (r: (String, Vec<ParamValue>))
        requires
            self.supports_insert_and_get_id(),
        ensures
            r.0@ == self.spec_insert_and_get_id(
                insert_text(E::spec_table_name(), info_names(insert_infos(*e, E::spec_column_infos()))),
            ),
            filled(*e, insert_infos(*e, E::spec_column_infos()), false, param_views(r.1@)),
    ;
}

/// The names of `names` that are not in `excluded`, in order.
pub open spec fn without(names: Seq<Seq<char>>, excluded: Seq<Seq<char>>) -> Seq<Seq<char>>
    decreases names.len(),
{
    if names.len() == 0 {
        Seq::empty()
    } else {
        let rest = without(names.drop_last(), excluded);
        if excluded.contains(names.last()) {
            rest
        } else {
            rest.push(names.last())
        }
    }
}

/// The names kept are exactly those of `names` not in `excluded`, in order:
/// none of them is excluded, and every name not excluded is kept.
pub proof fn lemma_without_excludes(names: Seq<Seq<char>>, excluded: Seq<Seq<char>>)
    ensures
        forall|i: int| 0 <= i < without(names, excluded).len() ==> !excluded.contains(
            #[trigger] without(names, excluded)[i],
        ),
        forall|n: Seq<char>| names.contains(n) && !excluded.contains(n) ==> #[trigger] without(
            names,
            excluded,
        ).contains(n),
    decreases names.len(),
{
    if names.len() > 0 {
        let rest = names.drop_last();
        lemma_without_excludes(rest, excluded);
        let w = without(names, excluded);
        let wr = without(rest, excluded);
        assert forall|n: Seq<char>| names.contains(n) && !excluded.contains(n) implies #[trigger] w.contains(n) by {
            let k = choose|k: int| 0 <= k < names.len() && names[k] == n;
            if k < names.len() - 1 {
                assert(rest[k] == n);
                assert(rest.contains(n));
                assert(wr.contains(n));
                let j = choose|j: int| 0 <= j < wr.len() && wr[j] == n;
                if excluded.contains(names.last()) {
                    assert(w == wr);
                } else {
                    assert(w == wr.push(names.last()));
                    assert(w[j] == wr[j]);
                }
                assert(w[j] == n);
            } else {
                assert(names.last() == n);
                assert(w == wr.push(names.last()));
                assert(w[w.len() - 1] == n);
            }
        }
        assert forall|i: int| 0 <= i < w.len() implies !excluded.contains(#[trigger] w[i]) by {
            if excluded.contains(names.last()) {
                assert(w == wr);
            } else {
                assert(w == wr.push(names.last()));
                if i < wr.len() {
                    assert(w[i] == wr[i]);
                }
            }
        }
    }
}

/// The selected columns of a query: the included columns where there are
/// any, else the entity's columns without the excluded ones.
pub open spec fn column_list_text<'a, E: Entity>(q: Query<'a>) -> Seq<char> {
    if q.select_include_columns@.len() > 0 {
        join_text(str_views(q.select_include_columns@), ","@)
    } else {
        join_text(without(E::spec_column_names(), str_views(q.select_exclude_columns@)), ","@)
    }
}

/// Dropping excluded names keeps exactly the names that are not excluded:
/// every name kept is one of the names and not excluded, and every name
/// that is not excluded is kept.
pub proof fn law_without(names: Seq<Seq<char>>, excluded: Seq<Seq<char>>)
    ensures
        forall|x: Seq<char>| #[trigger] without(names, excluded).contains(x) <==> (names.contains(x)
            && !excluded.contains(x)),
        without(names, excluded).len() <= names.len(),
        without(names, Seq::empty()) == names,
    decreases names.len(),
{
    if names.len() > 0 {
        let init = names.drop_last();
        law_without(init, excluded);
        let rest = without(init, excluded);
        assert forall|x: Seq<char>| #[trigger] without(names, excluded).contains(x) <==> (names.contains(x)
            && !excluded.contains(x)) by {
            if names.contains(x) {
                let k = choose|k: int| 0 <= k < names.len() && names[k] == x;
                if k < names.len() - 1 {
                    assert(init[k] == x);
                }
            }
            if init.contains(x) {
                let k = choose|k: int| 0 <= k < init.len() && init[k] == x;
                assert(names[k] == x);
            }
            if !excluded.contains(names.last()) {
                assert(rest.push(names.last())[rest.len() as int] == names.last());
                if rest.contains(x) {
                    let k = choose|k: int| 0 <= k < rest.len() && rest[k] == x;
                    assert(rest.push(names.last())[k] == x);
                }
                if rest.push(names.last()).contains(x) {
                    let k = choose|k: int| 0 <= k < rest.len() + 1 && rest.push(names.last())[k] == x;
                    if k < rest.len() {
                        assert(rest[k] == x);
                    }
                }
            }
            assert(names.last() == names[names.len() - 1]);
        }
        assert(without(names, Seq::empty()) == without(init, Seq::empty()).push(names.last()));
        assert(names =~= init.push(names.last()));
    }
}

/// The text of a query: "select", the selected columns (those chosen, else
/// every column of the entity but those left out), "from" and the table;
/// then, only where there are conditions, "where" and their text; only
/// where there is a grouping, "group by" and its columns; only where there
/// is an ordering, "order by" and each column with "ASC" or "DESC". With a
/// limit the query becomes the first page of that size, binding the values
/// of its conditions and then those of the page.
pub proof fn law_query_texts<'a, G: PageSqlGenerator, E: Entity>(g: G, q: Query<'a>, c: &'a str)
    ensures
        order_text((c, true)) == c@ + " ASC"@,
        order_text((c, false)) == c@ + " DESC"@,
        q.select_include_columns@.len() > 0 ==> column_list_text::<E>(q) == join_text(
            str_views(q.select_include_columns@),
            ","@,
        ),
        q.select_include_columns@.len() == 0 ==> column_list_text::<E>(q) == join_text(
            without(E::spec_column_names(), str_views(q.select_exclude_columns@)),
            ","@,
        ),
        (q.query_group.query_item_nodes@.len() == 0 && q.group_by_columns@.len() == 0
            && q.order_by_types@.len() == 0) ==> query_base_text::<E>(q) == "select "@ + column_list_text::<E>(q)
            + " from "@ + E::spec_table_name(),
        (q.query_group.query_item_nodes@.len() > 0 && q.group_by_columns@.len() == 0
            && q.order_by_types@.len() == 0) ==> query_base_text::<E>(q) == "select "@ + column_list_text::<E>(q)
            + " from "@ + E::spec_table_name() + " where "@ + group_text(q.query_group),
        (q.query_group.query_item_nodes@.len() == 0 && q.group_by_columns@.len() == 0
            && q.order_by_types@.len() > 0) ==> query_base_text::<E>(q) == "select "@ + column_list_text::<E>(q)
            + " from "@ + E::spec_table_name() + " order by "@ + join_text(order_texts(q.order_by_types@), ","@),
        (q.query_group.query_item_nodes@.len() == 0 && q.group_by_columns@.len() > 0
            && q.order_by_types@.len() == 0) ==> query_base_text::<E>(q) == "select "@ + column_list_text::<E>(q)
            + " from "@ + E::spec_table_name() + " group by "@ + join_text(str_views(q.group_by_columns@), ","@),
        q.limit_size is None ==> query_text::<G, E>(g, q) == query_base_text::<E>(q) && query_params(g, q) == group_params(
            q.query_group,
        ),
        q.limit_size matches Some(n) ==> query_text::<G, E>(g, q) == g.spec_page_query_sql(query_base_text::<E>(q))
            && query_params(g, q) == group_params(q.query_group) + seq![
                ParamValueView::U64(g.spec_page_args(1, n).0),
                ParamValueView::U64(g.spec_page_args(1, n).1),
            ],
{
    let e = Seq::<char>::empty();
    let head = "select "@ + column_list_text::<E>(q) + " from "@ + E::spec_table_name();
    assert(head + e + e + e =~= head);
    assert(head + (" where "@ + group_text(q.query_group)) + e + e =~= head + " where "@ + group_text(q.query_group));
    assert(head + e + e + (" order by "@ + join_text(order_texts(q.order_by_types@), ","@)) =~= head
        + " order by "@ + join_text(order_texts(q.order_by_types@), ","@));
    assert(head + e + (" group by "@ + join_text(str_views(q.group_by_columns@), ","@)) + e =~= head
        + " group by "@ + join_text(str_views(q.group_by_columns@), ","@));
    assert(group_params(q.query_group) + Seq::<ParamValueView>::empty() =~= group_params(q.query_group));
}

/// The text of one ordering.
pub open spec fn order_text<'a>(o: (&'a str, bool)) -> Seq<char> {
    o.0@ + if o.1 { " ASC"@ } else { " DESC"@ }
}

/// The texts of the orderings of a query.
pub open spec fn order_texts<'a>(orders: Seq<(&'a str, bool)>) -> Seq<Seq<char>> {
    orders.map_values(|o: (&'a str, bool)| order_text(o))
}

/// The text of a query before any limit: the selected columns, the table,
/// the conditions (where there are any), the grouping and the ordering
/// (where given).
pub open spec fn query_base_text<'a, E: Entity>(q: Query<'a>) -> Seq<char> {
    "select "@ + column_list_text::<E>(q) + " from "@ + E::spec_table_name() + (if q.query_group.query_item_nodes@.len()
        > 0 {
        " where "@ + group_text(q.query_group)
    } else {
        Seq::empty()
    }) + (if q.group_by_columns@.len() > 0 {
        " group by "@ + join_text(str_views(q.group_by_columns@), ","@)
    } else {
        Seq::empty()
    }) + (if q.order_by_types@.len() > 0 {
        " order by "@ + join_text(order_texts(q.order_by_types@), ","@)
    } else {
        Seq::empty()
    })
}

/// The text of a query: with a limit, the first page of that size of it.
pub open spec fn query_text<'a, G: PageSqlGenerator, E: Entity>(g: G, q: Query<'a>) -> Seq<char> {
    match q.limit_size {
        Some(n) => g.spec_page_query_sql(query_base_text::<E>(q)),
        None => query_base_text::<E>(q),
    }
}

/// The values a query binds: those of its conditions, then, with a limit,
/// the two values of its first page.
pub open spec fn query_params<'a, G: PageSqlGenerator>(g: G, q: Query<'a>) -> Seq<ParamValueView> {
    group_params(q.query_group) + match q.limit_size {
        Some(n) => page_params(g.spec_page_args(1, n)),
        None => Seq::empty(),
    }
}

fn order_parts<'a>(orders: &Vec<(&'a str, bool)>) -> (r: Vec<String>)
    ensures
        string_views(r@) == order_texts(orders@),
{
    let mut r: Vec<String> = Vec::new();
    let mut i: usize = 0;
    while i < orders.len()
        invariant
            i <= orders@.len(),
            string_views(r@) =~= order_texts(orders@.take(i as int)),
        decreases orders@.len() - i,
    {
        let (c, asc) = orders[i];
        let part = if asc {
            concat2(c, " ASC")
        } else {
            concat2(c, " DESC")
        };
        let ghost r0 = r@;
        r.push(part);
        proof {
            assert(orders@.take(i + 1) =~= orders@.take(i as int).push(orders@[i as int]));
            assert(string_views(r@) =~= string_views(r0).push(part@));
            assert(order_texts(orders@.take(i + 1)) =~= order_texts(orders@.take(i as int)).push(
                order_text(orders@[i as int]),
            ));
        }
        i = i + 1;
    }
    proof {
        assert(orders@.take(orders@.len() as int) =~= orders@);
    }
    r
}

fn columns_without(names: &Vec<&'static str>, excluded: &Vec<&str>) -> (r: Vec<&'static str>)
    ensures
        str_views(r@) == without(str_views(names@), str_views(excluded@)),
{
    let mut r: Vec<&'static str> = Vec::new();
    let mut i: usize = 0;
    while i < names.len()
        invariant
            i <= names@.len(),
            str_views(r@) =~= without(str_views(names@.take(i as int)), str_views(excluded@)),
        decreases names@.len() - i,
    {
        let ghost r0 = r@;
        proof {
            assert(str_views(names@.take(i + 1)).drop_last() =~= str_views(names@.take(i as int)));
            assert(str_views(names@.take(i + 1)).last() == names@[i as int]@);
        }
        if !contains_str(excluded, names[i]) {
            r.push(names[i]);
            proof {
                assert(str_views(r@) =~= str_views(r0).push(names@[i as int]@));
            }
        }
        i = i + 1;
    }
    proof {
        assert(names@.take(names@.len() as int) =~= names@);
    }
    r
}

/// The SQL of the queries, updates and deletes that a `QueryWrapper`
/// describes.
pub trait QueryWrapperSqlGenerator: BaseSqlGenerator + PageSqlGenerator + WhereSqlGenerator {
    /// The text of a group of conditions and the values it binds.
    fn query_group_to_sql<'a>(&self, query_item_group: &QueryItemGroup<'a>) -> (r: (String, Vec<ParamValue>))
        ensures
            r.0@ == group_text(*query_item_group),
            param_views(r.1@) == group_params(*query_item_group),
    {
        group_to_sql(self, query_item_group)
    }

    /// The `where` clause of a query and the values it binds; `None` where
    /// the query has no condition.
    fn gen_where_sql<'a, E: Entity>(&self, query_wrapper: &QueryWrapper<'a, E>) -> (r: Option<(String, Vec<ParamValue>)>)
        ensures
            r is None <==> query_wrapper.query.query_group.query_item_nodes@.len() == 0,
            r matches Some(p) ==> p.0@ == group_text(query_wrapper.query.query_group)
                && param_views(p.1@) == group_params(query_wrapper.query.query_group),
    {
        if query_wrapper.query.is_empty() {
            return None;
        }
        Some(self.query_group_to_sql(&query_wrapper.query.query_group))
    }

    /// The selected columns of a query.
    fn gen_query_column_sql<'a, E: Entity>(&self, query_wrapper: &QueryWrapper<'a, E>) -> (r: String)
        ensures
            r@ == column_list_text::<E>(query_wrapper.query),
    {
        if query_wrapper.query.select_include_columns.len() > 0 {
            return join_strs(&query_wrapper.query.select_include_columns, ",");
        }
        let names = E::column_names();
        let kept = columns_without(&names, &query_wrapper.query.select_exclude_columns);
        join_strs(&kept, ",")
    }

    /// The text of a query and the values it binds.
    fn gen_query_sql<'a, E: Entity>(&self, query_wrapper: &QueryWrapper<'a, E>) -> (r: (String, Vec<ParamValue>))
        requires
            query_wrapper.query.limit_size is Some ==> self.has_page_sql(),
        ensures
            r.0@ == query_text::<Self, E>(*self, query_wrapper.query),
            param_views(r.1@) == query_params(*self, query_wrapper.query),
    {
        let q = &query_wrapper.query;
        let columns = self.gen_query_column_sql(query_wrapper);
        let mut sql = concat3("select ", columns.as_str(), " from ");
        sql.append(E::table_name());
        let mut params: Vec<ParamValue> = Vec::new();
        match self.gen_where_sql(query_wrapper) {
            Some((where_sql, where_params)) => {
                sql.append(" where ");
                sql.append(where_sql.as_str());
                params = where_params;
            },
            None => {
                proof {
                    assert(group_params(q.query_group) =~= Seq::<ParamValueView>::empty());
                }
            },
        }
        if q.group_by_columns.len() > 0 {
            sql.append(" group by ");
            let groups = join_strs(&q.group_by_columns, ",");
            sql.append(groups.as_str());
        }
        if q.order_by_types.len() > 0 {
            sql.append(" order by ");
            let parts = order_parts(&q.order_by_types);
            let orders = join(&parts, ",");
            sql.append(orders.as_str());
        }
        proof {
            assert(sql@ =~= query_base_text::<E>(*q));
        }
        let ghost base_params = param_views(params@);
        match q.limit_size {
            Some(n) => {
                proof {
                    self.lemma_first_page(n);
                }
                let (paged, a, b) = self.gen_page_query_sql(sql.as_str(), 1, n);
                sql = paged;
                params.push(ParamValue::U64(a));
                params.push(ParamValue::U64(b));
                proof {
                    assert(param_views(params@) =~= base_params + page_params(self.spec_page_args(1, n)));
                }
            },
            None => {
                proof {
                    assert(param_views(params@) =~= base_params + Seq::<ParamValueView>::empty());
                }
            },
        }
        (sql, params)
    }

    /// A page of a query: the text that takes the page, the text that counts
    /// the rows of the query, and the values bound by the first.
    fn gen_page_sql<'a, E: Entity>(&self, page: &Page, query_wrapper: &QueryWrapper<'a, E>) -> (r: (String, String, Vec<ParamValue>))
        requires
            self.has_page_sql(),
            self.page_args_ok(page.current_page, page.page_size),
        ensures
            r.0@ == self.spec_page_query_sql(query_text::<Self, E>(*self, query_wrapper.query)),
            r.1@ == total_text(query_text::<Self, E>(*self, query_wrapper.query)),
            param_views(r.2@) == query_params(*self, query_wrapper.query) + page_params(
                self.spec_page_args(page.current_page, page.page_size),
            ),
    {
        let (sql, params) = self.gen_query_sql(query_wrapper);
        let ghost base_params = param_views(params@);
        let total = self.gen_page_total_sql(sql.as_str());
        let (paged, a, b) = self.gen_page_query_sql(sql.as_str(), page.current_page, page.page_size);
        let mut params = params;
        params.push(ParamValue::U64(a));
        params.push(ParamValue::U64(b));
        proof {
            assert(param_views(params@) =~= base_params + page_params(
                self.spec_page_args(page.current_page, page.page_size),
            ));
        }
        (paged, total, params)
    }

    /// The update, by the conditions of a query, of every column that has a
    /// value (or of every column, where `is_update_null`) and of the
    /// date-time columns filled with the current time on update; the values
    /// of the conditions are bound after those of the columns.
    fn gen_update_sql<'a, E: Entity>(&self, e: &E, query_wrapper: &QueryWrapper<'a, E>, is_update_null: bool) -> (r: (String, Vec<ParamValue>))
        requires
            query_wrapper.query.query_group.query_item_nodes@.len() > 0,
        ensures
            r.0@ == update_text(
                E::spec_table_name(),
                assign_texts(update_infos(*e, E::spec_column_infos(), is_update_null, false)),
                group_text(query_wrapper.query.query_group),
            ),
            filled(*e, update_infos(*e, E::spec_column_infos(), is_update_null, false), is_update_null,
                param_views(r.1@).take(update_infos(*e, E::spec_column_infos(), is_update_null, false).len() as int)),
            param_views(r.1@).skip(update_infos(*e, E::spec_column_infos(), is_update_null, false).len() as int)
                == group_params(query_wrapper.query.query_group),
    {
        let (parts, params) = assignments(e, is_update_null, false);
        let ghost values = param_views(params@);
        let (where_sql, where_params) = self.query_group_to_sql(&query_wrapper.query.query_group);
        let ghost conds = param_views(where_params@);
        let mut params = params;
        let mut where_params = where_params;
        params.append(&mut where_params);
        proof {
            let all = param_views(params@);
            assert(all =~= values + conds);
            assert(all.take(values.len() as int) =~= values);
            assert(all.skip(values.len() as int) =~= conds);
        }
        let sets = join(&parts, ",");
        let head = concat3("update ", E::table_name(), " set ");
        let mid = concat3(head.as_str(), sets.as_str(), " where ");
        (concat2(mid.as_str(), where_sql.as_str()), params)
    }

    /// The delete of the rows that satisfy the conditions of a query.
    fn gen_delete_sql<'a, E: Entity>(&self, query_wrapper: &QueryWrapper<'a, E>) -> (r: (String, Vec<ParamValue>))
        requires
            query_wrapper.query.query_group.query_item_nodes@.len() > 0,
        ensures
            r.0@ == "delete from "@ + E::spec_table_name() + " where "@ + group_text(query_wrapper.query.query_group),
            param_views(r.1@) == group_params(query_wrapper.query.query_group),
    {
        let (where_sql, params) = self.query_group_to_sql(&query_wrapper.query.query_group);
        let head = concat3("delete from ", E::table_name(), " where ");
        (concat2(head.as_str(), where_sql.as_str()), params)
    }
}

} // verus!
