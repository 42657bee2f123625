//! The text of the statements that the query engine issues.
//!
//! Table and column names are written into the text as they are given. Values
//! never are: each one is bound to a `?` placeholder.

use vstd::prelude::*;
use vstd::string::StringExecFns;
use crate::error::{Error, ErrorView};
use crate::params::{extend_values, value_views, Params};
use crate::row::Insertable;
use crate::text::{
    chars_of, copies, find, find_first, join, lemma_occurrences_concat, lemma_occurrences_copies,
    lowered, occurrences, push_joined, push_repeated, to_lowered, views,
};
use crate::value::{Dypes, DypesView};

verus! {

/// The engine that a statement is written for.
#[derive(Clone, Copy, Debug, PartialEq, Eq)]
pub enum Backend {
    /// The client/server engine.
    MySql,
    /// The embedded engine.
    Sqlite,
}

/// A statement and the values bound to its placeholders.
#[derive(Debug, PartialEq, Eq)]
pub struct Statement {
    pub sql: String,
    pub params: Params,
}

/// `n` placeholders, separated by commas.
pub open spec fn placeholders(n: nat) -> Seq<char> {
    join(copies("?"@, n), ","@)
}

/// One record's placeholders, in parentheses.
pub open spec fn group(n: nat) -> Seq<char> {
    "("@ + placeholders(n) + ")"@
}

/// A group of `n` placeholders for each of `records` records, separated by commas.
pub open spec fn groups(records: nat, n: nat) -> Seq<char> {
    join(copies(group(n), records), ","@)
}

/// The statement that inserts `records` records with the given columns.
pub open spec fn insert_text(table: Seq<char>, columns: Seq<Seq<char>>, records: nat) -> Seq<
    char,
> {
    "INSERT INTO "@ + table + " ("@ + join(columns, ","@) + ") VALUES "@ + groups(
        records,
        columns.len(),
    )
}

/// The assignment that gives a column the value just offered for insertion.
pub open spec fn assignment(column: Seq<char>) -> Seq<char> {
    column + " = VALUES("@ + column + ") "@
}

/// The assignments of all columns, separated by commas.
pub open spec fn upsert_clause(columns: Seq<Seq<char>>) -> Seq<char> {
    join(Seq::new(columns.len(), |i: int| assignment(columns[i])), ","@)
}

/// The statement that inserts records and, where a key exists already,
/// updates every column of the existing row.
pub open spec fn upsert_text(table: Seq<char>, columns: Seq<Seq<char>>, records: nat) -> Seq<
    char,
> {
    insert_text(table, columns, records) + " ON DUPLICATE KEY UPDATE "@ + upsert_clause(columns)
}

/// The statement that deletes the rows whose key is among `n` bound values
/// (`within`), or is not among them.
pub open spec fn delete_text(table: Seq<char>, key: Seq<char>, within: bool, n: nat) -> Seq<
    char,
> {
    "DELETE FROM "@ + table + " WHERE "@ + key + (if within {
        " IN ("@
    } else {
        " NOT IN ("@
    }) + placeholders(n) + ")"@
}

/// The expression that joins the columns' values with single spaces.
pub open spec fn concat_text(backend: Backend, columns: Seq<Seq<char>>) -> Seq<char> {
    match backend {
        Backend::MySql => "concat_ws(' ', "@ + join(columns, ","@) + ")"@,
        Backend::Sqlite => "("@ + join(columns, " || ' ' || "@) + ")"@,
    }
}

/// The views of the values of each record.
pub open spec fn record_views(records: Seq<Vec<Dypes>>) -> Seq<Seq<DypesView>> {
    Seq::new(records.len(), |i: int| value_views(records[i]@))
}

/// The records' values one record after another.
pub open spec fn flattened(records: Seq<Seq<DypesView>>) -> Seq<DypesView>
    decreases records.len(),
{
    if records.len() == 0 {
        Seq::empty()
    } else {
        flattened(records.drop_last()) + records.last()
    }
}

/// Whether every record has one value for each column.
pub open spec fn records_fit(columns: nat, records: Seq<Seq<DypesView>>) -> bool {
    forall|i: int| 0 <= i < records.len() ==> (#[trigger] records[i]).len() == columns
}

/// The values of all records in order, where every record has `columns`
/// values; nothing where one does not.
fn flatten(columns: usize, records: &Vec<Vec<Dypes>>) -> (r: Option<Vec<Dypes>>)
    ensures
        match r {
            Some(all) => records_fit(columns as nat, record_views(records@)) && value_views(all@)
                == flattened(record_views(records@)),
            None => !records_fit(columns as nat, record_views(records@)),
        },
{
    let ghost rows = record_views(records@);
    let mut all: Vec<Dypes> = Vec::new();
    let mut i: usize = 0;
    assert(value_views(all@) =~= flattened(rows.take(0)));
    while i < records.len()
        invariant
            i <= records.len(),
            rows == record_views(records@),
            records_fit(columns as nat, rows.take(i as int)),
            value_views(all@) == flattened(rows.take(i as int)),
        decreases records.len() - i,
    {
        if records[i].len() != columns {
            assert(rows[i as int].len() != columns);
            return None;
        }
        extend_values(&mut all, &records[i]);
        proof {
            let next = rows.take(i as int + 1);
            assert(next.drop_last() =~= rows.take(i as int));
            assert(next.last() == rows[i as int]);
            assert forall|k: int| 0 <= k < next.len() implies (#[trigger] next[k]).len()
                == columns by {
                if k < i {
                    assert(rows.take(i as int)[k] == next[k]);
                }
            }
        }
        i += 1;
    }
    assert(rows.take(records.len() as int) =~= rows);
    Some(all)
}

fn push_groups(out: &mut String, records: usize, columns: usize)
    ensures
        final(out)@ == old(out)@ + groups(records as nat, columns as nat),
{
    let mut one = String::from_str("(");
    push_repeated(&mut one, "?", ",", columns);
    one.append(")");
    push_repeated(out, one.as_str(), ",", records);
}

fn push_insert(out: &mut String, table: &str, columns: &Vec<String>, records: usize)
    ensures
        final(out)@ == old(out)@ + insert_text(table@, views(columns@), records as nat),
{
    out.append("INSERT INTO ");
    out.append(table);
    out.append(" (");
    push_joined(out, columns, ",");
    out.append(") VALUES ");
    push_groups(out, records, columns.len());
    assert(out@ =~= old(out)@ + insert_text(table@, views(columns@), records as nat));
}

/// The error for a record whose values do not match the columns one for one.
pub open spec fn misfit_error() -> ErrorView {
    ErrorView::ConversionErr("Record does not hold one value for each field"@)
}

/// Whether `r` is what inserting `rows` with the given columns comes to: the
/// statement with the rows' values in order, or the error for a row that
/// does not hold one value for each column.
pub open spec fn inserts(
    table: Seq<char>,
    columns: Seq<Seq<char>>,
    rows: Seq<Seq<DypesView>>,
    r: Result<Statement, Error>,
) -> bool {
    match r {
        Ok(st) => {
            &&& records_fit(columns.len(), rows)
            &&& st.sql@ == insert_text(table, columns, rows.len())
            &&& st.params@ == flattened(rows)
        },
        Err(e) => !records_fit(columns.len(), rows) && e@ == misfit_error(),
    }
}

/// Builds the statement that inserts the records into `table`: the columns
/// once, one group of placeholders for each record, and the records' values
/// in order as parameters. It fails where a record does not hold one value for
/// each column.
pub fn insert_statement(table: &str, columns: &Vec<String>, records: &Vec<Vec<Dypes>>) -> (r:
    Result<Statement, Error>)
    ensures
        inserts(table@, views(columns@), record_views(records@), r),
{
    match flatten(columns.len(), records) {
        None => Err(
            Error::ConversionErr(String::from_str("Record does not hold one value for each field")),
        ),
        Some(all) => {
            let mut sql = String::new();
            push_insert(&mut sql, table, columns, records.len());
            assert(sql@ =~= insert_text(table@, views(columns@), records@.len()));
            Ok(Statement { sql, params: Params::new(all) })
        },
    }
}

/// The clause that, on a conflicting key, gives each column the value just
/// offered for insertion. The embedded engine has no such clause.
pub fn render_upsert_clause(backend: Backend, columns: &Vec<String>) -> (r: Option<String>)
    ensures
        match backend {
            Backend::MySql => r.is_some() && r.unwrap()@ == upsert_clause(views(columns@)),
            Backend::Sqlite => r.is_none(),
        },
{
    match backend {
        Backend::Sqlite => None,
        Backend::MySql => {
            let mut parts: Vec<String> = Vec::new();
            let mut i: usize = 0;
            while i < columns.len()
                invariant
                    i <= columns.len(),
                    parts@.len() == i,
                    forall|k: int| 0 <= k < i ==> (#[trigger] parts@[k])@ == assignment(columns@[k]@),
                decreases columns.len() - i,
            {
                let mut one = String::new();
                one.append(columns[i].as_str());
                one.append(" = VALUES(");
                one.append(columns[i].as_str());
                one.append(") ");
                assert(one@ =~= assignment(columns@[i as int]@));
                parts.push(one);
                i += 1;
            }
            let mut out = String::new();
            push_joined(&mut out, &parts, ",");
            assert(views(parts@) =~= Seq::new(
                views(columns@).len(),
                |i: int| assignment(views(columns@)[i]),
            ));
            assert(out@ =~= upsert_clause(views(columns@)));
            Some(out)
        },
    }
}

/// The error for an insert-or-update on the embedded engine.
pub open spec fn upsert_unsupported_error() -> ErrorView {
    ErrorView::SQLErr("Insert or update is not supported by this backend"@)
}

/// Whether `r` is what inserting or updating `rows` with the given columns
/// comes to on the backend: the embedded engine's refusal, or else the
/// statement with the rows' values in order, or the error for a row that
/// does not hold one value for each column.
pub open spec fn upserts(
    backend: Backend,
    table: Seq<char>,
    columns: Seq<Seq<char>>,
    rows: Seq<Seq<DypesView>>,
    r: Result<Statement, Error>,
) -> bool {
    match r {
        Ok(st) => {
            &&& backend is MySql
            &&& records_fit(columns.len(), rows)
            &&& st.sql@ == upsert_text(table, columns, rows.len())
            &&& st.params@ == flattened(rows)
        },
        Err(e) => match backend {
            Backend::Sqlite => e@ == upsert_unsupported_error(),
            Backend::MySql => !records_fit(columns.len(), rows) && e@ == misfit_error(),
        },
    }
}

/// Builds the statement that inserts the records into `table` and updates
/// the rows whose key exists already. The embedded engine rejects it; on the
/// client/server engine it fails where a record does not hold one value for
/// each column.
pub fn insert_or_update_statement(
    backend: Backend,
    table: &str,
    columns: &Vec<String>,
    records: &Vec<Vec<Dypes>>,
) -> (r: Result<Statement, Error>)
    ensures
        upserts(backend, table@, views(columns@), record_views(records@), r),
{
    match render_upsert_clause(backend, columns) {
        None => Err(
            Error::SQLErr(String::from_str("Insert or update is not supported by this backend")),
        ),
        Some(clause) => {
            match insert_statement(table, columns, records) {
                Err(e) => Err(e),
                Ok(st) => {
                    let Statement { sql, params } = st;
                    let mut sql = sql;
                    sql.append(" ON DUPLICATE KEY UPDATE ");
                    sql.append(clause.as_str());
                    Ok(Statement { sql, params })
                },
            }
        },
    }
}

/// Builds the statement that deletes from `table` the rows whose
/// `key_column` is among `keys` (`within`), or is not among them: one
/// placeholder for each key, and the keys as parameters.
pub fn delete_statement(table: &str, key_column: &str, keys: &Vec<Dypes>, within: bool) -> (r:
    Statement)
    ensures
        r.sql@ == delete_text(table@, key_column@, within, keys@.len()),
        r.params@ == value_views(keys@),
{
    let mut sql = String::from_str("DELETE FROM ");
    sql.append(table);
    sql.append(" WHERE ");
    sql.append(key_column);
    if within {
        sql.append(" IN (");
    } else {
        sql.append(" NOT IN (");
    }
    push_repeated(&mut sql, "?", ",", keys.len());
    sql.append(")");
    assert(sql@ =~= delete_text(table@, key_column@, within, keys@.len()));
    let mut bound: Vec<Dypes> = Vec::new();
    extend_values(&mut bound, keys);
    assert(value_views(bound@) =~= value_views(keys@));
    Statement { sql, params: Params::new(bound) }
}

/// The expression that joins the columns' values with single spaces, as the
/// backend writes it.
pub fn concat_columns(backend: Backend, columns: &Vec<String>) -> (r: String)
    ensures
        r@ == concat_text(backend, views(columns@)),
{
    match backend {
        Backend::MySql => {
            let mut out = String::from_str("concat_ws(' ', ");
            push_joined(&mut out, columns, ",");
            out.append(")");
            out
        },
        Backend::Sqlite => {
            let mut out = String::from_str("(");
            push_joined(&mut out, columns, " || ' ' || ");
            out.append(")");
            out
        },
    }
}

/// The statement that counts the rows that `sql` matches without its limit:
/// a count over what stands from the first ` from ` up to the first ` limit `,
/// the latter in any mix of upper and lower case.
pub open spec fn count_text(sql: Seq<char>) -> Result<Seq<char>, ErrorView> {
    match find_first(sql, " from "@) {
        None => Err(ErrorView::SQLErr("No from in sql"@)),
        Some(start) => match find_first(lowered(sql), " limit "@) {
            None => Err(ErrorView::SQLErr("No limit in sql"@)),
            Some(end) => if start <= end {
                Ok("select count(*) as count "@ + sql.subrange(start, end))
            } else {
                Err(ErrorView::SQLErr("Limit before from in sql"@))
            },
        },
    }
}

/// Builds the statement that counts the rows that `sql` matches without its
/// limit. The search is a scan for the two markers, not a parse.
pub fn count_sql(sql: &str) -> (r: Result<String, Error>)
    ensures
        match r {
            Ok(s) => count_text(sql@) == Ok::<Seq<char>, ErrorView>(s@),
            Err(e) => count_text(sql@) == Err::<Seq<char>, ErrorView>(e@),
        },
{
    let text = chars_of(sql);
    let from_marker = chars_of(" from ");
    let start = match find(&text, &from_marker) {
        Some(at) => at,
        None => {
            return Err(Error::SQLErr(String::from_str("No from in sql")));
        },
    };
    let folded = to_lowered(&text);
    let limit_marker = chars_of(" limit ");
    let end = match find(&folded, &limit_marker) {
        Some(at) => at,
        None => {
            return Err(Error::SQLErr(String::from_str("No limit in sql")));
        },
    };
    if start > end {
        return Err(Error::SQLErr(String::from_str("Limit before from in sql")));
    }
    proof {
        crate::text::lemma_find_from_least(lowered(sql@), " limit "@, 0);
    }
    let mut out = String::from_str("select count(*) as count ");
    let mut i: usize = start;
    while i < end
        invariant
            start <= i <= end <= text.len(),
            out@ == "select count(*) as count "@ + text@.subrange(start as int, i as int),
        decreases end - i,
    {
        out.push(text[i]);
        assert(text@.subrange(start as int, i as int).push(text@[i as int]) =~= text@.subrange(
            start as int,
            i as int + 1,
        ));
        i += 1;
    }
    Ok(out)
}

/// Whether `rows` are the values of `records`, one row for each record in order.
pub open spec fn values_of<T: Insertable>(records: Seq<T>, rows: Seq<Vec<Dypes>>) -> bool {
    &&& rows.len() == records.len()
    &&& forall|i: int|
        0 <= i < records.len() ==> call_ensures(T::values, (&records[i],), #[trigger] rows[i])
}

/// The values of each record, in order.
pub fn collect_values<T: Insertable>(records: &Vec<T>) -> (r: Vec<Vec<Dypes>>)
    ensures
        values_of(records@, r@),
{
    let mut rows: Vec<Vec<Dypes>> = Vec::new();
    let mut i: usize = 0;
    while i < records.len()
        invariant
            i <= records.len(),
            values_of(records@.take(i as int), rows@),
        decreases records.len() - i,
    {
        let values = records[i].values();
        rows.push(values);
        i += 1;
    }
    assert(records@.take(records.len() as int) =~= records@);
    rows
}

/// Builds the statement that inserts the records into `table`, with the
/// field names that the record type gives and the values that each record
/// gives: what `insert_statement` makes of them.
pub fn insert<T: Insertable>(table: &str, records: &Vec<T>) -> (r: Result<Statement, Error>)
    ensures
        exists|columns: Vec<String>, rows: Vec<Vec<Dypes>>|
            {
                &&& call_ensures(T::fields, (), columns)
                &&& values_of(records@, rows@)
                &&& inserts(table@, views(columns@), record_views(rows@), r)
            },
{
    let columns = T::fields();
    let rows = collect_values(records);
    insert_statement(table, &columns, &rows)
}

/// Builds the statement that inserts the records into `table` or updates the
/// rows whose key exists already, with the field names that the record type
/// gives and the values that each record gives: what
/// `insert_or_update_statement` makes of them.
pub fn insert_update<T: Insertable>(backend: Backend, table: &str, records: &Vec<T>) -> (r: Result<
    Statement,
    Error,
>)
    ensures
        exists|columns: Vec<String>, rows: Vec<Vec<Dypes>>|
            {
                &&& call_ensures(T::fields, (), columns)
                &&& values_of(records@, rows@)
                &&& upserts(backend, table@, views(columns@), record_views(rows@), r)
            },
{
    let columns = T::fields();
    let rows = collect_values(records);
    insert_or_update_statement(backend, table, &columns, &rows)
}

/// `n` placeholders joined by commas hold the placeholder mark exactly `n` times.
pub proof fn lemma_placeholders_count(n: nat)
    ensures
        occurrences(placeholders(n), '?') == n,
{
    reveal_strlit("?");
    reveal_strlit(",");
    lemma_single_occurrences("?"@, '?');
    lemma_single_occurrences(","@, '?');
    lemma_occurrences_copies("?"@, ","@, n, '?');
    assert(n * 1 + (if n == 0 {
        0
    } else {
        n - 1
    }) * 0 == n) by (nonlinear_arith);
}

proof fn lemma_single_occurrences(text: Seq<char>, c: char)
    requires
        text.len() == 1,
    ensures
        occurrences(text, c) == if text[0] == c {
            1nat
        } else {
            0nat
        },
{
    assert(text.drop_last().len() == 0);
    assert(occurrences(text.drop_last(), c) == 0);
}

/// The placeholder groups of `records` records with `n` fields each hold the
/// placeholder mark exactly `records * n` times.
pub proof fn lemma_groups_count(records: nat, n: nat)
    ensures
        occurrences(groups(records, n), '?') == records * n,
{
    reveal_strlit("(");
    reveal_strlit(")");
    reveal_strlit(",");
    lemma_single_occurrences("("@, '?');
    lemma_single_occurrences(")"@, '?');
    lemma_single_occurrences(","@, '?');
    lemma_placeholders_count(n);
    lemma_occurrences_concat("("@, placeholders(n), '?');
    lemma_occurrences_concat("("@ + placeholders(n), ")"@, '?');
    assert(occurrences(group(n), '?') == n);
    lemma_occurrences_copies(group(n), ","@, records, '?');
    assert(records * n + (if records == 0 {
        0
    } else {
        records - 1
    }) * 0 == records * n) by (nonlinear_arith);
}

/// Records that hold `columns` values each hold `records.len() * columns`
/// values together.
pub proof fn lemma_flattened_len(columns: nat, records: Seq<Seq<DypesView>>)
    requires
        records_fit(columns, records),
    ensures
        flattened(records).len() == records.len() * columns,
    decreases records.len(),
{
    if records.len() == 0 {
        assert(0 * columns == 0) by (nonlinear_arith);
    } else {
        let before = records.drop_last();
        assert forall|i: int| 0 <= i < before.len() implies (#[trigger] before[i]).len()
            == columns by {
            assert(before[i] == records[i]);
        }
        lemma_flattened_len(columns, before);
        assert(records.last().len() == columns);
        assert((records.len() - 1) * columns + columns == records.len() * columns)
            by (nonlinear_arith);
    }
}

/// The flattened values come field by field within a record, and record by
/// record: the value of field `j` of record `i` stands at `i * columns + j`.
pub proof fn lemma_flattened_index(columns: nat, records: Seq<Seq<DypesView>>, i: int, j: int)
    requires
        records_fit(columns, records),
        0 <= i < records.len(),
        0 <= j < columns,
    ensures
        0 <= i * columns + j < flattened(records).len(),
        flattened(records)[i * columns + j] == records[i][j],
    decreases records.len(),
{
    let before = records.drop_last();
    assert forall|k: int| 0 <= k < before.len() implies (#[trigger] before[k]).len()
        == columns by {
        assert(before[k] == records[k]);
    }
    lemma_flattened_len(columns, before);
    lemma_flattened_len(columns, records);
    assert(records.last().len() == columns);
    assert(0 <= i * columns) by (nonlinear_arith)
        requires
            0 <= i,
            0 <= columns,
    ;
    if i == records.len() - 1 {
        assert(flattened(records)[before.len() * columns + j] == records.last()[j]);
    } else {
        lemma_flattened_index(columns, before, i, j);
        assert(i * columns + j < before.len() * columns) by (nonlinear_arith)
            requires
                0 <= i < before.len(),
                0 <= j < columns,
        ;
        assert(before[i] == records[i]);
    }
}

/// No counting statement is derived from a statement without ` from ` or
/// without ` limit `: the outcome is then an SQL error, and every failure to
/// derive one is an SQL error.
pub proof fn lemma_count_failure_is_sql_error(sql: Seq<char>)
    ensures
        find_first(sql, " from "@).is_none() ==> count_text(sql) == Err::<Seq<char>, ErrorView>(
            ErrorView::SQLErr("No from in sql"@),
        ),
        find_first(sql, " from "@).is_some() && find_first(lowered(sql), " limit "@).is_none()
            ==> count_text(sql) == Err::<Seq<char>, ErrorView>(
            ErrorView::SQLErr("No limit in sql"@),
        ),
        count_text(sql) matches Err(e) ==> e is SQLErr,
{
}

/// The two backends write the joining of the same columns differently.
pub proof fn lemma_concat_differs(columns: Seq<Seq<char>>)
    ensures
        concat_text(Backend::MySql, columns) != concat_text(Backend::Sqlite, columns),
{
    reveal_strlit("concat_ws(' ', ");
    reveal_strlit("(");
    let function_form = concat_text(Backend::MySql, columns);
    let operator_form = concat_text(Backend::Sqlite, columns);
    assert(function_form[0] == 'c');
    assert(operator_form[0] == '(');
}

} // verus!
