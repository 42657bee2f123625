//! What the query engine decides between two calls of a backend: which
//! statement to run next, and what a fetched result means.
//!
//! The engine itself runs nothing. A caller that holds a connection runs the
//! statements it is handed and reports what came back.

use vstd::prelude::*;
use vstd::string::StringExecFns;
use crate::error::{Error, ErrorView};
use crate::row::{FromDypes, Queryable, Row, Rowable};
use crate::sql::{count_sql, count_text};
use crate::value::{u64_of, Dypes};

verus! {

/// One page of records and a count: the number of records in the page, or,
/// where it was asked for, the number of rows that the query matches without
/// its limit.
#[derive(Debug, PartialEq, Eq)]
pub struct SelectHolder<T> {
    pub data: Vec<T>,
    pub count: usize,
}

impl<T> SelectHolder<T> {
    pub fn new(data: Vec<T>, count: usize) -> (r: Self)
        ensures
            r.data == data,
            r.count == count,
    {
        SelectHolder { data, count }
    }
}

/// Whether `records` are what the rows hold, one record for each row in order.
pub open spec fn records_of<T: Queryable, R: Rowable>(rows: Seq<R>, records: Seq<T>) -> bool {
    &&& records.len() == rows.len()
    &&& forall|i: int|
        0 <= i < rows.len() ==> call_ensures(T::new::<R>, (Row(&rows[i]),), #[trigger] records[i])
}

/// Builds one record from each row, in order.
pub fn map_rows<T: Queryable, R: Rowable>(rows: &Vec<R>) -> (r: Vec<T>)
    ensures
        records_of(rows@, r@),
{
    let mut out: Vec<T> = Vec::new();
    let mut i: usize = 0;
    while i < rows.len()
        invariant
            i <= rows.len(),
            records_of(rows@.take(i as int), out@),
        decreases rows.len() - i,
    {
        let record = T::new(Row::new(&rows[i]));
        out.push(record);
        i += 1;
    }
    assert(rows@.take(rows.len() as int) =~= rows@);
    out
}

/// The error for a query that gave no row where one was needed.
pub open spec fn no_row_error() -> ErrorView {
    ErrorView::SQLErr("Failed to get result out of query"@)
}

/// The error for a column that is absent or has no form of the type asked for.
pub open spec fn column_error(column: Seq<char>) -> ErrorView {
    ErrorView::ConversionErr("Failed to convert column "@ + column)
}

fn no_row_err() -> (r: Error)
    ensures
        r@ == no_row_error(),
{
    Error::SQLErr(String::from_str("Failed to get result out of query"))
}

fn column_err(column: &str) -> (r: Error)
    ensures
        r@ == column_error(column@),
{
    let mut detail = String::from_str("Failed to convert column ");
    detail.append(column);
    Error::ConversionErr(detail)
}

/// The scalar that a query gave: the column named `column` of the first row,
/// as a `T`. It fails with an SQL error where the query gave no row, and with
/// a conversion error where the row has no such column or the column has no
/// form of that type.
pub fn value<T: FromDypes, R: Rowable>(first: Option<&R>, column: &str) -> (r: Result<T, Error>)
    ensures
        match first {
            None => r matches Err(e) && e@ == no_row_error(),
            Some(row) => match row.value_at(column@) {
                None => r matches Err(e) && e@ == column_error(column@),
                Some(view) => exists|v: Dypes, converted: Option<T>|
                    {
                        &&& v@ == view
                        &&& call_ensures(T::from_dypes, (v,), converted)
                        &&& match converted {
                            Some(x) => r == Ok::<T, Error>(x),
                            None => r matches Err(e) && e@ == column_error(column@),
                        }
                    },
            },
        },
{
    match first {
        None => Err(no_row_err()),
        Some(row) => {
            match row.get_val(column) {
                None => Err(column_err(column)),
                Some(v) => {
                    let converted = T::from_dypes(v);
                    match converted {
                        Some(x) => Ok(x),
                        None => Err(column_err(column)),
                    }
                },
            }
        },
    }
}

/// The record that a query gave: the one that its first row holds. It fails
/// with an SQL error where the query gave no row.
pub fn row<T: Queryable, R: Rowable>(first: Option<&R>) -> (r: Result<T, Error>)
    ensures
        match first {
            None => r matches Err(e) && e@ == no_row_error(),
            Some(found) => r matches Ok(record) && call_ensures(T::new::<R>, (Row(found),), record),
        },
{
    match first {
        None => Err(no_row_err()),
        Some(found) => Ok(T::new(Row::new(found))),
    }
}

/// The records of a fetched page without their count.
pub fn array<T>(selected: Result<SelectHolder<T>, Error>) -> (r: Result<Vec<T>, Error>)
    ensures
        match selected {
            Ok(holder) => r == Ok::<Vec<T>, Error>(holder.data),
            Err(e) => r == Err::<Vec<T>, Error>(e),
        },
{
    match selected {
        Ok(holder) => Ok(holder.data),
        Err(e) => Err(e),
    }
}

/// Where a paged fetch stands.
#[derive(Debug, PartialEq, Eq)]
pub enum SelectState<T> {
    /// The page's statement is running.
    AwaitPage { sql: String, calc_found_rows: bool },
    /// The page is here, and the statement that counts all matching rows is running.
    AwaitCount { data: Vec<T> },
    /// The fetch has given its result.
    Finished,
}

/// What a backend reports of the statement it was handed.
#[derive(Debug, PartialEq, Eq)]
pub enum SelectEvent<R> {
    /// The rows that the statement gave.
    Rows(Vec<R>),
    /// The statement failed.
    Failed(Error),
}

/// What the caller of a paged fetch does next.
#[derive(Debug, PartialEq, Eq)]
pub enum SelectAction<T> {
    /// Run this statement with the parameters of the fetch, and report the outcome.
    Run(String),
    /// The fetch is over, with this result.
    Return(Result<SelectHolder<T>, Error>),
}

/// The error for a counting statement that gave no row.
pub open spec fn no_count_error() -> ErrorView {
    ErrorView::LibErr("Count get error"@)
}

/// The error for an event that reaches a fetch that is over.
pub open spec fn finished_error() -> ErrorView {
    ErrorView::Unknown("Select is finished"@)
}

/// The count that a row of the counting statement holds: its column `count`
/// as an unsigned integer that fits the machine's word.
pub open spec fn count_in<R: Rowable>(row: R) -> Option<usize> {
    match row.value_at("count"@) {
        Some(v) => match u64_of(v) {
            Some(n) => if n <= usize::MAX {
                Some(n as usize)
            } else {
                None
            },
            None => None,
        },
        None => None,
    }
}

/// Begins a paged fetch: the statement itself is run first.
pub fn select_start<T>(sql: &str, calc_found_rows: bool) -> (r: (SelectState<T>, SelectAction<T>))
    ensures
        r.0 matches SelectState::AwaitPage { sql: kept, calc_found_rows: calc } && kept@ == sql@
            && calc == calc_found_rows,
        r.1 matches SelectAction::Run(first) && first@ == sql@,
{
    (
        SelectState::AwaitPage { sql: String::from_str(sql), calc_found_rows },
        SelectAction::Run(String::from_str(sql)),
    )
}

/// Takes a paged fetch one step further.
///
/// A failure of the backend ends the fetch with that error. The page's rows
/// become records. Where no count of all matching rows was asked for, the
/// fetch ends with the records and their number. Where one was asked for,
/// the counting statement is derived from the page's statement and run next,
/// or the fetch ends with the error that no such statement can be derived.
/// The counting statement's first row then gives the count; the fetch fails
/// where it gave no row, or where that row holds no count.
pub fn select_step<T: Queryable, R: Rowable>(state: SelectState<T>, event: SelectEvent<R>) -> (r: (
    SelectState<T>,
    SelectAction<T>,
))
    ensures
        r.1 is Return ==> r.0 is Finished,
        match state {
            SelectState::Finished => r.1 matches SelectAction::Return(Err(e)) && e@
                == finished_error(),
            SelectState::AwaitPage { sql, calc_found_rows } => match event {
                SelectEvent::Failed(err) => r.1 matches SelectAction::Return(Err(e)) && e@ == err@,
                SelectEvent::Rows(rows) => if !calc_found_rows {
                    r.1 matches SelectAction::Return(Ok(holder)) && records_of(
                        rows@,
                        holder.data@,
                    ) && holder.count == rows@.len()
                } else {
                    match count_text(sql@) {
                        Err(reason) => r.1 matches SelectAction::Return(Err(e)) && e@ == reason,
                        Ok(text) => {
                            &&& r.0 matches SelectState::AwaitCount { data } && records_of(
                                rows@,
                                data@,
                            )
                            &&& r.1 matches SelectAction::Run(next) && next@ == text
                        },
                    }
                },
            },
            SelectState::AwaitCount { data } => match event {
                SelectEvent::Failed(err) => r.1 matches SelectAction::Return(Err(e)) && e@ == err@,
                SelectEvent::Rows(rows) => if rows@.len() == 0 {
                    r.1 matches SelectAction::Return(Err(e)) && e@ == no_count_error()
                } else {
                    match count_in(rows@[0]) {
                        Some(n) => r.1 matches SelectAction::Return(Ok(holder)) && holder.data
                            == data && holder.count == n,
                        None => r.1 matches SelectAction::Return(Err(e)) && e@ == column_error(
                            "count"@,
                        ),
                    }
                },
            },
        },
{
    match state {
        SelectState::Finished => (
            SelectState::Finished,
            SelectAction::Return(Err(Error::Unknown(String::from_str("Select is finished")))),
        ),
        SelectState::AwaitPage { sql, calc_found_rows } => match event {
            SelectEvent::Failed(err) => (SelectState::Finished, SelectAction::Return(Err(err))),
            SelectEvent::Rows(rows) => {
                let data: Vec<T> = map_rows(&rows);
                if !calc_found_rows {
                    let count = data.len();
                    (
                        SelectState::Finished,
                        SelectAction::Return(Ok(SelectHolder { data, count })),
                    )
                } else {
                    match count_sql(sql.as_str()) {
                        Err(e) => (SelectState::Finished, SelectAction::Return(Err(e))),
                        Ok(next) => (SelectState::AwaitCount { data }, SelectAction::Run(next)),
                    }
                }
            },
        },
        SelectState::AwaitCount { data } => match event {
            SelectEvent::Failed(err) => (SelectState::Finished, SelectAction::Return(Err(err))),
            SelectEvent::Rows(rows) => {
                if rows.len() == 0 {
                    return (
                        SelectState::Finished,
                        SelectAction::Return(
                            Err(Error::LibErr(String::from_str("Count get error"))),
                        ),
                    );
                }
                let found = match rows[0].get_val("count") {
                    Some(v) => v.to_u64(),
                    None => None,
                };
                match found {
                    Some(n) => {
                        if n <= usize::MAX as u64 {
                            let count = n as usize;
                            (
                                SelectState::Finished,
                                SelectAction::Return(Ok(SelectHolder { data, count })),
                            )
                        } else {
                            (
                                SelectState::Finished,
                                SelectAction::Return(Err(column_err("count"))),
                            )
                        }
                    },
                    None => (SelectState::Finished, SelectAction::Return(Err(column_err("count")))),
                }
            },
        },
    }
}

} // verus!
