//! Rows as the engines hand them over, and typed access to their columns.

use vstd::prelude::*;
use vstd::string::StringExecFns;
use chrono::{Datelike, NaiveDate};
use crate::error::{Error, ErrorView};
use crate::value::{
    bool_of, from_mysql_view, from_sqlite_view, i32_of, i64_of, text_of, u32_of, u64_of, Dypes,
    DypesView, MySqlValue, MySqlValueView, SqliteValue, SqliteValueView,
};

verus! {

/// What the calendar library writes for the date `year`-`month`-`day` under
/// the pattern; nothing where there is no such date or where the pattern
/// cannot be written for a date.
pub uninterp spec fn formatted_date(year: int, month: int, day: int, pattern: Seq<char>) -> Option<
    Seq<char>,
>;

/// The year, month and day that the calendar library reads from a text of
/// the form `year-month-day`; nothing where the text is no such date.
pub uninterp spec fn parsed_date(text: Seq<char>) -> Option<(int, int, int)>;

/// `NaiveDate::from_ymd_opt` makes the date, which is absent where the
/// calendar has no such day, and `NaiveDate::format` with
/// `DelayedFormat::write_to` writes it under the pattern, which fails where
/// the pattern is malformed or asks for more than a date holds. The result
/// depends on the four arguments alone.
#[verifier::external_body]
fn format_ymd(year: i32, month: u32, day: u32, pattern: &str) -> (r: Option<String>)
    ensures
        match r {
            Some(s) => formatted_date(year as int, month as int, day as int, pattern@) == Some(
                s@,
            ),
            None => formatted_date(year as int, month as int, day as int, pattern@).is_none(),
        },
{
    match NaiveDate::from_ymd_opt(year, month, day) {
        None => None,
        Some(date) => {
            let mut out = String::new();
            match date.format(pattern).write_to(&mut out) {
                Ok(()) => Some(out),
                Err(_) => None,
            }
        },
    }
}

/// `NaiveDate::parse_from_str` with the pattern `%Y-%m-%d` reads a date from
/// the text, or fails; `Datelike` gives the date's year, month and day. The
/// result depends on the text alone.
#[verifier::external_body]
fn parse_ymd(text: &str) -> (r: Option<(i32, u32, u32)>)
    ensures
        match r {
            Some(p) => parsed_date(text@) == Some((p.0 as int, p.1 as int, p.2 as int)),
            None => parsed_date(text@).is_none(),
        },
{
    match NaiveDate::parse_from_str(text, "%Y-%m-%d") {
        Ok(date) => Some((date.year(), date.month(), date.day())),
        Err(_) => None,
    }
}

/// The names of a row's columns.
pub open spec fn names_of<V>(columns: Seq<(String, V)>) -> Seq<Seq<char>> {
    Seq::new(columns.len(), |i: int| columns[i].0@)
}

/// The first position at or after `from` of a column named `key`.
pub open spec fn named_from(names: Seq<Seq<char>>, key: Seq<char>, from: int) -> Option<int>
    decreases names.len() - from,
{
    if 0 <= from < names.len() {
        if names[from] == key {
            Some(from)
        } else {
            named_from(names, key, from + 1)
        }
    } else {
        None
    }
}

/// The position of the first column named `key`.
pub open spec fn named(names: Seq<Seq<char>>, key: Seq<char>) -> Option<int> {
    named_from(names, key, 0)
}

/// A position that `named_from` gives lies in the row, at or after `from`.
pub proof fn lemma_named_in_range(names: Seq<Seq<char>>, key: Seq<char>, from: int)
    requires
        0 <= from,
    ensures
        match named_from(names, key, from) {
            Some(at) => from <= at < names.len() && names[at] == key && forall|j: int|
                from <= j < at ==> names[j] != key,
            None => forall|j: int| from <= j < names.len() ==> names[j] != key,
        },
    decreases names.len() - from,
{
    if from < names.len() && names[from] != key {
        lemma_named_in_range(names, key, from + 1);
    }
}

/// The position of the first column named `key`, if the row has such a column.
fn position<V>(columns: &Vec<(String, V)>, key: &str) -> (r: Option<usize>)
    ensures
        match r {
            Some(at) => at < columns@.len() && named(names_of(columns@), key@) == Some(at as int),
            None => named(names_of(columns@), key@).is_none(),
        },
{
    let wanted = String::from_str(key);
    let mut i: usize = 0;
    while i < columns.len()
        invariant
            i <= columns.len(),
            wanted@ == key@,
            named(names_of(columns@), key@) == named_from(names_of(columns@), key@, i as int),
        decreases columns.len() - i,
    {
        if columns[i].0 == wanted {
            return Some(i);
        }
        i += 1;
    }
    None
}

/// The error for a column of the client/server engine that holds no date, or
/// one that cannot be written.
pub open spec fn date_error(key: Seq<char>) -> ErrorView {
    ErrorView::ConversionErr("Failed to convert "@ + key + " to date string"@)
}

/// The error for a column of the embedded engine that is absent or holds no text.
pub open spec fn date_value_error(key: Seq<char>) -> ErrorView {
    ErrorView::ConversionErr("Failed to convert "@ + key + " to Value + date string. "@)
}

/// What a backend's row offers: a column's value by name, and a date column
/// written as text under a pattern.
pub trait Rowable {
    /// The canonical value of the column named `key`, if the row has one.
    spec fn value_at(&self, key: Seq<char>) -> Option<DypesView>;

    /// The date in the column named `key` written under `format`, or the
    /// error where the column is absent, holds no date, or cannot be written.
    spec fn date_at(&self, key: Seq<char>, format: Seq<char>) -> Result<Seq<char>, ErrorView>;

    /// Reads the column named `key`. An unknown column gives nothing.
    fn get_val(&self, key: &str) -> (r: Option<Dypes>)
        ensures
            match r {
                Some(v) => self.value_at(key@) == Some(v@),
                None => self.value_at(key@).is_none(),
            },
    ;

    /// Writes the date in the column named `key` under `format`.
    fn get_date_string(&self, key: &str, format: &str) -> (r: Result<String, Error>)
        ensures
            match r {
                Ok(s) => self.date_at(key@, format@) == Ok::<Seq<char>, ErrorView>(s@),
                Err(e) => self.date_at(key@, format@) == Err::<Seq<char>, ErrorView>(e@),
            },
    ;
}

/// A row of the client/server engine: its columns in order, each with its name.
#[derive(Debug, PartialEq, Eq)]
pub struct MySqlRow {
    pub columns: Vec<(String, MySqlValue)>,
}

/// A row of the embedded engine: its columns in order, each with its name.
#[derive(Debug, PartialEq, Eq)]
pub struct SqliteRow {
    pub columns: Vec<(String, SqliteValue)>,
}

impl MySqlRow {
    /// The native value of the first column named `key`.
    pub open spec fn native_at(&self, key: Seq<char>) -> Option<MySqlValueView> {
        match named(names_of(self.columns@), key) {
            Some(at) => Some(self.columns@[at].1@),
            None => None,
        }
    }
}

impl SqliteRow {
    /// The native value of the first column named `key`.
    pub open spec fn native_at(&self, key: Seq<char>) -> Option<SqliteValueView> {
        match named(names_of(self.columns@), key) {
            Some(at) => Some(self.columns@[at].1@),
            None => None,
        }
    }
}

impl Rowable for MySqlRow {
    open spec fn value_at(&self, key: Seq<char>) -> Option<DypesView> {
        match self.native_at(key) {
            Some(v) => Some(from_mysql_view(v)),
            None => None,
        }
    }

    open spec fn date_at(&self, key: Seq<char>, format: Seq<char>) -> Result<
        Seq<char>,
        ErrorView,
    > {
        match self.native_at(key) {
            Some(MySqlValueView::Date(y, m, d, _, _, _, _)) => if m > 0 && d > 0 {
                match formatted_date(y as int, m as int, d as int, format) {
                    Some(s) => Ok(s),
                    None => Err(date_error(key)),
                }
            } else {
                Err(date_error(key))
            },
            _ => Err(date_error(key)),
        }
    }

    fn get_val(&self, key: &str) -> (r: Option<Dypes>) {
        match position(&self.columns, key) {
            Some(at) => Some(Dypes::from_mysql(self.columns[at].1.clone())),
            None => None,
        }
    }

    fn get_date_string(&self, key: &str, format: &str) -> (r: Result<String, Error>) {
        let at = match position(&self.columns, key) {
            Some(at) => at,
            None => {
                return Err(Error::date_conv_err(key));
            },
        };
        match &self.columns[at].1 {
            MySqlValue::Date(y, m, d, _, _, _, _) => {
                if *m == 0 || *d == 0 {
                    return Err(Error::date_conv_err(key));
                }
                match format_ymd(*y as i32, *m as u32, *d as u32, format) {
                    Some(s) => Ok(s),
                    None => Err(Error::date_conv_err(key)),
                }
            },
            _ => Err(Error::date_conv_err(key)),
        }
    }
}

fn date_value_err(key: &str) -> (r: Error)
    ensures
        r@ == date_value_error(key@),
{
    let mut detail = String::from_str("Failed to convert ");
    detail.append(key);
    detail.append(" to Value + date string. ");
    Error::ConversionErr(detail)
}

impl Rowable for SqliteRow {
    open spec fn value_at(&self, key: Seq<char>) -> Option<DypesView> {
        match self.native_at(key) {
            Some(v) => Some(from_sqlite_view(v)),
            None => None,
        }
    }

    open spec fn date_at(&self, key: Seq<char>, format: Seq<char>) -> Result<
        Seq<char>,
        ErrorView,
    > {
        match self.native_at(key) {
            Some(SqliteValueView::String(text)) => match parsed_date(text) {
                Some((y, m, d)) => match formatted_date(y, m, d, format) {
                    Some(s) => Ok(s),
                    None => Err(date_error(key)),
                },
                None => Err(date_error(key)),
            },
            _ => Err(date_value_error(key)),
        }
    }

    fn get_val(&self, key: &str) -> (r: Option<Dypes>) {
        match position(&self.columns, key) {
            Some(at) => Some(Dypes::from_sqlite(self.columns[at].1.clone())),
            None => None,
        }
    }

    fn get_date_string(&self, key: &str, format: &str) -> (r: Result<String, Error>) {
        let at = match position(&self.columns, key) {
            Some(at) => at,
            None => {
                return Err(date_value_err(key));
            },
        };
        match &self.columns[at].1 {
            SqliteValue::String(text) => {
                match parse_ymd(text.as_str()) {
                    Some((y, m, d)) => match format_ymd(y, m, d, format) {
                        Some(s) => Ok(s),
                        None => Err(Error::date_conv_err(key)),
                    },
                    None => Err(Error::date_conv_err(key)),
                }
            },
            _ => Err(date_value_err(key)),
        }
    }
}

/// On the client/server engine a date whose month or day is zero is never
/// written: asking for it as text is a conversion error, whatever the pattern.
pub proof fn lemma_zero_month_or_day_fails(row: MySqlRow, key: Seq<char>, format: Seq<char>)
    requires
        row.native_at(key) matches Some(MySqlValueView::Date(_, m, d, _, _, _, _)) && (m == 0 || d
            == 0),
    ensures
        row.date_at(key, format) == Err::<Seq<char>, ErrorView>(date_error(key)),
{
}

/// A type that a canonical value can be converted to.
pub trait FromDypes: Sized {
    /// The value as this type, or nothing where it has no such form.
    fn from_dypes(v: Dypes) -> (r: Option<Self>);
}

impl FromDypes for u64 {
    fn from_dypes(v: Dypes) -> (r: Option<u64>)
        ensures
            r == u64_of(v@),
    {
        v.to_u64()
    }
}

impl FromDypes for i64 {
    fn from_dypes(v: Dypes) -> (r: Option<i64>)
        ensures
            r == i64_of(v@),
    {
        v.to_i64()
    }
}

impl FromDypes for u32 {
    fn from_dypes(v: Dypes) -> (r: Option<u32>)
        ensures
            r == u32_of(v@),
    {
        v.to_u32()
    }
}

impl FromDypes for i32 {
    fn from_dypes(v: Dypes) -> (r: Option<i32>)
        ensures
            r == i32_of(v@),
    {
        v.to_i32()
    }
}

impl FromDypes for bool {
    fn from_dypes(v: Dypes) -> (r: Option<bool>)
        ensures
            r == bool_of(v@),
    {
        v.to_bool()
    }
}

impl FromDypes for String {
    fn from_dypes(v: Dypes) -> (r: Option<String>)
        ensures
            match r {
                Some(s) => text_of(v@) == Some(s@),
                None => text_of(v@).is_none(),
            },
    {
        v.to_text()
    }
}

/// A read-only view over one row of a query's result.
pub struct Row<'a, R: Rowable>(pub &'a R);

impl<'a, R: Rowable> Row<'a, R> {
    /// The view over `row`.
    pub fn new(row: &'a R) -> (r: Self)
        ensures
            r.0 == row,
    {
        Row(row)
    }

    /// The canonical value of the column named `key`. An unknown column gives
    /// nothing.
    pub fn get_value(&self, key: &str) -> (r: Option<Dypes>)
        ensures
            match r {
                Some(v) => self.0.value_at(key@) == Some(v@),
                None => self.0.value_at(key@).is_none(),
            },
    {
        self.0.get_val(key)
    }

    /// The column named `key` as a `T`: nothing where the row has no such
    /// column, and otherwise what the column's value converts to, which is
    /// nothing where it has no form of that type.
    pub fn get<T: FromDypes>(&self, key: &str) -> (r: Option<T>)
        ensures
            match self.0.value_at(key@) {
                None => r.is_none(),
                Some(view) => exists|v: Dypes| v@ == view && call_ensures(T::from_dypes, (v,), r),
            },
    {
        match self.0.get_val(key) {
            Some(x) => T::from_dypes(x),
            None => None,
        }
    }

    /// The date in the column named `key` written under `format`.
    pub fn get_date_string(&self, key: &str, format: &str) -> (r: Result<String, Error>)
        ensures
            match r {
                Ok(s) => self.0.date_at(key@, format@) == Ok::<Seq<char>, ErrorView>(s@),
                Err(e) => self.0.date_at(key@, format@) == Err::<Seq<char>, ErrorView>(e@),
            },
    {
        self.0.get_date_string(key, format)
    }
}

/// A record that can be built from a row.
pub trait Queryable: Sized {
    /// The record that the row holds.
    fn new<R: Rowable>(row: Row<R>) -> Self;
}

/// A record that can be written: the names of its persisted fields, and its
/// values in the same order.
pub trait Insertable {
    /// The names of the fields, in order.
    fn fields() -> Vec<String>;

    /// The values of the fields, in the order of `fields`.
    fn values(&self) -> Vec<Dypes>;
}

} // verus!
