//! A common data-access layer over a client/server SQL engine and an embedded one.
//!
//! The layer is a value model that every native value is normalised into, rows
//! with typed access to their columns, the text of the statements that the
//! query engine issues, and what the engine makes of the results. It runs no
//! statement itself: a caller that holds a connection does.

pub mod connect;
pub mod engine;
pub mod error;
pub mod float;
pub mod params;
pub mod row;
pub mod sql;
pub mod text;
pub mod value;

pub use connect::{MySqlConfig, SqliteConfig};
pub use engine::SelectHolder;
pub use error::Error;
pub use params::Params;
pub use row::{FromDypes, Insertable, Queryable, Row, Rowable};
pub use value::{date_to_string, time_to_string, Dypes};

use vstd::prelude::*;
use vstd::string::StringExecFns;

verus! {

/// The result of an operation of the layer.
pub type Desult<T> = Result<T, Error>;

/// What a write statement changed: the number of rows, and the identifier
/// that the last insert generated.
#[derive(Debug, PartialEq, Eq)]
pub struct Affected {
    pub affected_rows: u64,
    pub last_insert_id: u64,
}

impl Affected {
    pub fn new(affected_rows: u64, last_insert_id: u64) -> (r: Self)
        ensures
            r.affected_rows == affected_rows,
            r.last_insert_id == last_insert_id,
    {
        Affected { affected_rows, last_insert_id }
    }
}

/// The choice of an engine.
#[derive(Debug)]
pub struct DbEngine;

impl DbEngine {
    /// The client/server engine's database `db_name`, for the given user.
    pub fn new_mysql(host: String, user_name: String, password: String, db_name: String) -> (r:
        MySqlConfig)
        ensures
            r.host == host,
            r.user_name == user_name,
            r.password == password,
            r.db_name == db_name,
    {
        MySqlConfig { host, user_name, password, db_name }
    }

    /// The embedded engine's database in the file `db_name`.
    pub fn new_sqlite(db_name: &str) -> (r: SqliteConfig)
        ensures
            r.db_name@ == db_name@,
    {
        SqliteConfig { db_name: String::from_str(db_name) }
    }
}

} // verus!
