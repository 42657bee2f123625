//! What is needed to open a connection to each engine.

use vstd::prelude::*;
use vstd::string::StringExecFns;
use crate::params::Params;
use crate::sql::Statement;
use crate::value::{Dypes, DypesView};

verus! {

/// The address of a database on the client/server engine.
///
/// The server is reached on the local host at the engine's default port;
/// `host` is kept beside it for reference.
#[derive(Debug, PartialEq, Eq)]
pub struct MySqlConfig {
    pub host: String,
    pub user_name: String,
    pub password: String,
    pub db_name: String,
}

/// The file of a database on the embedded engine.
#[derive(Debug, PartialEq, Eq)]
pub struct SqliteConfig {
    pub db_name: String,
}

/// The connection URL of a database on the client/server engine.
pub open spec fn mysql_url(user_name: Seq<char>, password: Seq<char>, db_name: Seq<char>) -> Seq<
    char,
> {
    "mysql://"@ + user_name + ":"@ + password + "@localhost:3306/"@ + db_name
}

/// The statement that attaches a database file under an alias. The alias is
/// written into the text; the file's name is bound.
pub open spec fn attach_text(db_as: Seq<char>) -> Seq<char> {
    "ATTACH DATABASE ? AS "@ + db_as
}

impl MySqlConfig {
    /// The URL that a connection pool is opened with.
    pub fn url(&self) -> (r: String)
        ensures
            r@ == mysql_url(self.user_name@, self.password@, self.db_name@),
    {
        let mut out = String::from_str("mysql://");
        out.append(self.user_name.as_str());
        out.append(":");
        out.append(self.password.as_str());
        out.append("@localhost:3306/");
        out.append(self.db_name.as_str());
        out
    }
}

impl SqliteConfig {
    /// The statement that attaches the database file `db_name` under the
    /// alias `db_as`.
    pub fn attach_statement(db_name: &str, db_as: &str) -> (r: Statement)
        ensures
            r.sql@ == attach_text(db_as@),
            r.params@ == seq![DypesView::String(db_name@)],
    {
        let mut sql = String::from_str("ATTACH DATABASE ? AS ");
        sql.append(db_as);
        let mut bound: Vec<Dypes> = Vec::new();
        bound.push(Dypes::String(String::from_str(db_name)));
        let params = Params::new(bound);
        assert(params@ =~= seq![DypesView::String(db_name@)]);
        Statement { sql, params }
    }
}

} // verus!
