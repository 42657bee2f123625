//! The error taxonomy, and how each backend's faults enter it.

use vstd::prelude::*;
use vstd::string::StringExecFns;

verus! {

/// What can go wrong in the data-access layer. Each variant carries a
/// human-readable detail.
#[derive(Debug, PartialEq, Eq)]
pub enum Error {
    /// The engine rejected the statement or could not satisfy it.
    SQLErr(String),
    /// A row or column was addressed outside its bounds.
    IndexOutOfBound(String),
    /// A value could not be coerced to the requested shape.
    ConversionErr(String),
    /// A fault of the driver or of the I/O below it.
    LibErr(String),
    /// None of the others.
    Unknown(String),
    /// A connection could not be established or used.
    ConnectionErr(String),
}

/// An [`Error`] with its detail as a sequence of characters.
pub ghost enum ErrorView {
    SQLErr(Seq<char>),
    IndexOutOfBound(Seq<char>),
    ConversionErr(Seq<char>),
    LibErr(Seq<char>),
    Unknown(Seq<char>),
    ConnectionErr(Seq<char>),
}

impl View for Error {
    type V = ErrorView;

    open spec fn view(&self) -> ErrorView {
        match self {
            Error::SQLErr(d) => ErrorView::SQLErr(d@),
            Error::IndexOutOfBound(d) => ErrorView::IndexOutOfBound(d@),
            Error::ConversionErr(d) => ErrorView::ConversionErr(d@),
            Error::LibErr(d) => ErrorView::LibErr(d@),
            Error::Unknown(d) => ErrorView::Unknown(d@),
            Error::ConnectionErr(d) => ErrorView::ConnectionErr(d@),
        }
    }
}

/// A fault reported by the client/server engine's driver, with its rendering.
#[derive(Debug, PartialEq, Eq)]
pub enum MySqlFault {
    /// An I/O error below the driver.
    Io(String),
    /// A malformed packet.
    Codec(String),
    /// An error sent by the server.
    Server(String),
    /// An error of the driver itself.
    Driver(String),
    /// A connection URL that could not be read.
    Url(String),
    /// A failure of the transport security layer.
    Tls(String),
    /// A value that could not be converted; carries the value's rendering.
    FromValue(String),
    /// A row that could not be converted; carries the row's rendering.
    FromRow(String),
}

/// A fault reported by the embedded engine's driver.
#[derive(Debug, PartialEq, Eq)]
pub enum SqliteFault {
    SqliteError(String),
    Unknown(String),
    BindError(String),
    PrepareErr(String),
    IndexOutOfBounds(String),
    ConnectionErr(String),
    Empty,
}

/// The error that a fault of the client/server engine's driver becomes.
pub open spec fn mysql_error(fault: MySqlFault) -> ErrorView {
    match fault {
        MySqlFault::Io(d) => ErrorView::LibErr(d@),
        MySqlFault::Codec(d) => ErrorView::LibErr(d@),
        MySqlFault::Server(d) => ErrorView::SQLErr(d@),
        MySqlFault::Driver(d) => ErrorView::LibErr(d@),
        MySqlFault::Url(d) => ErrorView::LibErr(d@),
        MySqlFault::Tls(d) => ErrorView::LibErr(d@),
        MySqlFault::FromValue(d) => ErrorView::ConversionErr("From mysql Value: "@ + d@),
        MySqlFault::FromRow(d) => ErrorView::ConversionErr("From mysql row: "@ + d@),
    }
}

/// The error that a fault of the embedded engine's driver becomes.
pub open spec fn sqlite_error(fault: SqliteFault) -> ErrorView {
    match fault {
        SqliteFault::SqliteError(d) => ErrorView::SQLErr(d@),
        SqliteFault::Unknown(d) => ErrorView::Unknown(d@),
        SqliteFault::BindError(d) => ErrorView::LibErr(d@),
        SqliteFault::PrepareErr(d) => ErrorView::LibErr(d@),
        SqliteFault::IndexOutOfBounds(d) => ErrorView::IndexOutOfBound(d@),
        SqliteFault::ConnectionErr(d) => ErrorView::ConnectionErr(d@),
        SqliteFault::Empty => ErrorView::Unknown("Empty"@),
    }
}

impl Error {
    /// The error for a column that does not hold a date.
    pub fn date_conv_err(key: &str) -> (r: Self)
        ensures
            r@ == ErrorView::ConversionErr(
                "Failed to convert "@ + key@ + " to date string"@,
            ),
    {
        let mut detail = String::from_str("Failed to convert ");
        detail.append(key);
        detail.append(" to date string");
        Error::ConversionErr(detail)
    }

    /// The human-readable detail.
    pub fn detail(&self) -> (r: &String)
        ensures
            r@ == match self@ {
                ErrorView::SQLErr(d) => d,
                ErrorView::IndexOutOfBound(d) => d,
                ErrorView::ConversionErr(d) => d,
                ErrorView::LibErr(d) => d,
                ErrorView::Unknown(d) => d,
                ErrorView::ConnectionErr(d) => d,
            },
    {
        match self {
            Error::SQLErr(d) => d,
            Error::IndexOutOfBound(d) => d,
            Error::ConversionErr(d) => d,
            Error::LibErr(d) => d,
            Error::Unknown(d) => d,
            Error::ConnectionErr(d) => d,
        }
    }

    /// Maps a fault of the client/server engine's driver into the taxonomy.
    pub fn from_mysql(fault: MySqlFault) -> (r: Self)
        ensures
            r@ == mysql_error(fault),
    {
        match fault {
            MySqlFault::Io(d) => Error::LibErr(d),
            MySqlFault::Codec(d) => Error::LibErr(d),
            MySqlFault::Server(d) => Error::SQLErr(d),
            MySqlFault::Driver(d) => Error::LibErr(d),
            MySqlFault::Url(d) => Error::LibErr(d),
            MySqlFault::Tls(d) => Error::LibErr(d),
            MySqlFault::FromValue(d) => {
                let mut detail = String::from_str("From mysql Value: ");
                detail.append(d.as_str());
                Error::ConversionErr(detail)
            },
            MySqlFault::FromRow(d) => {
                let mut detail = String::from_str("From mysql row: ");
                detail.append(d.as_str());
                Error::ConversionErr(detail)
            },
        }
    }

    /// Maps a fault of the embedded engine's driver into the taxonomy.
    pub fn from_sqlite(fault: SqliteFault) -> (r: Self)
        ensures
            r@ == sqlite_error(fault),
    {
        match fault {
            SqliteFault::SqliteError(d) => Error::SQLErr(d),
            SqliteFault::Unknown(d) => Error::Unknown(d),
            SqliteFault::BindError(d) => Error::LibErr(d),
            SqliteFault::PrepareErr(d) => Error::LibErr(d),
            SqliteFault::IndexOutOfBounds(d) => Error::IndexOutOfBound(d),
            SqliteFault::ConnectionErr(d) => Error::ConnectionErr(d),
            SqliteFault::Empty => Error::Unknown(String::from_str("Empty")),
        }
    }
}

} // verus!
