use dengine::row::{MySqlRow, SqliteRow};
use dengine::value::{MySqlValue, SqliteValue};
use dengine::{Dypes, Error, Row, Rowable};

fn mysql_row() -> MySqlRow {
    MySqlRow {
        columns: vec![
            ("id".to_string(), MySqlValue::UInt(7)),
            ("name".to_string(), MySqlValue::Bytes(b"ann".to_vec())),
            ("born".to_string(), MySqlValue::Date(2018, 9, 5, 1, 2, 3, 4)),
            ("no_month".to_string(), MySqlValue::Date(2018, 0, 5, 0, 0, 0, 0)),
            ("no_day".to_string(), MySqlValue::Date(2018, 9, 0, 0, 0, 0, 0)),
            ("no_such_day".to_string(), MySqlValue::Date(2018, 2, 30, 0, 0, 0, 0)),
            ("month_13".to_string(), MySqlValue::Date(2018, 13, 1, 0, 0, 0, 0)),
            ("leap".to_string(), MySqlValue::Date(2020, 2, 29, 0, 0, 0, 0)),
            ("score".to_string(), MySqlValue::Float(2.75f64.to_bits())),
            ("gone".to_string(), MySqlValue::Null),
            ("id".to_string(), MySqlValue::UInt(8)),
        ],
    }
}

fn sqlite_row() -> SqliteRow {
    SqliteRow {
        columns: vec![
            ("id".to_string(), SqliteValue::Int(-7)),
            ("name".to_string(), SqliteValue::String("bob".to_string())),
            ("born".to_string(), SqliteValue::String("2018-09-05".to_string())),
            ("loose".to_string(), SqliteValue::String("2018-9-5".to_string())),
            ("no_month".to_string(), SqliteValue::String("2018-00-05".to_string())),
            ("no_day".to_string(), SqliteValue::String("2018-09-00".to_string())),
            ("words".to_string(), SqliteValue::String("yesterday".to_string())),
            ("blob".to_string(), SqliteValue::Bytes(vec![0xff, 0xfe])),
            ("ascii".to_string(), SqliteValue::Bytes(vec![0x68, 0x69])),
        ],
    }
}

fn conversion_error(r: Result<String, Error>) -> String {
    match r {
        Err(Error::ConversionErr(detail)) => detail,
        other => panic!("no conversion error: {:?}", other),
    }
}

#[test]
fn value_lookup_by_name() {
    let raw = mysql_row();
    let row = Row::new(&raw);
    assert_eq!(row.get_value("name"), Some(Dypes::Bytes(b"ann".to_vec())));
    assert_eq!(row.get_value("gone"), Some(Dypes::Null));
    assert_eq!(row.get_value("born"), Some(Dypes::String("2018-9-5 1:2:3:4".to_string())));
    assert_eq!(raw.get_val("score"), Some(Dypes::Float(2.75f64.to_bits())));
}

#[test]
fn value_lookup_takes_the_first_column_of_a_name() {
    let raw = mysql_row();
    assert_eq!(Row::new(&raw).get_value("id"), Some(Dypes::Uint(7)));
}

#[test]
fn unknown_column_gives_nothing() {
    let raw = mysql_row();
    let row = Row::new(&raw);
    assert_eq!(row.get_value("nope"), None);
    assert_eq!(row.get_value(""), None);
    assert_eq!(row.get_value("ID"), None);
    assert_eq!(row.get::<u64>("nope"), None);
    let raw = sqlite_row();
    assert_eq!(Row::new(&raw).get_value("nope"), None);
    let empty = SqliteRow { columns: Vec::new() };
    assert_eq!(Row::new(&empty).get_value("id"), None);
}

#[test]
fn typed_lookup() {
    let raw = mysql_row();
    let row = Row::new(&raw);
    assert_eq!(row.get::<u64>("id"), Some(7));
    assert_eq!(row.get::<i64>("id"), Some(7));
    assert_eq!(row.get::<u32>("id"), Some(7));
    assert_eq!(row.get::<i32>("id"), Some(7));
    assert_eq!(row.get::<bool>("id"), Some(true));
    assert_eq!(row.get::<String>("name"), Some("ann".to_string()));
    assert_eq!(row.get::<u64>("score"), Some(2));
    let raw = sqlite_row();
    let row = Row::new(&raw);
    assert_eq!(row.get::<i64>("id"), Some(-7));
    assert_eq!(row.get::<u64>("id"), Some(u64::MAX - 6));
    assert_eq!(row.get::<String>("name"), Some("bob".to_string()));
}

#[test]
fn present_column_of_another_type_gives_nothing() {
    let raw = mysql_row();
    let row = Row::new(&raw);
    assert_eq!(row.get::<String>("id"), None);
    assert_eq!(row.get::<u64>("name"), None);
    assert_eq!(row.get::<bool>("name"), None);
    assert_eq!(row.get::<bool>("score"), None);
    assert_eq!(row.get::<i32>("gone"), None);
    let raw = sqlite_row();
    assert_eq!(Row::new(&raw).get::<String>("blob"), None);
    assert_eq!(Row::new(&raw).get::<String>("ascii"), Some("hi".to_string()));
    assert_eq!(Row::new(&raw).get::<i64>("ascii"), None);
}

#[test]
fn date_as_text_on_the_client_server_engine() {
    let raw = mysql_row();
    let row = Row::new(&raw);
    assert_eq!(row.get_date_string("born", "%Y-%m-%d"), Ok("2018-09-05".to_string()));
    assert_eq!(row.get_date_string("born", "%d/%m/%y"), Ok("05/09/18".to_string()));
    assert_eq!(row.get_date_string("born", "%A, %-d %B %Y"), Ok("Wednesday, 5 September 2018".to_string()));
    assert_eq!(row.get_date_string("born", "born"), Ok("born".to_string()));
    assert_eq!(row.get_date_string("born", ""), Ok(String::new()));
    assert_eq!(row.get_date_string("leap", "%j"), Ok("060".to_string()));
}

#[test]
fn date_with_month_zero_or_day_zero_is_a_conversion_error() {
    let raw = mysql_row();
    let row = Row::new(&raw);
    assert_eq!(
        row.get_date_string("no_month", "%Y-%m-%d"),
        Err(Error::ConversionErr("Failed to convert no_month to date string".to_string()))
    );
    assert_eq!(
        row.get_date_string("no_day", "%Y-%m-%d"),
        Err(Error::ConversionErr("Failed to convert no_day to date string".to_string()))
    );
}

#[test]
fn date_that_the_calendar_lacks_is_a_conversion_error() {
    let raw = mysql_row();
    let row = Row::new(&raw);
    assert_eq!(
        conversion_error(row.get_date_string("no_such_day", "%Y-%m-%d")),
        "Failed to convert no_such_day to date string"
    );
    assert_eq!(
        conversion_error(row.get_date_string("month_13", "%Y")),
        "Failed to convert month_13 to date string"
    );
}

#[test]
fn date_of_an_absent_or_other_column_is_a_conversion_error() {
    let raw = mysql_row();
    let row = Row::new(&raw);
    assert_eq!(
        conversion_error(row.get_date_string("nope", "%Y")),
        "Failed to convert nope to date string"
    );
    assert_eq!(conversion_error(row.get_date_string("id", "%Y")), "Failed to convert id to date string");
    assert_eq!(
        conversion_error(row.get_date_string("name", "%Y")),
        "Failed to convert name to date string"
    );
    assert_eq!(
        conversion_error(raw.get_date_string("gone", "%Y")),
        "Failed to convert gone to date string"
    );
}

#[test]
fn date_under_a_pattern_that_cannot_be_written_is_a_conversion_error() {
    let raw = mysql_row();
    let row = Row::new(&raw);
    assert_eq!(
        conversion_error(row.get_date_string("born", "%Q")),
        "Failed to convert born to date string"
    );
    assert_eq!(
        conversion_error(row.get_date_string("born", "%H:%M")),
        "Failed to convert born to date string"
    );
    assert_eq!(
        conversion_error(row.get_date_string("born", "%Y-%")),
        "Failed to convert born to date string"
    );
}

#[test]
fn date_as_text_on_the_embedded_engine() {
    let raw = sqlite_row();
    let row = Row::new(&raw);
    assert_eq!(row.get_date_string("born", "%d/%m/%Y"), Ok("05/09/2018".to_string()));
    assert_eq!(row.get_date_string("born", "%Y-%m-%d"), Ok("2018-09-05".to_string()));
    assert_eq!(row.get_date_string("loose", "%Y-%m-%d"), Ok("2018-09-05".to_string()));
    assert_eq!(raw.get_date_string("born", "%b %e"), Ok("Sep  5".to_string()));
}

#[test]
fn text_that_is_no_date_is_a_conversion_error() {
    let raw = sqlite_row();
    let row = Row::new(&raw);
    assert_eq!(
        conversion_error(row.get_date_string("words", "%Y")),
        "Failed to convert words to date string"
    );
    assert_eq!(
        conversion_error(row.get_date_string("name", "%Y")),
        "Failed to convert name to date string"
    );
    assert_eq!(
        conversion_error(row.get_date_string("no_month", "%Y")),
        "Failed to convert no_month to date string"
    );
    assert_eq!(
        conversion_error(row.get_date_string("no_day", "%Y")),
        "Failed to convert no_day to date string"
    );
    assert_eq!(
        conversion_error(row.get_date_string("born", "%Q")),
        "Failed to convert born to date string"
    );
}

#[test]
fn embedded_column_that_holds_no_text_is_a_conversion_error() {
    let raw = sqlite_row();
    let row = Row::new(&raw);
    assert_eq!(
        conversion_error(row.get_date_string("id", "%Y")),
        "Failed to convert id to Value + date string. "
    );
    assert_eq!(
        conversion_error(row.get_date_string("blob", "%Y")),
        "Failed to convert blob to Value + date string. "
    );
    assert_eq!(
        conversion_error(row.get_date_string("nope", "%Y")),
        "Failed to convert nope to Value + date string. "
    );
}
