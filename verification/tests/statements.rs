use dengine::connect::{MySqlConfig, SqliteConfig};
use dengine::sql::{
    concat_columns, count_sql, delete_statement, insert, insert_or_update_statement,
    insert_statement, insert_update, render_upsert_clause, Backend, Statement,
};
use dengine::{DbEngine, Dypes, Error, Insertable, Params};

fn names(all: &[&str]) -> Vec<String> {
    all.iter().map(|s| s.to_string()).collect()
}

fn marks(sql: &str) -> usize {
    sql.chars().filter(|c| *c == '?').count()
}

struct User {
    id: u64,
    name: String,
    age: i32,
}

impl Insertable for User {
    fn fields() -> Vec<String> {
        vec!["id".to_string(), "name".to_string(), "age".to_string()]
    }

    fn values(&self) -> Vec<Dypes> {
        vec![Dypes::from(self.id), Dypes::from(self.name.clone()), Dypes::from(self.age)]
    }
}

struct Lopsided;

impl Insertable for Lopsided {
    fn fields() -> Vec<String> {
        vec!["a".to_string(), "b".to_string()]
    }

    fn values(&self) -> Vec<Dypes> {
        vec![Dypes::Null]
    }
}

fn two_users() -> Vec<User> {
    vec![
        User { id: 1, name: "ann".to_string(), age: 30 },
        User { id: 2, name: "bob".to_string(), age: -1 },
    ]
}

#[test]
fn insert_two_records_of_three_fields() {
    let st = insert("user", &two_users()).unwrap();
    assert_eq!(st.sql, "INSERT INTO user (id,name,age) VALUES (?,?,?),(?,?,?)");
    assert_eq!(marks(&st.sql), 6);
    assert_eq!(
        st.params.values(),
        vec![
            Dypes::Uint(1),
            Dypes::String("ann".to_string()),
            Dypes::Int(30),
            Dypes::Uint(2),
            Dypes::String("bob".to_string()),
            Dypes::Int(-1),
        ]
    );
}

#[test]
fn insert_statement_of_plain_values() {
    let rows = vec![vec![Dypes::Uint(1), Dypes::Null], vec![Dypes::Uint(2), Dypes::Int(5)]];
    let st = insert_statement("t", &names(&["a", "b"]), &rows).unwrap();
    assert_eq!(
        st,
        Statement {
            sql: "INSERT INTO t (a,b) VALUES (?,?),(?,?)".to_string(),
            params: Params::new(vec![Dypes::Uint(1), Dypes::Null, Dypes::Uint(2), Dypes::Int(5)]),
        }
    );
}

#[test]
fn insert_one_record_of_one_field() {
    let st = insert_statement("t", &names(&["a"]), &vec![vec![Dypes::Null]]).unwrap();
    assert_eq!(st.sql, "INSERT INTO t (a) VALUES (?)");
    assert_eq!(st.params.len(), 1);
}

#[test]
fn insert_without_records_has_no_group() {
    let st = insert_statement("t", &names(&["a", "b"]), &Vec::new()).unwrap();
    assert_eq!(st.sql, "INSERT INTO t (a,b) VALUES ");
    assert_eq!(st.params.len(), 0);
}

#[test]
fn insert_rejects_a_record_that_does_not_fit() {
    let rows = vec![vec![Dypes::Uint(1), Dypes::Null], vec![Dypes::Uint(2)]];
    let r = insert_statement("t", &names(&["a", "b"]), &rows);
    assert_eq!(
        r,
        Err(Error::ConversionErr("Record does not hold one value for each field".to_string()))
    );
    assert!(matches!(insert("t", &vec![Lopsided]), Err(Error::ConversionErr(_))));
}

#[test]
fn placeholders_match_the_parameters() {
    for records in 0..5usize {
        for fields in 0..5usize {
            let columns: Vec<String> = (0..fields).map(|i| format!("c{}", i)).collect();
            let rows: Vec<Vec<Dypes>> = (0..records)
                .map(|r| (0..fields).map(|f| Dypes::Uint((r * 10 + f) as u64)).collect())
                .collect();
            let st = insert_statement("t", &columns, &rows).unwrap();
            assert_eq!(marks(&st.sql), records * fields);
            assert_eq!(st.params.len(), records * fields);
            let flat = st.params.values();
            for r in 0..records {
                for f in 0..fields {
                    assert_eq!(flat[r * fields + f], Dypes::Uint((r * 10 + f) as u64));
                }
            }
        }
    }
}

#[test]
fn upsert_clause_per_backend() {
    assert_eq!(
        render_upsert_clause(Backend::MySql, &names(&["a", "b"])),
        Some("a = VALUES(a) ,b = VALUES(b) ".to_string())
    );
    assert_eq!(render_upsert_clause(Backend::MySql, &names(&["a"])), Some("a = VALUES(a) ".to_string()));
    assert_eq!(render_upsert_clause(Backend::MySql, &Vec::new()), Some(String::new()));
    assert_eq!(render_upsert_clause(Backend::Sqlite, &names(&["a", "b"])), None);
}

#[test]
fn insert_or_update_on_the_client_server_engine() {
    let rows = vec![vec![Dypes::Uint(1), Dypes::Int(2)]];
    let st = insert_or_update_statement(Backend::MySql, "t", &names(&["a", "b"]), &rows).unwrap();
    assert_eq!(
        st.sql,
        "INSERT INTO t (a,b) VALUES (?,?) ON DUPLICATE KEY UPDATE a = VALUES(a) ,b = VALUES(b) "
    );
    assert_eq!(st.params.values(), vec![Dypes::Uint(1), Dypes::Int(2)]);
    let st = insert_update(Backend::MySql, "user", &two_users()).unwrap();
    assert_eq!(
        st.sql,
        "INSERT INTO user (id,name,age) VALUES (?,?,?),(?,?,?) ON DUPLICATE KEY UPDATE \
         id = VALUES(id) ,name = VALUES(name) ,age = VALUES(age) "
    );
    assert_eq!(st.params.len(), 6);
}

#[test]
fn insert_or_update_is_rejected_by_the_embedded_engine() {
    let rows = vec![vec![Dypes::Uint(1)]];
    let r = insert_or_update_statement(Backend::Sqlite, "t", &names(&["a"]), &rows);
    assert_eq!(
        r,
        Err(Error::SQLErr("Insert or update is not supported by this backend".to_string()))
    );
    assert!(matches!(insert_update(Backend::Sqlite, "t", &two_users()), Err(Error::SQLErr(_))));
}

#[test]
fn insert_or_update_rejects_a_record_that_does_not_fit() {
    let rows = vec![vec![Dypes::Uint(1)]];
    let r = insert_or_update_statement(Backend::MySql, "t", &names(&["a", "b"]), &rows);
    assert!(matches!(r, Err(Error::ConversionErr(_))));
}

#[test]
fn delete_by_keys_within() {
    let keys = vec![Dypes::Uint(1), Dypes::Uint(2), Dypes::Uint(3)];
    let st = delete_statement("t", "id", &keys, true);
    assert_eq!(st.sql, "DELETE FROM t WHERE id IN (?,?,?)");
    assert_eq!(marks(&st.sql), 3);
    assert!(st.sql.contains(" IN "));
    assert!(!st.sql.contains("NOT IN"));
    assert_eq!(st.params.values(), keys);
}

#[test]
fn delete_by_keys_without() {
    let keys = vec![Dypes::Uint(1), Dypes::Uint(2), Dypes::Uint(3)];
    let st = delete_statement("t", "id", &keys, false);
    assert_eq!(st.sql, "DELETE FROM t WHERE id NOT IN (?,?,?)");
    assert_eq!(marks(&st.sql), 3);
    assert_eq!(st.params.values(), keys);
}

#[test]
fn delete_by_one_key_and_by_none() {
    let st = delete_statement("t", "k", &vec![Dypes::String("x".to_string())], true);
    assert_eq!(st.sql, "DELETE FROM t WHERE k IN (?)");
    let st = delete_statement("t", "k", &Vec::new(), false);
    assert_eq!(st.sql, "DELETE FROM t WHERE k NOT IN ()");
    assert_eq!(st.params.len(), 0);
}

#[test]
fn concat_columns_per_backend() {
    let columns = names(&["a", "b"]);
    let mysql = concat_columns(Backend::MySql, &columns);
    let sqlite = concat_columns(Backend::Sqlite, &columns);
    assert_eq!(mysql, "concat_ws(' ', a,b)");
    assert_eq!(sqlite, "(a || ' ' || b)");
    assert_ne!(mysql, sqlite);
    assert_eq!(concat_columns(Backend::MySql, &names(&["a"])), "concat_ws(' ', a)");
    assert_eq!(concat_columns(Backend::Sqlite, &names(&["a"])), "(a)");
    assert_eq!(concat_columns(Backend::Sqlite, &names(&["a", "b", "c"])), "(a || ' ' || b || ' ' || c)");
}

#[test]
fn count_statement_is_sliced_between_the_markers() {
    assert_eq!(
        count_sql(" select * from t where x=? limit 10"),
        Ok("select count(*) as count  from t where x=?".to_string())
    );
    assert_eq!(
        count_sql("select a from t limit 1"),
        Ok("select count(*) as count  from t".to_string())
    );
}

#[test]
fn count_statement_finds_limit_in_any_case() {
    assert_eq!(
        count_sql("select a from t LIMIT 1"),
        Ok("select count(*) as count  from t".to_string())
    );
    assert_eq!(
        count_sql("select a from t LiMiT 1 limit 2"),
        Ok("select count(*) as count  from t".to_string())
    );
}

#[test]
fn count_statement_takes_the_first_markers() {
    assert_eq!(
        count_sql("select a from t where b in (select c from u limit 3) limit 1"),
        Ok("select count(*) as count  from t where b in (select c from u".to_string())
    );
}

#[test]
fn count_statement_keeps_text_beyond_ascii() {
    assert_eq!(
        count_sql("select \u{130} from t\u{e9} where n='\u{1f496}' limit 1"),
        Ok("select count(*) as count  from t\u{e9} where n='\u{1f496}'".to_string())
    );
}

#[test]
fn count_statement_needs_from() {
    assert_eq!(count_sql("select 1 limit 1"), Err(Error::SQLErr("No from in sql".to_string())));
    assert_eq!(count_sql("select a FROM t limit 1"), Err(Error::SQLErr("No from in sql".to_string())));
    assert_eq!(count_sql(""), Err(Error::SQLErr("No from in sql".to_string())));
}

#[test]
fn count_statement_needs_limit() {
    assert_eq!(
        count_sql(" select * from t where x=?"),
        Err(Error::SQLErr("No limit in sql".to_string()))
    );
    assert_eq!(count_sql("select a from t limit"), Err(Error::SQLErr("No limit in sql".to_string())));
}

#[test]
fn count_statement_needs_limit_after_from() {
    assert_eq!(
        count_sql("select a limit 1 from t"),
        Err(Error::SQLErr("Limit before from in sql".to_string()))
    );
}

#[test]
fn connection_url() {
    let config = DbEngine::new_mysql(
        "db.example".to_string(),
        "root".to_string(),
        "pw".to_string(),
        "shop".to_string(),
    );
    assert_eq!(
        config,
        MySqlConfig {
            host: "db.example".to_string(),
            user_name: "root".to_string(),
            password: "pw".to_string(),
            db_name: "shop".to_string(),
        }
    );
    assert_eq!(config.url(), "mysql://root:pw@localhost:3306/shop");
}

#[test]
fn embedded_database_and_attachment() {
    assert_eq!(DbEngine::new_sqlite("main.db"), SqliteConfig { db_name: "main.db".to_string() });
    let st = SqliteConfig::attach_statement("other.db", "o");
    assert_eq!(st.sql, "ATTACH DATABASE ? AS o");
    assert_eq!(st.params.values(), vec![Dypes::String("other.db".to_string())]);
}
