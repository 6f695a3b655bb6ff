use redisql::names::{database_name, rdb_temporary_path};
use redisql::redis_type::{LeakyArrayOfRMString, XADDCommand};
use redisql::redisql_error::RediSQLError;
use redisql::statistics::Statistics;
use redisql::sync_engine::check_args;
use redisql::telemetrics::{Bucket, CAPACITY_HOURS, FIRST_REPORT_HOURS, HOURLY_COST, REPORT_HOURS};
use redisql::text::{i32_to_decimal, is_keyword, usize_to_decimal};

#[test]
fn statistics_count_and_report() {
    let mut s = Statistics::new();
    s.create_db();
    s.create_db_ok();
    s.exec();
    s.exec();
    s.copy_err();
    let v = s.values().data;
    assert_eq!(v.len(), 33);
    assert_eq!(v[0], ("CREATE_DB", 1));
    assert_eq!(v[1], ("CREATE_DB OK", 1));
    assert_eq!(v[2], ("CREATE_DB ERR", 0));
    assert_eq!(v[3], ("EXEC", 2));
    assert_eq!(v[9], ("QUERY.INTO", 0));
    assert_eq!(v[27], ("QUERY_STATEMENT.INTO", 0));
    assert_eq!(v[32], ("COPY ERR", 1));
}

#[test]
fn error_constructors() {
    let e = RediSQLError::timeout();
    assert_eq!(e.code(), 0);
    assert_eq!(e.debug_message(), "Timeout expired.");
    assert_eq!(RediSQLError::no_redisql_key().code(), 5);
    assert_eq!(RediSQLError::empty_key().code(), 15);
    assert_eq!(RediSQLError::empty_key().description(), "Key does not exists");
    assert_eq!(RediSQLError::both_statement_and_query().code(), 12);
    let e = RediSQLError::with_code(42, "d".into(), "x".into());
    assert_eq!((e.code(), e.debug_message(), e.description()), (42, "d", "x"));
}

#[test]
fn keywords_ignore_ascii_case() {
    assert!(is_keyword("ReAd_OnLy", "READ_ONLY"));
    assert!(!is_keyword("READ_ONL", "READ_ONLY"));
    assert!(!is_keyword("é", "É"));
}

#[test]
fn decimal_text() {
    assert_eq!(i32_to_decimal(0), "0");
    assert_eq!(i32_to_decimal(-2147483648), "-2147483648");
    assert_eq!(i32_to_decimal(905), "905");
    assert_eq!(usize_to_decimal(18446744073709551615), "18446744073709551615");
}

#[test]
fn argument_count_check() {
    assert_eq!(check_args(vec!["a", "b"], 2), Ok(vec!["a", "b"]));
    assert_eq!(check_args(vec!["a"], 3), Err(String::from("Wrong number of arguments, it accepts 3, you provide 1")));
}

#[test]
fn xadd_arguments() {
    let mut x = XADDCommand::new("stream");
    x.add_element("f", "v");
    let a: Vec<&str> = x.arguments().as_slice().iter().map(|s| s.as_str()).collect();
    assert_eq!(a, vec!["stream", "*", "f", "v"]);
    let x = XADDCommand::new_with_id("s", "1-1");
    assert_eq!(x.arguments().len(), 2);
    let mut l = LeakyArrayOfRMString::new();
    assert!(l.is_empty());
    l.push("x");
    assert_eq!(l.len(), 1);
}

#[test]
fn bucket_fills_up_to_its_capacity() {
    let mut b = Bucket::new(CAPACITY_HOURS);
    assert!(b.is_empty());
    b.add(FIRST_REPORT_HOURS);
    b.remove(HOURLY_COST);
    assert!(!b.is_empty());
    b.add(REPORT_HOURS);
    b.remove(4);
    assert!(!b.is_empty());
    b.remove(2);
    assert!(b.is_empty());
    b.remove(7);
    b.add(1);
    assert!(!b.is_empty());
    b.remove(1);
    assert!(b.is_empty());
    b.add(200);
    b.remove(119);
    assert!(!b.is_empty());
    b.remove(1);
    assert!(b.is_empty());
}

#[test]
fn generated_names() {
    let n = database_name(None);
    assert!(n.starts_with("file:"));
    assert!(n.ends_with("?mode=memory&cache=shared"));
    let hex = &n[5..n.len() - "?mode=memory&cache=shared".len()];
    assert_eq!(hex.len(), 32);
    assert!(hex.chars().all(|c| c.is_ascii_hexdigit() && !c.is_ascii_uppercase()));
    assert_eq!(&hex[12..13], "4");
    assert_eq!(database_name(Some("/tmp/a.db")), "/tmp/a.db");
    assert!(database_name(Some(":memory")).starts_with("file:"));
    assert_eq!(database_name(Some(":memory:")), ":memory:");
    let p = rdb_temporary_path(true);
    assert!(p.starts_with("rediSQL_rdb_write_"));
    assert!(p.ends_with(".sqlite"));
    assert_eq!(p.len(), "rediSQL_rdb_write_".len() + 36 + ".sqlite".len());
    assert!(rdb_temporary_path(false).starts_with("rediSQL_rdb_read_"));
}

#[test]
fn pushes_and_additions_keep_their_order() {
    let mut a = LeakyArrayOfRMString::new();
    assert!(a.is_empty());
    for s in ["a", "b", "c"] {
        a.push(s);
    }
    assert_eq!(a.len(), 3);
    assert_eq!(a.as_slice(), &[String::from("a"), String::from("b"), String::from("c")]);
    let mut x = XADDCommand::new("stream");
    x.add_element("f1", "v1");
    x.add_element("f2", "v2");
    let args = x.arguments();
    assert_eq!(args.len(), 6);
    assert_eq!(args.as_slice(), &["stream", "*", "f1", "v1", "f2", "v2"].map(String::from));
}
