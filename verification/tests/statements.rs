use redisql::redis::{statements_to_restore, QueryResult, RedisError, ReplicationBook};
use redisql::redisql_error::RediSQLError;
use redisql::sqlite::{
    backup_complete_with_done, backup_should_step_again, backup_step_is_ok, backup_step_should_retry,
    bind_values, check_number_of_parameters, count_parameters, get_entity_type, Entity, EntityType, Parameters,
    SQLite3Error,
};

fn err(msg: &str) -> RediSQLError {
    RediSQLError::new(String::from("debug"), String::from(msg))
}

#[test]
fn community_statement_count_inside_nested_vector() {
    let nested_vector = vec![vec![1, 2, 3], vec![4, 5, 6, 6], vec![1, 1, 0]];
    let ten: i32 = nested_vector.iter().map(|v| v.len() as i32).sum();
    assert!(ten == 10);
}

#[test]
fn parameters_standard_are_counted() {
    let p = vec![vec![], vec![Parameters::Named { index: 1 }, Parameters::Named { index: 2 }, Parameters::Named { index: 3 }]];
    let (n, _) = count_parameters(p).ok().unwrap();
    assert_eq!(n, 3);
}

#[test]
fn parameters_with_gaps_count_distinct_indices() {
    let p = vec![vec![Parameters::Named { index: 1 }, Parameters::Named { index: 3 }, Parameters::Named { index: 10 }]];
    assert_eq!(count_parameters(p).ok().unwrap().0, 3);
    let p = vec![
        vec![],
        vec![Parameters::Named { index: 1 }, Parameters::Named { index: 2 }, Parameters::Named { index: 3 }],
        vec![Parameters::Named { index: 2 }, Parameters::Named { index: 4 }, Parameters::Named { index: 5 }],
        vec![],
    ];
    assert_eq!(count_parameters(p).ok().unwrap().0, 5);
}

#[test]
fn no_parameters_count_zero() {
    let (n, rest) = count_parameters(vec![vec![], vec![]]).ok().unwrap();
    assert_eq!(n, 0);
    assert!(rest.is_empty());
}

#[test]
fn anonymous_or_mixed_parameters_are_refused() {
    let e = count_parameters(vec![vec![Parameters::Anonymous]]).err().unwrap();
    assert_eq!(e.code, 1021);
    assert_eq!(e.error_string, "Use of invalid parameters");
    let e = count_parameters(vec![vec![Parameters::Named { index: 1 }], vec![Parameters::Anonymous]]).err().unwrap();
    assert_eq!(e.code, 1021);
}

#[test]
fn binding_checks_the_number_of_values() {
    let named = |i: i32| Parameters::Named { index: i };
    let p = vec![vec![named(1), named(2), named(3)]];
    assert!(check_number_of_parameters(3, &p).is_ok());
    let e = check_number_of_parameters(2, &p).err().unwrap();
    assert_eq!(e.code, 2021);
    assert_eq!(e.error_string, "Wrong number of parameters, expected 3, provided 2");
    assert!(e.error_message.starts_with("RediSQL MISUSE"));
}

#[test]
fn gapped_parameters_take_the_value_at_their_index() {
    let named = |i: i32| Parameters::Named { index: i };
    let p = vec![vec![named(1), named(123), named(564)]];
    let owned: Vec<String> = (1..=564).map(|i| i.to_string()).collect();
    let values: Vec<&str> = owned.iter().map(|s| s.as_str()).collect();
    assert!(check_number_of_parameters(564, &p).is_ok());
    let b = bind_values(&values, &p).ok().unwrap();
    assert_eq!(b.len(), 564);
    assert_eq!(b[0], (1, "1"));
    assert_eq!(b[122], (123, "123"));
    assert_eq!(b[563], (564, "564"));
    let e = bind_values(&values[..3].to_vec(), &p).err().unwrap();
    assert_eq!(e.error_string, "Wrong number of parameters, expected 564, provided 3");
    assert!(check_number_of_parameters(0, &vec![vec![]]).is_ok());
}

#[test]
fn sqlite_error_text() {
    let e = SQLite3Error { code: -12, error_message: String::from("msg"), error_string: String::from("str") };
    assert_eq!(e.to_display_string(), "ERR - Error Code: -12 => str | msg");
    let r = RediSQLError::from_sqlite3_error(e);
    assert_eq!(r.code(), 0);
    assert_eq!(r.debug_message(), "ERR - Error Code: -12 => str | msg");
    assert_eq!(r.description(), "msg");
    let r = RediSQLError::from_redis_error(RedisError { msg: String::from("boom") });
    assert_eq!(r.debug_message(), "ERR - boom");
    assert_eq!(r.description(), "boom");
}

#[test]
fn backup_decisions() {
    assert!(backup_step_is_ok(0));
    assert!(!backup_step_is_ok(5));
    assert!(backup_step_should_retry(5));
    assert!(backup_step_should_retry(6));
    assert!(!backup_step_should_retry(101));
    assert!(backup_should_step_again(0));
    assert!(backup_should_step_again(6));
    assert!(!backup_should_step_again(101));
    assert!(backup_complete_with_done(101));
    assert!(!backup_complete_with_done(0));
}

#[test]
fn entity_types() {
    assert!(matches!(get_entity_type(1), EntityType::Integer));
    assert!(matches!(get_entity_type(2), EntityType::Float));
    assert!(matches!(get_entity_type(3), EntityType::Text));
    assert!(matches!(get_entity_type(4), EntityType::Blob));
    assert!(matches!(get_entity_type(5), EntityType::Null));
    assert!(matches!(get_entity_type(42), EntityType::Null));
}

#[test]
fn book_create_exec_query() {
    let mut b = ReplicationBook::new();
    assert!(!b.is_statement_present("s"));
    assert!(b.insert_new_statement("s", Ok((10, true))).is_ok());
    assert!(b.is_statement_present("s"));
    assert_eq!(b.exec_statement("s").ok(), Some(10));
    assert_eq!(b.query_statement("s").ok(), Some(10));
    let e = b.insert_new_statement("s", Ok((11, true))).err().unwrap();
    assert_eq!(e.debug_message(), "Statement already present");
    assert_eq!(b.exec_statement("s").ok(), Some(10));
}

#[test]
fn book_query_refuses_writing_statement() {
    let mut b = ReplicationBook::new();
    b.insert_new_statement("w", Ok((1, false))).ok().unwrap();
    let e = b.query_statement("w").err().unwrap();
    assert_eq!(e.debug_message(), "Not read only statement");
    assert_eq!(b.exec_statement("w").ok(), Some(1));
    let e = b.exec_statement("missing").err().unwrap();
    assert_eq!(e.debug_message(), "No statement found");
}

#[test]
fn book_update_and_delete() {
    let mut b = ReplicationBook::new();
    let e = b.update_statement("s", Ok((2, true))).err().unwrap();
    assert_eq!(e.description(), "The statement is not present in the database, impossible to update it.");
    let e = b.delete_statement("s", Ok(())).err().unwrap();
    assert_eq!(e.description(), "The statement is not present in the database, impossible to delete it.");
    b.insert_new_statement("s", Ok((1, true))).ok().unwrap();
    b.update_statement("s", Ok((2, false))).ok().unwrap();
    assert_eq!(b.exec_statement("s").ok(), Some(2));
    assert!(b.delete_statement("s", Err(err("metadata"))).is_err());
    assert!(b.is_statement_present("s"));
    assert!(b.delete_statement("s", Ok(())).is_ok());
    assert!(!b.is_statement_present("s"));
}

#[test]
fn book_failed_compilation_stores_nothing() {
    let mut b = ReplicationBook::new();
    let e = b.insert_new_statement("s", Err(err("bad sql"))).err().unwrap();
    assert_eq!(e.description(), "bad sql");
    assert!(!b.is_statement_present("s"));
}

#[test]
fn book_restore() {
    let mut b = ReplicationBook::new();
    b.compile_and_insert_statement("r", Ok((5, false))).ok().unwrap();
    assert_eq!(b.exec_statement("r").ok(), Some(5));
    assert!(b.query_statement("r").is_err());
    b.compile_and_insert_statement("q", Ok((8, true))).ok().unwrap();
    assert_eq!(b.query_statement("q").ok(), Some(8));
    let e = b.compile_and_insert_statement("r", Ok((6, true))).err().unwrap();
    assert_eq!(e.debug_message(), "ERR - Statement already exists, impossible to overwrite it with this command, try with UPDATE_STATEMENT");
}

#[test]
fn restore_reads_text_rows() {
    let rows = vec![
        vec![Entity::Text { text: "statement".into() }, Entity::Text { text: "a".into() }, Entity::Text { text: "SELECT 1".into() }],
        vec![Entity::Text { text: "statement".into() }, Entity::Null, Entity::Text { text: "x".into() }],
        vec![Entity::Null, Entity::Text { text: "b".into() }, Entity::Text { text: "SELECT 2".into() }],
    ];
    let r = statements_to_restore(&QueryResult::Array { array: rows, to_replicate: false });
    assert_eq!(r, vec![("a".to_string(), "SELECT 1".to_string()), ("b".to_string(), "SELECT 2".to_string())]);
    assert!(statements_to_restore(&QueryResult::OK { to_replicate: true }).is_empty());
    assert!(!QueryResult::OK { to_replicate: true }.to_replicate());
}
