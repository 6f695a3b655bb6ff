use redisql::redis::{
    error_reply, query_result_reply, result_rows_have_three_columns, QueryResult, Reply,
};
use redisql::redisql_error::RediSQLError;
use redisql::sqlite::{
    all_read_only, changed_rows, count_parameters, max_parameters_count, parameters_from_indices, Cursor, Entity,
    Parameters, SQLITE_DONE, SQLITE_OK, SQLITE_ROW,
};

#[test]
fn ok_and_done_replies() {
    assert!(matches!(
        query_result_reply(&QueryResult::OK { to_replicate: false }),
        Reply::Simple { text: "OK" }
    ));
    match query_result_reply(&QueryResult::DONE { modified_rows: 3, to_replicate: true }) {
        Reply::Array { elements } => {
            assert_eq!(elements.len(), 2);
            assert!(matches!(elements[0], Reply::Simple { text: "DONE" }));
            assert!(matches!(elements[1], Reply::Integer { value: 3 }));
        }
        _ => panic!("expected an array"),
    }
}

#[test]
fn rows_reply() {
    let rows = vec![
        vec![
            Entity::Integer { int: 7 },
            Entity::Text { text: String::from("a") },
            Entity::Null,
            Entity::Float { bits: 1.5f64.to_bits() },
        ],
        vec![Entity::Blob { blob: String::from("b") }],
    ];
    match query_result_reply(&QueryResult::Array { array: rows, to_replicate: false }) {
        Reply::Array { elements } => {
            assert_eq!(elements.len(), 2);
            match &elements[0] {
                Reply::Array { elements: row } => {
                    assert_eq!(row.len(), 4);
                    assert!(matches!(row[0], Reply::Integer { value: 7 }));
                    assert!(matches!(&row[1], Reply::Bulk { text } if text == "a"));
                    assert!(matches!(row[2], Reply::Null));
                    assert!(matches!(row[3], Reply::Double { bits } if f64::from_bits(bits) == 1.5));
                }
                _ => panic!("expected a row"),
            }
            assert!(matches!(&elements[1], Reply::Array { elements: row } if matches!(&row[0], Reply::Bulk { text } if text == "b")));
        }
        _ => panic!("expected an array"),
    }
}

#[test]
fn error_reply_is_the_description() {
    let e = RediSQLError::new(String::from("dbg"), String::from("what went wrong"));
    assert!(matches!(error_reply(&e), Reply::Error { message } if message == "what went wrong"));
}

#[test]
fn metadata_rows_shape() {
    let ok = QueryResult::Array {
        array: vec![vec![Entity::Null, Entity::Null, Entity::Null]],
        to_replicate: false,
    };
    assert!(result_rows_have_three_columns(&ok));
    let short = QueryResult::Array { array: vec![vec![Entity::Null]], to_replicate: false };
    assert!(!result_rows_have_three_columns(&short));
    assert!(result_rows_have_three_columns(&QueryResult::OK { to_replicate: false }));
}

#[test]
fn unnamed_parameter_slots_are_left_out() {
    let p = parameters_from_indices(&vec![0, 2, 0, 1]);
    assert_eq!(p.len(), 2);
    assert!(matches!(p[0], Parameters::Named { index: 2 }));
    assert!(matches!(p[1], Parameters::Named { index: 1 }));
    assert!(parameters_from_indices(&vec![0, 0]).is_empty());
}

#[test]
fn multi_statement_summaries() {
    assert!(all_read_only(&vec![true, true]));
    assert!(!all_read_only(&vec![true, false]));
    assert!(all_read_only(&vec![]));
    assert_eq!(max_parameters_count(&vec![1, 4, 2]), 4);
    assert_eq!(max_parameters_count(&vec![]), 0);
    assert_eq!(changed_rows(10, 13), 3);
}

#[test]
fn first_step_cursors() {
    assert!(matches!(Cursor::after_first_step(SQLITE_OK, 9, 1, 2), Some(Cursor::OKCursor)));
    assert!(matches!(
        Cursor::after_first_step(SQLITE_DONE, 9, 1, 2),
        Some(Cursor::DONECursor { modified_rows: 9 })
    ));
    assert!(matches!(
        Cursor::after_first_step(SQLITE_ROW, 9, 1, 2),
        Some(Cursor::RowsCursor { num_columns: 2, previous_status: SQLITE_ROW, stmt: 1, modified_rows: 0 })
    ));
    assert!(Cursor::after_first_step(1, 9, 1, 2).is_none());
}

#[test]
fn parameters_from_slots_are_always_counted() {
    let first = parameters_from_indices(&vec![1, 0, 2]);
    let second = parameters_from_indices(&vec![0, 3]);
    let (n, _) = count_parameters(vec![first, second]).ok().unwrap();
    assert_eq!(n, 3);
}

use redisql::sqlite::{BackupRun, MultiRun, SQLite3Error, SQLITE_BUSY, SQLITE_LOCKED};

#[test]
fn backup_steps_until_a_final_result() {
    let mut b = BackupRun::new();
    assert!(b.after_step(SQLITE_OK));
    assert!(b.after_step(SQLITE_BUSY));
    assert!(b.after_step(SQLITE_LOCKED));
    assert_eq!(b.result(), None);
    assert!(!b.after_step(SQLITE_DONE));
    assert_eq!(b.result(), Some(SQLITE_DONE));
}

#[test]
fn multi_statement_stops_at_the_first_error() {
    let mut m = MultiRun::new();
    assert!(m.after_statement(Ok(Cursor::OKCursor)));
    assert!(m.after_statement(Ok(Cursor::DONECursor { modified_rows: 1 })));
    assert!(matches!(m.finish(4), Ok(Cursor::DONECursor { modified_rows: 4 })));
    let mut m = MultiRun::new();
    assert!(m.after_statement(Ok(Cursor::OKCursor)));
    let err = SQLite3Error { code: 1, error_message: String::from("m"), error_string: String::from("s") };
    assert!(!m.after_statement(Err(err)));
    assert!(matches!(m.finish(0), Err(SQLite3Error { code: 1, .. })));
    assert!(matches!(MultiRun::new().finish(2), Ok(Cursor::DONECursor { modified_rows: 2 })));
}
