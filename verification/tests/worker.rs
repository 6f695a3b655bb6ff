use redisql::commands_v1::{create_db_store_error, v1_request, V1Command, V1Request, V1Work};
use redisql::parser::common::CommandV2;
use redisql::parser::exec::{Exec, ExecRoute};
use redisql::redis::{
    create_db_decision, key_store_outcome, key_type_error_message, query_permission, worker_step,
    BlockedClient, Command, KeyTypes, QueryResult, ReplicationBook, ReturnMethod, WorkerStep,
    REDISMODULE_ERR, REDISMODULE_OK,
};
use redisql::redisql_error::RediSQLError;
use redisql::sqlite::{Cursor, CursorStep, Entity, SQLITE_DONE, SQLITE_ROW};
use std::time::Instant;

fn client(n: usize) -> BlockedClient {
    BlockedClient { client: n }
}

fn book_with(name: &str, handle: u64, read_only: bool) -> ReplicationBook {
    let mut book = ReplicationBook::new();
    assert!(book.insert_new_statement(name, Ok((handle, read_only))).is_ok());
    book
}

fn error_description(step: &WorkerStep) -> String {
    match step {
        WorkerStep::Answer { result: Err(e), .. } => e.description().to_string(),
        _ => panic!("not an error answer"),
    }
}

#[test]
fn worker_stops_on_stop_or_closed_channel() {
    let book = ReplicationBook::new();
    assert!(matches!(worker_step(&book, None), WorkerStep::Stop));
    assert!(matches!(worker_step(&book, Some(Command::Stop)), WorkerStep::Stop));
}

#[test]
fn worker_runs_queries_and_executions() {
    let book = ReplicationBook::new();
    let exec = Command::Exec {
        query: "INSERT INTO t VALUES(1)",
        arguments: vec![],
        timeout: Instant::now(),
        return_method: ReturnMethod::Reply,
        client: client(1),
    };
    match worker_step(&book, Some(exec)) {
        WorkerStep::RunQuery { query, read_only, client, .. } => {
            assert_eq!(query, "INSERT INTO t VALUES(1)");
            assert!(!read_only);
            assert_eq!(client.client, 1);
        }
        _ => panic!("expected a query to run"),
    }
    let query = Command::Query {
        query: "SELECT 1",
        arguments: vec!["a"],
        timeout: Instant::now(),
        return_method: ReturnMethod::Stream { name: "s" },
        client: client(2),
    };
    match worker_step(&book, Some(query)) {
        WorkerStep::RunQuery { query, arguments, read_only, return_method, .. } => {
            assert_eq!(query, "SELECT 1");
            assert_eq!(arguments, vec!["a"]);
            assert!(read_only);
            assert!(matches!(return_method, ReturnMethod::Stream { name: "s" }));
        }
        _ => panic!("expected a query to run"),
    }
}

#[test]
fn worker_compiles_new_statements_and_refuses_taken_names() {
    let book = book_with("taken", 7, true);
    let fresh = Command::CompileStatement {
        identifier: "fresh",
        statement: "SELECT 1",
        can_update: false,
        client: client(3),
    };
    assert!(matches!(
        worker_step(&book, Some(fresh)),
        WorkerStep::Compile { identifier: "fresh", statement: "SELECT 1", replace: false, .. }
    ));
    let taken = Command::CompileStatement {
        identifier: "taken",
        statement: "SELECT 2",
        can_update: false,
        client: client(4),
    };
    let step = worker_step(&book, Some(taken));
    assert_eq!(
        error_description(&step),
        "The statement is already present in the database, try with UPDATE_STATEMENT"
    );
    let replace = Command::CompileStatement {
        identifier: "taken",
        statement: "SELECT 2",
        can_update: true,
        client: client(5),
    };
    assert!(matches!(worker_step(&book, Some(replace)), WorkerStep::Compile { replace: true, .. }));
}

#[test]
fn worker_updates_only_existing_statements_unless_asked_to_create() {
    let book = book_with("s", 1, false);
    let update = Command::UpdateStatement {
        identifier: "s",
        statement: "SELECT 3",
        can_create: false,
        client: client(1),
    };
    assert!(matches!(worker_step(&book, Some(update)), WorkerStep::Compile { replace: true, .. }));
    let missing = Command::UpdateStatement {
        identifier: "nope",
        statement: "SELECT 3",
        can_create: false,
        client: client(1),
    };
    let step = worker_step(&book, Some(missing));
    assert_eq!(
        error_description(&step),
        "The statement is not present in the database, impossible to update it."
    );
    let create = Command::UpdateStatement {
        identifier: "nope",
        statement: "SELECT 3",
        can_create: true,
        client: client(1),
    };
    assert!(matches!(worker_step(&book, Some(create)), WorkerStep::Compile { replace: false, .. }));
}

#[test]
fn worker_deletes_only_existing_statements() {
    let book = book_with("s", 1, false);
    let delete = Command::DeleteStatement { identifier: "s", client: client(1) };
    assert!(matches!(worker_step(&book, Some(delete)), WorkerStep::Remove { identifier: "s", .. }));
    let missing = Command::DeleteStatement { identifier: "x", client: client(1) };
    let step = worker_step(&book, Some(missing));
    assert_eq!(
        error_description(&step),
        "The statement is not present in the database, impossible to delete it."
    );
}

#[test]
fn worker_runs_the_stored_statement() {
    let book = book_with("w", 11, false);
    let exec = Command::ExecStatement {
        identifier: "w",
        arguments: vec!["1", "2"],
        timeout: Instant::now(),
        return_method: ReturnMethod::Reply,
        client: client(9),
    };
    match worker_step(&book, Some(exec)) {
        WorkerStep::RunStatement { handle, arguments, client, .. } => {
            assert_eq!(handle, 11);
            assert_eq!(arguments, vec!["1", "2"]);
            assert_eq!(client.client, 9);
        }
        _ => panic!("expected the statement to run"),
    }
    let query = Command::QueryStatement {
        identifier: "w",
        arguments: vec![],
        timeout: Instant::now(),
        return_method: ReturnMethod::Reply,
        client: client(9),
    };
    let step = worker_step(&book, Some(query));
    assert_eq!(
        error_description(&step),
        "Statement is not read only but it may modify the database, use `EXEC_STATEMENT` instead."
    );
    let unknown = Command::ExecStatement {
        identifier: "zz",
        arguments: vec![],
        timeout: Instant::now(),
        return_method: ReturnMethod::Reply,
        client: client(9),
    };
    let step = worker_step(&book, Some(unknown));
    assert_eq!(error_description(&step), "The statement is not present in the database");
}

#[test]
fn query_needs_a_read_only_statement() {
    assert!(query_permission(&vec![true, true]).is_ok());
    assert!(query_permission(&vec![]).is_ok());
    let e = query_permission(&vec![true, false]).err().unwrap();
    assert_eq!(e.debug_message(), "Not read only statement");
}

#[test]
fn cursor_steps() {
    let ok = Cursor::OKCursor;
    match ok.next_step() {
        CursorStep::Row { row } => {
            assert_eq!(row.len(), 1);
            assert!(matches!(row[0], Entity::OK { to_replicate: true }));
        }
        _ => panic!("expected a row"),
    }
    let done = Cursor::DONECursor { modified_rows: 4 };
    match done.next_step() {
        CursorStep::Row { row } => {
            assert!(matches!(row[0], Entity::DONE { modified_rows: 4, to_replicate: true }));
        }
        _ => panic!("expected a row"),
    }
    let mut rows =
        Cursor::RowsCursor { num_columns: 2, previous_status: SQLITE_ROW, stmt: 77, modified_rows: 0 };
    assert!(matches!(rows.next_step(), CursorStep::ReadRow { stmt: 77, num_columns: 2 }));
    rows.advance(SQLITE_DONE);
    assert!(matches!(rows.next_step(), CursorStep::End));
    let mut ok = Cursor::OKCursor;
    ok.advance(SQLITE_DONE);
    assert!(matches!(ok, Cursor::OKCursor));
}

#[test]
fn cursor_of_several_statements() {
    let c = Cursor::from_iter(vec![]);
    assert!(matches!(c, Cursor::DONECursor { modified_rows: 0 }));
    let c = Cursor::from_iter(vec![Cursor::OKCursor, Cursor::DONECursor { modified_rows: 2 }]);
    assert!(matches!(c, Cursor::DONECursor { modified_rows: 2 }));
    let c = c.with_modified_rows(5);
    assert!(matches!(c, Cursor::DONECursor { modified_rows: 5 }));
    let c = Cursor::OKCursor.with_modified_rows(5);
    assert!(matches!(c, Cursor::OKCursor));
}

fn parse_exec(args: Vec<&'static str>) -> Exec<'static> {
    Exec::parse(args).ok().unwrap()
}

#[test]
fn exec_routes() {
    let e = parse_exec(vec!["EXEC", "db", "COMMAND", "SELECT 1"]);
    assert!(matches!(e.route(), ExecRoute::Worker));
    let e = parse_exec(vec!["EXEC", "db", "COMMAND", "SELECT 1", "NOW"]);
    assert!(matches!(e.route(), ExecRoute::Execute));
    assert!(e.route().replicates_verbatim(true));
    assert!(!e.route().replicates_verbatim(false));
    let e = parse_exec(vec!["EXEC", "db", "COMMAND", "SELECT 1", "NOW", "READ_ONLY"]);
    assert!(matches!(e.route(), ExecRoute::Query));
    assert!(!e.route().replicates_verbatim(true));
    let e = parse_exec(vec!["EXEC", "db", "STATEMENT", "s", "NOW"]);
    assert!(matches!(e.route(), ExecRoute::ExecStatement));
    assert!(!e.route().replicates_verbatim(true));
    let e = parse_exec(vec!["EXEC", "db", "STATEMENT", "s", "NOW", "READ_ONLY"]);
    assert!(matches!(e.route(), ExecRoute::QueryStatement));
}

fn request(c: V1Command, argv: Vec<&'static str>) -> Result<V1Request, String> {
    v1_request(c, &argv)
}

#[test]
fn v1_arguments() {
    assert!(matches!(
        request(V1Command::CreateDB, vec!["CREATE_DB", "k"]),
        Ok(V1Request::CreateDB { key: "k", path: None })
    ));
    assert!(matches!(
        request(V1Command::CreateDB, vec!["CREATE_DB", "k", "/tmp/a.db"]),
        Ok(V1Request::CreateDB { key: "k", path: Some("/tmp/a.db") })
    ));
    assert_eq!(
        request(V1Command::CreateDB, vec!["CREATE_DB"]).err().unwrap(),
        "Wrong number of arguments, it accepts 2 or 3"
    );
    assert!(matches!(
        request(V1Command::Exec, vec!["EXEC", "db", "SELECT 1"]),
        Ok(V1Request::Work { key: "db", work: V1Work::Exec { query: "SELECT 1" } })
    ));
    assert!(request(V1Command::Exec, vec!["EXEC", "db", "q", "x", "y"]).is_ok());
    assert_eq!(
        request(V1Command::Exec, vec!["EXEC", "db"]).err().unwrap(),
        "Wrong number of arguments, it accepts 3, you provide 2"
    );
    assert_eq!(
        request(V1Command::QueryInto, vec!["QUERY.INTO", "s", "db"]).err().unwrap(),
        "Wrong number of arguments, it accepts 4, you provide 3"
    );
    assert!(matches!(
        request(V1Command::QueryInto, vec!["QUERY.INTO", "s", "db", "SELECT 1"]),
        Ok(V1Request::Work { key: "db", work: V1Work::Query { query: "SELECT 1", stream: Some("s") } })
    ));
    assert_eq!(
        request(V1Command::CreateStatement, vec!["C", "db", "s"]).err().unwrap(),
        "Wrong number of arguments, it accepts 4"
    );
    assert_eq!(
        request(V1Command::DeleteStatement, vec!["D", "db"]).err().unwrap(),
        "Wrong number of arguments, it accepts 3"
    );
    match request(V1Command::ExecStatement, vec!["E", "db", "s", "1", "2"]) {
        Ok(V1Request::Work { key, work: V1Work::ExecStatement { identifier, arguments } }) => {
            assert_eq!(key, "db");
            assert_eq!(identifier, "s");
            assert_eq!(arguments, vec!["1", "2"]);
        }
        _ => panic!("expected an execution"),
    }
    assert_eq!(
        request(V1Command::QueryStatement, vec!["Q", "db"]).err().unwrap(),
        "Wrong number of arguments, it needs at least 3"
    );
    match request(V1Command::QueryStatementInto, vec!["Q", "st", "db", "s", "a"]) {
        Ok(V1Request::Work { key, work: V1Work::QueryStatement { identifier, arguments, stream } }) => {
            assert_eq!(key, "db");
            assert_eq!(identifier, "s");
            assert_eq!(arguments, vec!["a"]);
            assert_eq!(stream, Some("st"));
        }
        _ => panic!("expected a query"),
    }
    assert_eq!(
        request(V1Command::QueryStatementInto, vec!["Q", "st", "db"]).err().unwrap(),
        "Wrong number of arguments, it needs at least 4"
    );
    assert!(matches!(
        request(V1Command::MakeCopy, vec!["COPY", "a", "b"]),
        Ok(V1Request::MakeCopy { source: "a", destination: "b" })
    ));
    assert_eq!(
        request(V1Command::MakeCopy, vec!["COPY", "a"]).err().unwrap(),
        "Wrong number of arguments, it accepts exactly 3"
    );
}

#[test]
fn v1_work_commands_and_replication() {
    let w = V1Work::CreateStatement { identifier: "s", statement: "SELECT 1" };
    assert_eq!(w.replicated_as(), Some("REDISQL.CREATE_STATEMENT.NOW"));
    assert!(matches!(
        w.into_command(Instant::now(), client(1)),
        Command::CompileStatement { identifier: "s", statement: "SELECT 1", can_update: false, .. }
    ));
    let w = V1Work::Query { query: "SELECT 1", stream: Some("out") };
    assert_eq!(w.replicated_as(), None);
    match w.into_command(Instant::now(), client(1)) {
        Command::Query { query, arguments, return_method, .. } => {
            assert_eq!(query, "SELECT 1");
            assert!(arguments.is_empty());
            assert!(matches!(return_method, ReturnMethod::Stream { name: "out" }));
        }
        _ => panic!("expected a query"),
    }
    assert_eq!(V1Work::Exec { query: "q" }.replicated_as(), Some("REDISQL.EXEC.NOW"));
    assert_eq!(V1Work::DeleteStatement { identifier: "s" }.replicated_as(), Some("REDISQL.DELETE_STATEMENT.NOW"));
}

#[test]
fn create_db_outcomes() {
    assert!(matches!(create_db_decision(KeyTypes::Empty, false), Ok(true)));
    assert!(matches!(create_db_decision(KeyTypes::RediSQL, true), Ok(false)));
    assert_eq!(create_db_decision(KeyTypes::RediSQL, false).err().unwrap().code(), 4);
    assert_eq!(create_db_decision(KeyTypes::Other, true).err().unwrap().code(), 5);
    assert!(matches!(key_store_outcome(REDISMODULE_OK), Ok(QueryResult::OK { .. })));
    assert_eq!(key_store_outcome(REDISMODULE_ERR).err().unwrap().code(), 7);
    assert_eq!(key_store_outcome(42).err().unwrap().code(), 8);
    assert_eq!(key_type_error_message(0), "ERR - Error the key is empty");
    assert_eq!(
        key_type_error_message(3),
        "WRONGTYPE Operation against a key holding the wrong kind of value"
    );
    assert_eq!(create_db_store_error(REDISMODULE_OK), None);
    assert_eq!(
        create_db_store_error(REDISMODULE_ERR),
        Some("ERR - Error in saving the database inside Redis")
    );
    assert_eq!(create_db_store_error(9), Some("ERR - Error unknow"));
}

#[test]
fn restored_book_answers() {
    let mut book = ReplicationBook::new();
    let r: Result<QueryResult, RediSQLError> = book.compile_and_insert_statement("r", Ok((3, true)));
    assert!(r.is_ok());
    assert_eq!(book.exec_statement("r").ok(), Some(3));
    assert_eq!(book.query_statement("r").ok(), Some(3));
}

use redisql::commands_v1::{answer_event, record_v1_event, v1_counter_of, v1_replication, V1Event, V1Replication};
use redisql::statistics::Statistics;

fn counter(stats: &Statistics, label: &str) -> usize {
    stats.values().data.iter().find(|(l, _)| *l == label).unwrap().1
}

#[test]
fn v1_events_raise_their_counters() {
    let mut s = Statistics::new();
    record_v1_event(&mut s, V1Command::ExecStatement, V1Event::Received);
    record_v1_event(&mut s, V1Command::ExecStatement, V1Event::Sent);
    assert_eq!(counter(&s, "EXEC_STATEMENT"), 1);
    assert_eq!(counter(&s, "EXEC_STATEMENT OK"), 0);
    let answer: Result<u8, u8> = Ok(1);
    record_v1_event(&mut s, V1Command::ExecStatement, answer_event(&answer));
    assert_eq!(counter(&s, "EXEC_STATEMENT OK"), 1);
    assert_eq!(counter(&s, "EXEC_STATEMENT ERR"), 0);
    let failed: Result<u8, u8> = Err(1);
    record_v1_event(&mut s, V1Command::Query, V1Event::Received);
    record_v1_event(&mut s, V1Command::Query, answer_event(&failed));
    assert_eq!(counter(&s, "QUERY ERR"), 1);
    record_v1_event(&mut s, V1Command::QueryStatementInto, V1Event::NoDatabase);
    assert_eq!(counter(&s, "QUERY_STATEMENT.INTO ERR"), 1);
    assert_eq!(counter(&s, "EXEC ERR"), 0);
    record_v1_event(&mut s, V1Command::MakeCopy, V1Event::SendFailed);
    assert_eq!(counter(&s, "COPY ERR"), 1);
    record_v1_event(&mut s, V1Command::CreateDB, V1Event::Stored);
    assert_eq!(counter(&s, "CREATE_DB OK"), 1);
    record_v1_event(&mut s, V1Command::CreateDB, V1Event::SetupFailed);
    assert_eq!(counter(&s, "CREATE_DB ERR"), 1);
    assert_eq!(v1_counter_of(V1Command::Query, V1Event::Sent), None);
    assert_eq!(v1_counter_of(V1Command::Exec, V1Event::Sent), None);
    let total: usize = s.values().data.iter().map(|(_, v)| *v).sum();
    assert_eq!(total, 8);
}

#[test]
fn v1_replication_follows_success() {
    let work = V1Request::Work { key: "db", work: V1Work::DeleteStatement { identifier: "s" } };
    assert!(matches!(
        v1_replication(&work, V1Event::Sent),
        V1Replication::As { name: "REDISQL.DELETE_STATEMENT.NOW" }
    ));
    assert!(matches!(v1_replication(&work, V1Event::SendFailed), V1Replication::Nothing));
    let query = V1Request::Work { key: "db", work: V1Work::Query { query: "q", stream: None } };
    assert!(matches!(v1_replication(&query, V1Event::Sent), V1Replication::Nothing));
    let copy = V1Request::MakeCopy { source: "a", destination: "b" };
    assert!(matches!(v1_replication(&copy, V1Event::Sent), V1Replication::As { name: "REDISQL.COPY.NOW" }));
    let create = V1Request::CreateDB { key: "k", path: None };
    assert!(matches!(v1_replication(&create, V1Event::Stored), V1Replication::Verbatim));
    assert!(matches!(v1_replication(&create, V1Event::NotStored), V1Replication::Nothing));
}

#[test]
fn statistics_bump_by_index() {
    let mut s = Statistics::new();
    s.bump_counter(32);
    s.bump_counter(0);
    assert_eq!(counter(&s, "COPY ERR"), 1);
    assert_eq!(counter(&s, "CREATE_DB"), 1);
    assert_eq!(s.values().data.len(), 33);
}
