use redisql::parser::common::CommandV2;
use redisql::parser::create_db::CreateDB;
use redisql::parser::exec::{Exec, ToExecute};
use redisql::parser::statement::{Action, Statement};
use redisql::redis::{BlockedClient, Command, ReturnMethod};

#[test]
fn simple_tag() {
    assert!(true);
}

#[test]
fn create_db_defaults() {
    let c = CreateDB::parse(vec!["REDISQL.CREATE_DB", "db"]).unwrap();
    assert_eq!(c.database(), "db");
    assert_eq!(c.path, None);
    assert!(c.can_exists);
}

#[test]
fn create_db_with_path_and_flags() {
    let c = CreateDB::parse(vec!["REDISQL.CREATE_DB", "db", "path", "/tmp/x.sqlite", "must_create"]).unwrap();
    assert_eq!(c.path, Some("/tmp/x.sqlite"));
    assert!(!c.can_exists);
    let c = CreateDB::parse(vec!["REDISQL.CREATE_DB", "db", "CAN_EXIST", "whatever"]).unwrap();
    assert!(c.can_exists);
}

#[test]
fn create_db_errors() {
    let e = CreateDB::parse(vec!["REDISQL.CREATE_DB"]).err().unwrap();
    assert_eq!(e.code(), 1);
    assert_eq!(e.description(), "No database name provide");
    let e = CreateDB::parse(vec!["REDISQL.CREATE_DB", "db", "PATH"]).err().unwrap();
    assert_eq!(e.code(), 2);
    assert_eq!(e.debug_message(), "Provide PATH option but no PATH to use");
    let e = CreateDB::parse(vec!["REDISQL.CREATE_DB", "db", "CAN_EXIST", "MUST_CREATE"]).err().unwrap();
    assert_eq!(e.code(), 3);
}

#[test]
fn exec_command_with_args() {
    let e = Exec::parse(vec!["REDISQL.EXEC", "db", "command", "SELECT ?1", "ARGS", "a", "b"]).unwrap();
    assert_eq!(e.database(), "db");
    assert!(!e.is_read_only());
    assert!(!e.is_now());
    assert_eq!(e.get_query(), Some("SELECT ?1"));
    match e.get_to_execute() {
        ToExecute::Command { query, args } => {
            assert_eq!(*query, "SELECT ?1");
            assert_eq!(args, &vec!["a", "b"]);
        }
        ToExecute::Statement { .. } => panic!("expected a command"),
    }
    assert!(matches!(e.get_return_method(), ReturnMethod::ReplyWithHeader));
}

#[test]
fn exec_statement_read_only_into_stream() {
    let e = Exec::parse(vec!["REDISQL.EXEC", "db", "STATEMENT", "s", "READ_ONLY", "INTO", "st", "NOW"]).unwrap();
    assert!(e.is_read_only());
    assert!(e.is_now());
    assert_eq!(e.get_query(), None);
    match e.get_return_method() {
        ReturnMethod::Stream { name } => assert_eq!(name, "st"),
        _ => panic!("expected a stream"),
    }
}

#[test]
fn exec_no_header_replies_plain() {
    let e = Exec::parse(vec!["REDISQL.EXEC", "db", "COMMAND", "q", "NO_HEADER"]).unwrap();
    assert!(matches!(e.get_return_method(), ReturnMethod::Reply));
}

#[test]
fn exec_errors() {
    let code = |args: Vec<&'static str>| Exec::parse(args).err().unwrap().code();
    assert_eq!(code(vec!["REDISQL.EXEC"]), 1);
    assert_eq!(code(vec!["REDISQL.EXEC", "db", "COMMAND", "a", "STATEMENT", "b"]), 12);
    assert_eq!(code(vec!["REDISQL.EXEC", "db", "STATEMENT", "a", "COMMAND", "b"]), 12);
    assert_eq!(code(vec!["REDISQL.EXEC", "db", "COMMAND", "a", "COMMAND", "b"]), 13);
    assert_eq!(code(vec!["REDISQL.EXEC", "db", "STATEMENT", "a", "STATEMENT", "b"]), 14);
    assert_eq!(code(vec!["REDISQL.EXEC", "db", "COMMAND"]), 9);
    assert_eq!(code(vec!["REDISQL.EXEC", "db", "STATEMENT"]), 10);
    assert_eq!(code(vec!["REDISQL.EXEC", "db", "COMMAND", "q", "INTO"]), 11);
    assert_eq!(code(vec!["REDISQL.EXEC", "db", "ARGS", "a"]), 24);
    assert_eq!(code(vec!["REDISQL.EXEC", "db", "NOW"]), 24);
    assert_eq!(code(vec!["REDISQL.EXEC", "db", "COMMAND", "q", "READ_ONLY", "INTO", "s", "NO_HEADER"]), 16);
    assert_eq!(code(vec!["REDISQL.EXEC", "db", "COMMAND", "q", "INTO", "s"]), 17);
}

#[test]
fn exec_args_swallow_keywords() {
    let e = Exec::parse(vec!["REDISQL.EXEC", "db", "COMMAND", "q", "ARGS", "NOW", "READ_ONLY"]).unwrap();
    assert!(!e.is_now());
    assert!(!e.is_read_only());
    match e.get_to_execute() {
        ToExecute::Command { args, .. } => assert_eq!(args, &vec!["NOW", "READ_ONLY"]),
        _ => panic!(),
    }
}

#[test]
fn exec_replicate_args() {
    let e = Exec::parse(vec!["REDISQL.EXEC", "db", "COMMAND", "INSERT ?1", "ARGS", "x"]).unwrap();
    assert_eq!(e.replicate_args(), Some(vec!["db", "NOW", "COMMAND", "INSERT ?1", "ARGS", "x"]));
    let e = Exec::parse(vec!["REDISQL.EXEC", "db", "STATEMENT", "s"]).unwrap();
    assert_eq!(e.replicate_args(), Some(vec!["db", "NOW", "STATEMENT", "s"]));
    let e = Exec::parse(vec!["REDISQL.EXEC", "db", "STATEMENT", "s", "NOW"]).unwrap();
    assert_eq!(e.replicate_args(), None);
    let mut e = Exec::parse(vec!["REDISQL.EXEC", "db", "COMMAND", "q"]).unwrap();
    e.make_into_query();
    assert!(e.is_read_only());
    assert_eq!(e.replicate_args(), None);
}

#[test]
fn exec_get_command() {
    let t = std::time::Instant::now();
    let e = Exec::parse(vec!["REDISQL.EXEC", "db", "COMMAND", "q", "READ_ONLY"]).unwrap();
    match e.get_command(t, BlockedClient { client: 7 }) {
        Command::Query { query, arguments, client, return_method, .. } => {
            assert_eq!(query, "q");
            assert!(arguments.is_empty());
            assert_eq!(client.as_ptr(), 7);
            assert!(matches!(return_method, ReturnMethod::ReplyWithHeader));
        }
        _ => panic!("expected a query"),
    }
    let e = Exec::parse(vec!["REDISQL.EXEC", "db", "STATEMENT", "s", "ARGS", "1"]).unwrap();
    match e.get_command(t, BlockedClient { client: 1 }) {
        Command::ExecStatement { identifier, arguments, .. } => {
            assert_eq!(identifier, "s");
            assert_eq!(arguments, vec!["1"]);
        }
        _ => panic!("expected a statement execution"),
    }
    let e = Exec::parse(vec!["REDISQL.EXEC", "db", "COMMAND", "q"]).unwrap();
    assert!(matches!(e.get_command(t, BlockedClient { client: 1 }), Command::Exec { .. }));
    let e = Exec::parse(vec!["REDISQL.EXEC", "db", "STATEMENT", "s", "READ_ONLY"]).unwrap();
    assert!(matches!(e.get_command(t, BlockedClient { client: 1 }), Command::QueryStatement { .. }));
}

#[test]
fn statement_new_and_update() {
    let s = Statement::parse(vec!["REDISQL.STATEMENT", "db", "new", "ins", "INSERT ?1", "can_update", "NOW"]).unwrap();
    assert_eq!(s.database(), "db");
    assert_eq!(s.get_action(), Action::New);
    assert_eq!(s.identifier(), "ins");
    assert_eq!(s.statement(), "INSERT ?1");
    assert!(s.can_update());
    assert!(!s.can_create());
    assert!(s.is_now());
    match s.get_command(BlockedClient { client: 3 }) {
        Command::CompileStatement { identifier, statement, can_update, .. } => {
            assert_eq!(identifier, "ins");
            assert_eq!(statement, "INSERT ?1");
            assert!(can_update);
        }
        _ => panic!(),
    }
    let s = Statement::parse(vec!["REDISQL.STATEMENT", "db", "UPDATE", "ins", "q", "CAN_CREATE"]).unwrap();
    assert!(matches!(s.get_command(BlockedClient { client: 3 }), Command::UpdateStatement { can_create: true, .. }));
}

#[test]
fn statement_other_actions() {
    let s = Statement::parse(vec!["REDISQL.STATEMENT", "db", "LIST"]).unwrap();
    assert_eq!(s.get_action(), Action::List);
    assert!(matches!(s.get_command(BlockedClient { client: 0 }), Command::ListStatements { .. }));
    let s = Statement::parse(vec!["REDISQL.STATEMENT", "db", "SHOW", "x"]).unwrap();
    assert!(matches!(s.get_command(BlockedClient { client: 0 }), Command::ShowStatement { identifier: "x", .. }));
    let s = Statement::parse(vec!["REDISQL.STATEMENT", "db", "DELETE", "x"]).unwrap();
    assert!(matches!(s.get_command(BlockedClient { client: 0 }), Command::DeleteStatement { identifier: "x", .. }));
}

#[test]
fn statement_errors() {
    let code = |args: Vec<&'static str>| Statement::parse(args).err().unwrap().code();
    assert_eq!(code(vec!["REDISQL.STATEMENT"]), 1);
    assert_eq!(code(vec!["REDISQL.STATEMENT", "db"]), 18);
    assert_eq!(code(vec!["REDISQL.STATEMENT", "db", "RUN"]), 23);
    assert_eq!(code(vec!["REDISQL.STATEMENT", "db", "DELETE"]), 19);
    assert_eq!(code(vec!["REDISQL.STATEMENT", "db", "NEW", "x"]), 20);
    assert_eq!(code(vec!["REDISQL.STATEMENT", "db", "UPDATE", "x", "q", "CAN_UPDATE"]), 21);
    assert_eq!(code(vec!["REDISQL.STATEMENT", "db", "NEW", "x", "q", "CAN_CREATE"]), 22);
    assert_eq!(code(vec!["REDISQL.STATEMENT", "db", "SHOW", "x", "CAN_CREATE"]), 22);
}

#[test]
fn replicated_exec_parses_back_to_the_same_command() {
    let e = Exec::parse(vec!["REDISQL.EXEC", "db", "no_header", "COMMAND", "INSERT ?1", "ARGS", "x", "y"]).unwrap();
    let mut again: Vec<&'static str> = vec!["REDISQL.EXEC"];
    again.extend(e.replicate_args().unwrap());
    let r = Exec::parse(again).unwrap();
    assert_eq!(r.database(), "db");
    assert!(r.is_now());
    assert!(!r.is_read_only());
    assert!(matches!(r.get_return_method(), ReturnMethod::ReplyWithHeader));
    match r.get_to_execute() {
        ToExecute::Command { query, args } => {
            assert_eq!(*query, "INSERT ?1");
            assert_eq!(*args, vec!["x", "y"]);
        }
        _ => panic!("expected a query"),
    }
    assert_eq!(r.replicate_args(), None);
}

#[test]
fn create_db_path_in_place_and_can_exists() {
    let c = CreateDB::parse(vec!["REDISQL.CREATE_DB", "DB", "/tmp/db.sqlite"]).unwrap();
    assert_eq!(c.database(), "DB");
    assert_eq!(c.path, Some("/tmp/db.sqlite"));
    assert!(c.can_exists);
    let c = CreateDB::parse(vec!["REDISQL.CREATE_DB", "DB", "/tmp/db.sqlite", "MUST_CREATE"]).unwrap();
    assert_eq!(c.path, Some("/tmp/db.sqlite"));
    assert!(!c.can_exists);
    let c = CreateDB::parse(vec!["REDISQL.CREATE_DB", "DB", "can_exists"]).unwrap();
    assert_eq!(c.path, None);
    assert!(c.can_exists);
    let e = CreateDB::parse(vec!["REDISQL.CREATE_DB", "DB", "CAN_EXISTS", "MUST_CREATE"]).err().unwrap();
    assert_eq!(e.code(), 3);
}
