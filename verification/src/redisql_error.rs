//! The error returned to RediSQL users: a numeric code, a message for
//! debugging and a description. The codes of the command parsers are
//! listed in `error_text`.
use vstd::prelude::*;

use crate::redis::RedisError;
use crate::sqlite::{sqlite3_error_text, SQLite3Error};

verus! {

#[derive(Debug)]
pub struct RediSQLError {
    code: u32,
    debug: String,
    error_description: String,
}

impl View for RediSQLError {
    /// (code, debug message, description)
    type V = (u32, Seq<char>, Seq<char>);

    closed spec fn view(&self) -> (u32, Seq<char>, Seq<char>) {
        (self.code, self.debug@, self.error_description@)
    }
}

/// The two messages (debug, description) that go with each numbered error.
pub open spec fn error_text(code: u32) -> (Seq<char>, Seq<char>) {
    if code == 1 {
        ("You didn't provide a database name"@, "No database name provide"@)
    } else if code == 2 {
        ("Provide PATH option but no PATH to use"@, "No PATH provided"@)
    } else if code == 3 {
        (
            "Provide both CAN_EXISTS and MUST_CREATE flags, they can't work together"@,
            "Provide both CAN_EXISTS and MUST_CREATE"@,
        )
    } else if code == 4 {
        (
            "Database already exists"@,
            "A database with the same name already exists but you explicitely asked to create one (using the MUST_CREATE flag)."@,
        )
    } else if code == 5 {
        (
            "You are trying to work with a key that does not contains RediSQL data, but contains other data"@,
            "Key does not belong to us"@,
        )
    } else if code == 6 {
        (
            "Error in opening database connection"@,
            "It was impossible to open a new database connection, maybe we are running out of space, memory, or you request to open a file that we cannot write."@,
        )
    } else if code == 7 {
        ("Error in storing the key into redis"@, "Error in storing the key into redis"@)
    } else if code == 8 {
        (
            "Unknow error in saving the key into redis"@,
            "Unknow error in saving the key into redis"@,
        )
    } else if code == 9 {
        (
            "Provided the COMMAND keyword but not the query to execute"@,
            "No query provided"@,
        )
    } else if code == 10 {
        (
            "Provided the STATEMENT keyword but not the statement to execute"@,
            "No statement provided"@,
        )
    } else if code == 11 {
        (
            "Provided the INTO keyword without providing which stream we should use"@,
            "No stream provided"@,
        )
    } else if code == 12 {
        (
            "The EXEC runs either a QUERY `OR` a STATEMENT, but you try to provide one STATEMENT `AND` one QUERY to run"@,
            "Provided both STATEMENT and QUERY keywords"@,
        )
    } else if code == 13 {
        ("Impossible to know which query should be executed"@, "Provided COMMAND twice"@)
    } else if code == 14 {
        ("Impossible to know which statement should be executed"@, "Provided STATEMENT twice"@)
    } else if code == 15 {
        (
            "You are trying to work with a key that is empty, run REDISQL.CREATE_DB first"@,
            "Key does not exists"@,
        )
    } else if code == 16 {
        (
            "Asked a STREAM without the header"@,
            "The header is part of the stream, does not make sense to provide a stream without header"@,
        )
    } else if code == 17 {
        (
            "STREAM for not READ_ONLY query not supported"@,
            "Asked a STREAM, but the query is not `READ_ONLY` (flag not set), this is not supported."@,
        )
    } else if code == 18 {
        (
            "The statement command needs an action, either: DELETE, UPDATE, NEW or SHOW"@,
            "Statement command without command"@,
        )
    } else if code == 19 {
        (
            "You should provide the name of the statement to operate with"@,
            "Statement command with statement name"@,
        )
    } else if code == 20 {
        (
            "Statement actions requires a query to be provided in input"@,
            "No query provided for the statement"@,
        )
    } else if code == 21 {
        (
            "Flag `CAN_UPDATE` is supported only by STAMENTE NEW action"@,
            "Unexpected flag `CAN_UPDATE`"@,
        )
    } else if code == 22 {
        (
            "Flag `CAN_CREATE` is supported only by STATEMEN UPDATE action"@,
            "Unexpected flag `CAN_CREATE`"@,
        )
    } else if code == 23 {
        (
            "You provide a command for the statement that is not supported"@,
            "Statement command unknow"@,
        )
    } else {
        (
            "You didn't provide neither `COMMAND` nor `STATEMENT` fields"@,
            "Command incomplete, no `COMMAND` nor `STATEMENT` fields"@,
        )
    }
}

/// The view of the numbered error `code`.
pub open spec fn coded(code: u32) -> (u32, Seq<char>, Seq<char>) {
    (code, error_text(code).0, error_text(code).1)
}

/// The codes that `error_text` describes.
pub open spec fn is_known_code(code: u32) -> bool {
    1 <= code <= 24
}

impl RediSQLError {
    pub fn new(debug: String, error_description: String) -> (e: Self)
        ensures
            e@ == (0u32, debug@, error_description@),
    {
        RediSQLError { code: 0, debug, error_description }
    }

    pub fn timeout() -> (e: Self)
        ensures
            e@ == (
                0u32,
                "Timeout expired."@,
                "It was impossible to return the whole result before the timeout expired."@,
            ),
    {
        RediSQLError::new(
            String::from_str("Timeout expired."),
            String::from_str(
                "It was impossible to return the whole result before the timeout expired.",
            ),
        )
    }

    pub fn with_code(code: u32, debug: String, error_description: String) -> (e: Self)
        ensures
            e@ == (code, debug@, error_description@),
    {
        RediSQLError { code, debug, error_description }
    }

    /// The numbered error `code`, with its messages from `error_text`.
    pub fn numbered(code: u32) -> (e: Self)
        requires
            is_known_code(code),
        ensures
            e@ == coded(code),
    {
        let (d, s): (&str, &str) = if code == 1 {
            ("You didn't provide a database name", "No database name provide")
        } else if code == 2 {
            ("Provide PATH option but no PATH to use", "No PATH provided")
        } else if code == 3 {
            (
                "Provide both CAN_EXISTS and MUST_CREATE flags, they can't work together",
                "Provide both CAN_EXISTS and MUST_CREATE",
            )
        } else if code == 4 {
            (
                "Database already exists",
                "A database with the same name already exists but you explicitely asked to create one (using the MUST_CREATE flag).",
            )
        } else if code == 5 {
            (
                "You are trying to work with a key that does not contains RediSQL data, but contains other data",
                "Key does not belong to us",
            )
        } else if code == 6 {
            (
                "Error in opening database connection",
                "It was impossible to open a new database connection, maybe we are running out of space, memory, or you request to open a file that we cannot write.",
            )
        } else if code == 7 {
            ("Error in storing the key into redis", "Error in storing the key into redis")
        } else if code == 8 {
            (
                "Unknow error in saving the key into redis",
                "Unknow error in saving the key into redis",
            )
        } else if code == 9 {
            ("Provided the COMMAND keyword but not the query to execute", "No query provided")
        } else if code == 10 {
            (
                "Provided the STATEMENT keyword but not the statement to execute",
                "No statement provided",
            )
        } else if code == 11 {
            (
                "Provided the INTO keyword without providing which stream we should use",
                "No stream provided",
            )
        } else if code == 12 {
            (
                "The EXEC runs either a QUERY `OR` a STATEMENT, but you try to provide one STATEMENT `AND` one QUERY to run",
                "Provided both STATEMENT and QUERY keywords",
            )
        } else if code == 13 {
            ("Impossible to know which query should be executed", "Provided COMMAND twice")
        } else if code == 14 {
            ("Impossible to know which statement should be executed", "Provided STATEMENT twice")
        } else if code == 15 {
            (
                "You are trying to work with a key that is empty, run REDISQL.CREATE_DB first",
                "Key does not exists",
            )
        } else if code == 16 {
            (
                "Asked a STREAM without the header",
                "The header is part of the stream, does not make sense to provide a stream without header",
            )
        } else if code == 17 {
            (
                "STREAM for not READ_ONLY query not supported",
                "Asked a STREAM, but the query is not `READ_ONLY` (flag not set), this is not supported.",
            )
        } else if code == 18 {
            (
                "The statement command needs an action, either: DELETE, UPDATE, NEW or SHOW",
                "Statement command without command",
            )
        } else if code == 19 {
            (
                "You should provide the name of the statement to operate with",
                "Statement command with statement name",
            )
        } else if code == 20 {
            (
                "Statement actions requires a query to be provided in input",
                "No query provided for the statement",
            )
        } else if code == 21 {
            (
                "Flag `CAN_UPDATE` is supported only by STAMENTE NEW action",
                "Unexpected flag `CAN_UPDATE`",
            )
        } else if code == 22 {
            (
                "Flag `CAN_CREATE` is supported only by STATEMEN UPDATE action",
                "Unexpected flag `CAN_CREATE`",
            )
        } else if code == 23 {
            (
                "You provide a command for the statement that is not supported",
                "Statement command unknow",
            )
        } else {
            (
                "You didn't provide neither `COMMAND` nor `STATEMENT` fields",
                "Command incomplete, no `COMMAND` nor `STATEMENT` fields",
            )
        };
        RediSQLError::with_code(code, String::from_str(d), String::from_str(s))
    }

    pub fn no_database_name() -> (e: Self)
        ensures
            e@ == coded(1),
    {
        RediSQLError::numbered(1)
    }

    pub fn both_statement_and_query() -> (e: Self)
        ensures
            e@ == coded(12),
    {
        RediSQLError::numbered(12)
    }

    pub fn no_redisql_key() -> (e: Self)
        ensures
            e@ == coded(5),
    {
        RediSQLError::numbered(5)
    }

    pub fn empty_key() -> (e: Self)
        ensures
            e@ == coded(15),
    {
        RediSQLError::numbered(15)
    }

    /// The error that a SQLite error becomes: code 0, its full text for
    /// debugging and its message as description.
    pub fn from_sqlite3_error(err: SQLite3Error) -> (e: Self)
        ensures
            e@ == (0u32, sqlite3_error_text(err.code, err.error_string@, err.error_message@), err.error_message@),
    {
        let debug = err.to_display_string();
        RediSQLError { code: 0, debug, error_description: err.error_message }
    }

    /// The error that a Redis-side error becomes: code 0, its full text for
    /// debugging and its message as description.
    pub fn from_redis_error(err: RedisError) -> (e: Self)
        ensures
            e@ == (0u32, "ERR - "@ + err.msg@, err.msg@),
    {
        let debug = err.to_display_string();
        RediSQLError { code: 0, debug, error_description: err.msg }
    }

    pub fn code(&self) -> (c: u32)
        ensures
            c == self@.0,
    {
        self.code
    }

    /// The message meant for debugging (what `Debug` prints).
    pub fn debug_message(&self) -> (s: &str)
        ensures
            s@ == self@.1,
    {
        self.debug.as_str()
    }

    /// The description shown to users (what `Display` prints).
    pub fn description(&self) -> (s: &str)
        ensures
            s@ == self@.2,
    {
        self.error_description.as_str()
    }
}

} // verus!
