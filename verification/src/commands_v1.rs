//! The first version of the commands (`REDISQL.V1.*`): what each one asks,
//! read from its arguments, and the unit of work it hands to the worker of
//! its database.
use vstd::prelude::*;

use crate::redis::{BlockedClient, Command, ReturnMethod, REDISMODULE_ERR, REDISMODULE_OK};
use crate::statistics::{bump, Statistics};
use crate::text::{decimal_nat, usize_to_decimal};

verus! {

/// The commands of the first version.
#[derive(Clone, Copy, Debug)]
pub enum V1Command {
    CreateDB,
    Exec,
    Query,
    QueryInto,
    CreateStatement,
    UpdateStatement,
    DeleteStatement,
    ExecStatement,
    QueryStatement,
    QueryStatementInto,
    MakeCopy,
}

/// What the worker of a database is asked to do.
#[derive(Clone, Debug)]
pub enum V1Work {
    Exec { query: &'static str },
    /// A read-only query; its rows go to `stream` when there is one.
    Query { query: &'static str, stream: Option<&'static str> },
    CreateStatement { identifier: &'static str, statement: &'static str },
    UpdateStatement { identifier: &'static str, statement: &'static str },
    DeleteStatement { identifier: &'static str },
    ExecStatement { identifier: &'static str, arguments: Vec<&'static str> },
    /// A read-only stored statement; its rows go to `stream` when there is
    /// one.
    QueryStatement {
        identifier: &'static str,
        arguments: Vec<&'static str>,
        stream: Option<&'static str>,
    },
}

/// What a command of the first version asks.
pub enum V1Request {
    /// A new database under `key`: in the file `path`, or in memory.
    CreateDB { key: &'static str, path: Option<&'static str> },
    /// Work for the worker of the database under `key`.
    Work { key: &'static str, work: V1Work },
    /// A copy of the database under `source` into the one under
    /// `destination`.
    MakeCopy { source: &'static str, destination: &'static str },
}

/// `Wrong number of arguments, it accepts <n>, you provide <given>`.
pub open spec fn provided_text(accepted: Seq<char>, given: nat) -> Seq<char> {
    "Wrong number of arguments, it accepts "@ + accepted + ", you provide "@ + decimal_nat(given)
}

fn provided_message(accepted: &str, given: usize) -> (m: String)
    ensures
        m@ == provided_text(accepted@, given as nat),
{
    let mut m = String::from_str("Wrong number of arguments, it accepts ");
    m.append(accepted);
    m.append(", you provide ");
    m.append(usize_to_decimal(given).as_str());
    m
}

fn rest_of(argv: &Vec<&'static str>, from: usize) -> (rest: Vec<&'static str>)
    requires
        from <= argv.len(),
    ensures
        rest@ == argv@.subrange(from as int, argv.len() as int),
{
    let mut rest: Vec<&'static str> = Vec::new();
    let mut i: usize = from;
    while i < argv.len()
        invariant
            from <= i <= argv.len(),
            rest@ == argv@.subrange(from as int, i as int),
        decreases argv.len() - i,
    {
        rest.push(argv[i]);
        i = i + 1;
        assert(rest@ =~= argv@.subrange(from as int, i as int));
    }
    rest
}

/// Reads what a command asks from its arguments (the command name first),
/// or the error that it answers when their number is wrong. `EXEC` also
/// takes five arguments, and then ignores the last two.
pub fn v1_request(command: V1Command, argv: &Vec<&'static str>) -> (r: Result<V1Request, String>)
    ensures
        match command {
            V1Command::CreateDB => if argv.len() == 2 {
                r == Ok::<V1Request, String>(V1Request::CreateDB { key: argv[1], path: None })
            } else if argv.len() == 3 {
                r == Ok::<V1Request, String>(V1Request::CreateDB { key: argv[1], path: Some(argv[2]) })
            } else {
                r matches Err(m) && m@ == "Wrong number of arguments, it accepts 2 or 3"@
            },
            V1Command::Exec => if argv.len() == 3 || argv.len() == 5 {
                r == Ok::<V1Request, String>(
                    V1Request::Work { key: argv[1], work: V1Work::Exec { query: argv[2] } },
                )
            } else {
                r matches Err(m) && m@ == provided_text("3"@, argv.len() as nat)
            },
            V1Command::Query => if argv.len() == 3 {
                r == Ok::<V1Request, String>(
                    V1Request::Work {
                        key: argv[1],
                        work: V1Work::Query { query: argv[2], stream: None },
                    },
                )
            } else {
                r matches Err(m) && m@ == provided_text("3"@, argv.len() as nat)
            },
            V1Command::QueryInto => if argv.len() == 4 {
                r == Ok::<V1Request, String>(
                    V1Request::Work {
                        key: argv[2],
                        work: V1Work::Query { query: argv[3], stream: Some(argv[1]) },
                    },
                )
            } else {
                r matches Err(m) && m@ == provided_text("4"@, argv.len() as nat)
            },
            V1Command::CreateStatement => if argv.len() == 4 {
                r == Ok::<V1Request, String>(
                    V1Request::Work {
                        key: argv[1],
                        work: V1Work::CreateStatement { identifier: argv[2], statement: argv[3] },
                    },
                )
            } else {
                r matches Err(m) && m@ == "Wrong number of arguments, it accepts 4"@
            },
            V1Command::UpdateStatement => if argv.len() == 4 {
                r == Ok::<V1Request, String>(
                    V1Request::Work {
                        key: argv[1],
                        work: V1Work::UpdateStatement { identifier: argv[2], statement: argv[3] },
                    },
                )
            } else {
                r matches Err(m) && m@ == "Wrong number of arguments, it accepts 4"@
            },
            V1Command::DeleteStatement => if argv.len() == 3 {
                r == Ok::<V1Request, String>(
                    V1Request::Work {
                        key: argv[1],
                        work: V1Work::DeleteStatement { identifier: argv[2] },
                    },
                )
            } else {
                r matches Err(m) && m@ == "Wrong number of arguments, it accepts 3"@
            },
            V1Command::ExecStatement => if argv.len() >= 3 {
                r matches Ok(V1Request::Work { key, work: V1Work::ExecStatement { identifier, arguments } })
                    && key == argv[1] && identifier == argv[2] && arguments@ == argv@.subrange(
                    3,
                    argv.len() as int,
                )
            } else {
                r matches Err(m) && m@ == "Wrong number of arguments, it needs at least 3"@
            },
            V1Command::QueryStatement => if argv.len() >= 3 {
                r matches Ok(
                    V1Request::Work {
                        key,
                        work: V1Work::QueryStatement { identifier, arguments, stream: None },
                    },
                ) && key == argv[1] && identifier == argv[2] && arguments@ == argv@.subrange(
                    3,
                    argv.len() as int,
                )
            } else {
                r matches Err(m) && m@ == "Wrong number of arguments, it needs at least 3"@
            },
            V1Command::QueryStatementInto => if argv.len() >= 4 {
                r matches Ok(
                    V1Request::Work {
                        key,
                        work: V1Work::QueryStatement { identifier, arguments, stream: Some(stream) },
                    },
                ) && stream == argv[1] && key == argv[2] && identifier == argv[3] && arguments@
                    == argv@.subrange(4, argv.len() as int)
            } else {
                r matches Err(m) && m@ == "Wrong number of arguments, it needs at least 4"@
            },
            V1Command::MakeCopy => if argv.len() == 3 {
                r == Ok::<V1Request, String>(
                    V1Request::MakeCopy { source: argv[1], destination: argv[2] },
                )
            } else {
                r matches Err(m) && m@ == "Wrong number of arguments, it accepts exactly 3"@
            },
        },
{
    let n = argv.len();
    match command {
        V1Command::CreateDB => if n == 2 {
            Ok(V1Request::CreateDB { key: argv[1], path: None })
        } else if n == 3 {
            Ok(V1Request::CreateDB { key: argv[1], path: Some(argv[2]) })
        } else {
            Err(String::from_str("Wrong number of arguments, it accepts 2 or 3"))
        },
        V1Command::Exec => if n == 3 || n == 5 {
            Ok(V1Request::Work { key: argv[1], work: V1Work::Exec { query: argv[2] } })
        } else {
            Err(provided_message("3", n))
        },
        V1Command::Query => if n == 3 {
            Ok(V1Request::Work { key: argv[1], work: V1Work::Query { query: argv[2], stream: None } })
        } else {
            Err(provided_message("3", n))
        },
        V1Command::QueryInto => if n == 4 {
            Ok(
                V1Request::Work {
                    key: argv[2],
                    work: V1Work::Query { query: argv[3], stream: Some(argv[1]) },
                },
            )
        } else {
            Err(provided_message("4", n))
        },
        V1Command::CreateStatement => if n == 4 {
            Ok(
                V1Request::Work {
                    key: argv[1],
                    work: V1Work::CreateStatement { identifier: argv[2], statement: argv[3] },
                },
            )
        } else {
            Err(String::from_str("Wrong number of arguments, it accepts 4"))
        },
        V1Command::UpdateStatement => if n == 4 {
            Ok(
                V1Request::Work {
                    key: argv[1],
                    work: V1Work::UpdateStatement { identifier: argv[2], statement: argv[3] },
                },
            )
        } else {
            Err(String::from_str("Wrong number of arguments, it accepts 4"))
        },
        V1Command::DeleteStatement => if n == 3 {
            Ok(V1Request::Work { key: argv[1], work: V1Work::DeleteStatement { identifier: argv[2] } })
        } else {
            Err(String::from_str("Wrong number of arguments, it accepts 3"))
        },
        V1Command::ExecStatement => if n >= 3 {
            let arguments = rest_of(argv, 3);
            Ok(
                V1Request::Work {
                    key: argv[1],
                    work: V1Work::ExecStatement { identifier: argv[2], arguments },
                },
            )
        } else {
            Err(String::from_str("Wrong number of arguments, it needs at least 3"))
        },
        V1Command::QueryStatement => if n >= 3 {
            let arguments = rest_of(argv, 3);
            Ok(
                V1Request::Work {
                    key: argv[1],
                    work: V1Work::QueryStatement { identifier: argv[2], arguments, stream: None },
                },
            )
        } else {
            Err(String::from_str("Wrong number of arguments, it needs at least 3"))
        },
        V1Command::QueryStatementInto => if n >= 4 {
            let arguments = rest_of(argv, 4);
            Ok(
                V1Request::Work {
                    key: argv[2],
                    work: V1Work::QueryStatement {
                        identifier: argv[3],
                        arguments,
                        stream: Some(argv[1]),
                    },
                },
            )
        } else {
            Err(String::from_str("Wrong number of arguments, it needs at least 4"))
        },
        V1Command::MakeCopy => if n == 3 {
            Ok(V1Request::MakeCopy { source: argv[1], destination: argv[2] })
        } else {
            Err(String::from_str("Wrong number of arguments, it accepts exactly 3"))
        },
    }
}

/// The error that `CREATE_DB` answers when Redis did not store the new
/// database under its key (`type_set` is Redis's status), if any.
pub fn create_db_store_error(type_set: i32) -> (e: Option<&'static str>)
    ensures
        type_set == REDISMODULE_OK ==> e is None,
        type_set == REDISMODULE_ERR ==> (e matches Some(m) && m@
            == "ERR - Error in saving the database inside Redis"@),
        type_set != REDISMODULE_OK && type_set != REDISMODULE_ERR ==> (e matches Some(m) && m@
            == "ERR - Error unknow"@),
{
    if type_set == REDISMODULE_OK {
        None
    } else if type_set == REDISMODULE_ERR {
        Some("ERR - Error in saving the database inside Redis")
    } else {
        Some("ERR - Error unknow")
    }
}

/// Where the rows of a query go: to the stream, or back to the client.
pub open spec fn reply_to(stream: Option<&'static str>) -> ReturnMethod {
    match stream {
        Some(name) => ReturnMethod::Stream { name },
        None => ReturnMethod::Reply,
    }
}

impl V1Work {
    /// The command under which Redis replicates the request once it was
    /// handed to the worker: only the requests that write are replicated,
    /// as their immediate (`NOW`) form.
    pub fn replicated_as(&self) -> (name: Option<&'static str>)
        ensures
            match *self {
                V1Work::Exec { .. } => name matches Some(s) && s@ == "REDISQL.EXEC.NOW"@,
                V1Work::CreateStatement { .. } => name matches Some(s) && s@
                    == "REDISQL.CREATE_STATEMENT.NOW"@,
                V1Work::UpdateStatement { .. } => name matches Some(s) && s@
                    == "REDISQL.UPDATE_STATEMENT.NOW"@,
                V1Work::DeleteStatement { .. } => name matches Some(s) && s@
                    == "REDISQL.DELETE_STATEMENT.NOW"@,
                V1Work::ExecStatement { .. } => name matches Some(s) && s@
                    == "REDISQL.EXEC_STATEMENT.NOW"@,
                V1Work::Query { .. } => name is None,
                V1Work::QueryStatement { .. } => name is None,
            },
    {
        match self {
            V1Work::Exec { .. } => Some("REDISQL.EXEC.NOW"),
            V1Work::CreateStatement { .. } => Some("REDISQL.CREATE_STATEMENT.NOW"),
            V1Work::UpdateStatement { .. } => Some("REDISQL.UPDATE_STATEMENT.NOW"),
            V1Work::DeleteStatement { .. } => Some("REDISQL.DELETE_STATEMENT.NOW"),
            V1Work::ExecStatement { .. } => Some("REDISQL.EXEC_STATEMENT.NOW"),
            V1Work::Query { .. } => None,
            V1Work::QueryStatement { .. } => None,
        }
    }

    /// The unit of work for the worker. Queries and statements take the
    /// deadline; a statement is neither created over an existing one nor
    /// updated into being.
    pub fn into_command(self, timeout: std::time::Instant, client: BlockedClient) -> (c: Command)
        ensures
            match self {
                V1Work::Exec { query } => c matches Command::Exec {
                    query: q,
                    arguments,
                    timeout: t,
                    return_method: ReturnMethod::Reply,
                    client: cl,
                } && q == query && arguments@.len() == 0 && t == timeout && cl == client,
                V1Work::Query { query, stream } => c matches Command::Query {
                    query: q,
                    arguments,
                    timeout: t,
                    return_method: rm,
                    client: cl,
                } && q == query && arguments@.len() == 0 && t == timeout && rm == reply_to(stream)
                    && cl == client,
                V1Work::CreateStatement { identifier, statement } => c == (Command::CompileStatement {
                    identifier,
                    statement,
                    can_update: false,
                    client,
                }),
                V1Work::UpdateStatement { identifier, statement } => c == (Command::UpdateStatement {
                    identifier,
                    statement,
                    can_create: false,
                    client,
                }),
                V1Work::DeleteStatement { identifier } => c == (Command::DeleteStatement {
                    identifier,
                    client,
                }),
                V1Work::ExecStatement { identifier, arguments } => c == (Command::ExecStatement {
                    identifier,
                    arguments,
                    timeout,
                    return_method: ReturnMethod::Reply,
                    client,
                }),
                V1Work::QueryStatement { identifier, arguments, stream } => c
                    == (Command::QueryStatement {
                    identifier,
                    arguments,
                    timeout,
                    return_method: reply_to(stream),
                    client,
                }),
            },
    {
        match self {
            V1Work::Exec { query } => Command::Exec {
                query,
                arguments: Vec::new(),
                timeout,
                return_method: ReturnMethod::Reply,
                client,
            },
            V1Work::Query { query, stream } => Command::Query {
                query,
                arguments: Vec::new(),
                timeout,
                return_method: match stream {
                    Some(name) => ReturnMethod::Stream { name },
                    None => ReturnMethod::Reply,
                },
                client,
            },
            V1Work::CreateStatement { identifier, statement } => Command::CompileStatement {
                identifier,
                statement,
                can_update: false,
                client,
            },
            V1Work::UpdateStatement { identifier, statement } => Command::UpdateStatement {
                identifier,
                statement,
                can_create: false,
                client,
            },
            V1Work::DeleteStatement { identifier } => Command::DeleteStatement { identifier, client },
            V1Work::ExecStatement { identifier, arguments } => Command::ExecStatement {
                identifier,
                arguments,
                timeout,
                return_method: ReturnMethod::Reply,
                client,
            },
            V1Work::QueryStatement { identifier, arguments, stream } => Command::QueryStatement {
                identifier,
                arguments,
                timeout,
                return_method: match stream {
                    Some(name) => ReturnMethod::Stream { name },
                    None => ReturnMethod::Reply,
                },
                client,
            },
        }
    }
}

// ----------------------------------------------------------------------
// What the handling of a command counts and replicates.
// ----------------------------------------------------------------------

/// What happened while a command of the first version was handled.
#[derive(Clone, Copy, Debug)]
pub enum V1Event {
    /// The command arrived.
    Received,
    /// Its arguments could not be read, or there were not as many as it
    /// takes.
    BadArguments,
    /// Its key (the source key of a copy) holds no database.
    NoDatabase,
    /// The destination key of a copy holds no database.
    NoDestination,
    /// The work was handed to the worker of the database, which answers
    /// the client later.
    Sent,
    /// The worker answered the client: with a result, or with an error.
    Answered { succeeded: bool },
    /// The channel of the worker was closed.
    SendFailed,
    /// The new database was stored under its key.
    Stored,
    /// Redis did not store the new database under its key.
    NotStored,
    /// SQLite could not open the new database.
    CannotOpen,
    /// The metadata of the new database could not be set up.
    SetupFailed,
}

/// The first of the three counters of a command (the command, its
/// successes, its errors), in the order of `stat_names`.
pub open spec fn counter_base(c: V1Command) -> int {
    match c {
        V1Command::CreateDB => 0,
        V1Command::Exec => 3,
        V1Command::Query => 6,
        V1Command::QueryInto => 9,
        V1Command::CreateStatement => 12,
        V1Command::ExecStatement => 15,
        V1Command::UpdateStatement => 18,
        V1Command::DeleteStatement => 21,
        V1Command::QueryStatement => 24,
        V1Command::QueryStatementInto => 27,
        V1Command::MakeCopy => 30,
    }
}

/// Whether an event ends the handling of a call: every event but its
/// arrival and the hand-over to the worker (whose answer ends it).
pub open spec fn ends_call(e: V1Event) -> bool {
    !(e is Received) && !(e is Sent)
}

/// Whether an event that ends a call is a success: the worker answered
/// with a result, or the new database was stored.
pub open spec fn call_succeeded(e: V1Event) -> bool {
    e is Stored || e matches V1Event::Answered { succeeded: true }
}

/// The counter that an event of a command raises, if any: its arrival
/// raises the command's counter, the event that ends it raises the
/// command's `OK` counter when it succeeded and its `ERR` counter when it
/// failed, and the hand-over to the worker raises none.
pub open spec fn v1_counter(c: V1Command, e: V1Event) -> Option<int> {
    if e is Received {
        Some(counter_base(c))
    } else if e is Sent {
        None
    } else if call_succeeded(e) {
        Some(counter_base(c) + 1)
    } else {
        Some(counter_base(c) + 2)
    }
}

/// Every call of a command counts once under the command, and the event
/// that ends it counts once under exactly one of the command's `OK` and
/// `ERR` counters (`OK` for a success); no event counts under another
/// command.
pub proof fn law_each_call_counts_once(c: V1Command, e: V1Event)
    ensures
        e is Received ==> v1_counter(c, e) == Some(counter_base(c)),
        ends_call(e) ==> v1_counter(c, e) == Some(
            counter_base(c) + if call_succeeded(e) {
                1int
            } else {
                2int
            },
        ),
        !(e is Received) && !ends_call(e) ==> v1_counter(c, e) is None,
        0 <= counter_base(c) && counter_base(c) + 2 < 33,
{
}

fn base_of(c: V1Command) -> (b: usize)
    ensures
        b == counter_base(c),
{
    match c {
        V1Command::CreateDB => 0,
        V1Command::Exec => 3,
        V1Command::Query => 6,
        V1Command::QueryInto => 9,
        V1Command::CreateStatement => 12,
        V1Command::ExecStatement => 15,
        V1Command::UpdateStatement => 18,
        V1Command::DeleteStatement => 21,
        V1Command::QueryStatement => 24,
        V1Command::QueryStatementInto => 27,
        V1Command::MakeCopy => 30,
    }
}

/// The counter that an event of a command raises, if any.
pub fn v1_counter_of(c: V1Command, e: V1Event) -> (i: Option<usize>)
    ensures
        match v1_counter(c, e) {
            Some(k) => i == Some(k as usize) && 0 <= k < 33,
            None => i is None,
        },
{
    let base = base_of(c);
    match e {
        V1Event::Received => Some(base),
        V1Event::Sent => None,
        V1Event::Stored | V1Event::Answered { succeeded: true } => Some(base + 1),
        _ => Some(base + 2),
    }
}

/// The event of the worker's answer to a call.
pub fn answer_event<T, E>(answer: &Result<T, E>) -> (e: V1Event)
    ensures
        e == (V1Event::Answered { succeeded: answer is Ok }),
{
    V1Event::Answered { succeeded: answer.is_ok() }
}

/// Counts an event of a command: the counter it raises goes up by one, the
/// others stay.
pub fn record_v1_event(stats: &mut Statistics, c: V1Command, e: V1Event)
    ensures
        final(stats)@ == match v1_counter(c, e) {
            Some(k) => old(stats)@.update(k, bump(old(stats)@[k])),
            None => old(stats)@,
        },
{
    match v1_counter_of(c, e) {
        Some(i) => stats.bump_counter(i),
        None => {},
    }
}

/// How Redis replicates a command, once handled.
pub enum V1Replication {
    Nothing,
    /// As the command `name`, with the same arguments.
    As { name: &'static str },
    /// As it was received.
    Verbatim,
}

/// A request is replicated once it succeeded: the work for a worker once
/// sent, as its immediate form when it writes; a copy once sent, as
/// `REDISQL.COPY.NOW`; a new database once stored, as it was received.
pub fn v1_replication(request: &V1Request, e: V1Event) -> (r: V1Replication)
    ensures
        match (*request, e) {
            (V1Request::Work { work, .. }, V1Event::Sent) => match work {
                V1Work::Query { .. } | V1Work::QueryStatement { .. } => r is Nothing,
                _ => r matches V1Replication::As { name } && name@ == match work {
                    V1Work::Exec { .. } => "REDISQL.EXEC.NOW"@,
                    V1Work::CreateStatement { .. } => "REDISQL.CREATE_STATEMENT.NOW"@,
                    V1Work::UpdateStatement { .. } => "REDISQL.UPDATE_STATEMENT.NOW"@,
                    V1Work::DeleteStatement { .. } => "REDISQL.DELETE_STATEMENT.NOW"@,
                    _ => "REDISQL.EXEC_STATEMENT.NOW"@,
                },
            },
            (V1Request::MakeCopy { .. }, V1Event::Sent) => r matches V1Replication::As { name }
                && name@ == "REDISQL.COPY.NOW"@,
            (V1Request::CreateDB { .. }, V1Event::Stored) => r is Verbatim,
            _ => r is Nothing,
        },
{
    match (request, e) {
        (V1Request::Work { work, .. }, V1Event::Sent) => match work.replicated_as() {
            Some(name) => V1Replication::As { name },
            None => V1Replication::Nothing,
        },
        (V1Request::MakeCopy { .. }, V1Event::Sent) => V1Replication::As { name: "REDISQL.COPY.NOW" },
        (V1Request::CreateDB { .. }, V1Event::Stored) => V1Replication::Verbatim,
        _ => V1Replication::Nothing,
    }
}

} // verus!
