//! `REDISQL.EXEC` / `REDISQL.QUERY`:
//! `EXEC db [COMMAND q | STATEMENT s] [READ_ONLY] [NOW] [INTO stream]
//! [NO_HEADER] [ARGS a1 a2 ...]`.
use vstd::prelude::*;

use crate::parser::common::{args_view, lemma_args_view_push, opt_view, CommandV2};
use crate::redis::{BlockedClient, Command, ReturnMethod};
use crate::redisql_error::{coded, RediSQLError};
use crate::text::{is_keyword, matches_keyword};

verus! {

#[derive(Debug, Clone)]
pub enum ToExecute<'s> {
    Command { query: &'s str, args: Vec<&'s str> },
    Statement { stmt: &'s str, args: Vec<&'s str> },
}

#[derive(Debug, Clone)]
pub struct Exec<'s> {
    database: &'s str,
    connection: Option<&'s str>,
    into: Option<&'s str>,
    read_only: bool,
    now: bool,
    no_header: bool,
    to_execute: Option<ToExecute<'s>>,
}

/// What an `EXEC` runs: a query or a stored statement, with its arguments.
pub enum ToExecuteModel {
    Command { query: Seq<char>, args: Seq<Seq<char>> },
    Statement { stmt: Seq<char>, args: Seq<Seq<char>> },
}

/// The content of a parsed `EXEC` command.
pub struct ExecModel {
    pub database: Seq<char>,
    pub connection: Option<Seq<char>>,
    pub into: Option<Seq<char>>,
    pub read_only: bool,
    pub now: bool,
    pub no_header: bool,
    pub to_execute: Option<ToExecuteModel>,
}

impl<'s> View for ToExecute<'s> {
    type V = ToExecuteModel;

    open spec fn view(&self) -> ToExecuteModel {
        match self {
            ToExecute::Command { query, args } => ToExecuteModel::Command {
                query: query@,
                args: args_view(args@),
            },
            ToExecute::Statement { stmt, args } => ToExecuteModel::Statement {
                stmt: stmt@,
                args: args_view(args@),
            },
        }
    }
}

impl<'s> View for Exec<'s> {
    type V = ExecModel;

    closed spec fn view(&self) -> ExecModel {
        ExecModel {
            database: self.database@,
            connection: opt_view(self.connection),
            into: opt_view(self.into),
            read_only: self.read_only,
            now: self.now,
            no_header: self.no_header,
            to_execute: match self.to_execute {
                Some(t) => Some(t@),
                None => None,
            },
        }
    }
}

/// The state of an `EXEC` right after its database name was read.
pub open spec fn exec_start(database: Seq<char>) -> ExecModel {
    ExecModel {
        database,
        connection: None,
        into: None,
        read_only: false,
        now: false,
        no_header: false,
        to_execute: None,
    }
}

/// `ARGS` hands every remaining argument to what is executed.
pub open spec fn with_more_args(t: ToExecuteModel, more: Seq<Seq<char>>) -> ToExecuteModel {
    match t {
        ToExecuteModel::Command { query, args } => ToExecuteModel::Command {
            query,
            args: args + more,
        },
        ToExecuteModel::Statement { stmt, args } => ToExecuteModel::Statement {
            stmt,
            args: args + more,
        },
    }
}

/// Reads the options of an `EXEC` from argument `i` on; the error is the
/// code of the first problem met.
pub open spec fn exec_scan(v: Seq<Seq<char>>, i: int, e: ExecModel) -> Result<ExecModel, u32>
    decreases v.len() - i,
{
    if i >= v.len() {
        Ok(e)
    } else {
        let a = v[i];
        if matches_keyword(a, "COMMAND"@) {
            match e.to_execute {
                Some(ToExecuteModel::Statement { .. }) => Err(12),
                Some(ToExecuteModel::Command { .. }) => Err(13),
                None => if i + 1 >= v.len() {
                    Err(9)
                } else {
                    exec_scan(
                        v,
                        i + 2,
                        ExecModel {
                            to_execute: Some(
                                ToExecuteModel::Command { query: v[i + 1], args: Seq::empty() },
                            ),
                            ..e
                        },
                    )
                },
            }
        } else if matches_keyword(a, "STATEMENT"@) {
            match e.to_execute {
                Some(ToExecuteModel::Command { .. }) => Err(12),
                Some(ToExecuteModel::Statement { .. }) => Err(14),
                None => if i + 1 >= v.len() {
                    Err(10)
                } else {
                    exec_scan(
                        v,
                        i + 2,
                        ExecModel {
                            to_execute: Some(
                                ToExecuteModel::Statement { stmt: v[i + 1], args: Seq::empty() },
                            ),
                            ..e
                        },
                    )
                },
            }
        } else if matches_keyword(a, "READ_ONLY"@) {
            exec_scan(v, i + 1, ExecModel { read_only: true, ..e })
        } else if matches_keyword(a, "NOW"@) {
            exec_scan(v, i + 1, ExecModel { now: true, ..e })
        } else if matches_keyword(a, "INTO"@) {
            if i + 1 >= v.len() {
                Err(11)
            } else {
                exec_scan(v, i + 2, ExecModel { into: Some(v[i + 1]), ..e })
            }
        } else if matches_keyword(a, "NO_HEADER"@) {
            exec_scan(v, i + 1, ExecModel { no_header: true, ..e })
        } else if matches_keyword(a, "ARGS"@) {
            match e.to_execute {
                None => Err(24),
                Some(t) => Ok(
                    ExecModel {
                        to_execute: Some(with_more_args(t, v.subrange(i + 1, v.len() as int))),
                        ..e
                    },
                ),
            }
        } else {
            exec_scan(v, i + 1, e)
        }
    }
}

/// What `EXEC` makes of its arguments: the command, or the code of the error.
pub open spec fn exec_parse(v: Seq<Seq<char>>) -> Result<ExecModel, u32> {
    if v.len() < 2 {
        Err(1)
    } else {
        match exec_scan(v, 2, exec_start(v[1])) {
            Err(c) => Err(c),
            Ok(e) => if e.to_execute is None {
                Err(24)
            } else if e.into is Some && e.no_header {
                Err(16)
            } else if e.into is Some && !e.read_only {
                Err(17)
            } else {
                Ok(e)
            },
        }
    }
}

/// Where the result of a parsed `EXEC` goes.
pub open spec fn return_method_of(into: Option<&'static str>, no_header: bool) -> ReturnMethod {
    match into {
        Some(s) => ReturnMethod::Stream { name: s },
        None => if no_header {
            ReturnMethod::Reply
        } else {
            ReturnMethod::ReplyWithHeader
        },
    }
}

/// The arguments with which an `EXEC` is replicated, when it is.
pub open spec fn replication_of(e: ExecModel) -> Option<Seq<Seq<char>>> {
    if e.read_only || e.now {
        None
    } else {
        match e.to_execute {
            Some(ToExecuteModel::Command { query, args }) => Some(
                seq![e.database, "NOW"@, "COMMAND"@, query] + if args.len() == 0 {
                    Seq::empty()
                } else {
                    seq!["ARGS"@] + args
                },
            ),
            Some(ToExecuteModel::Statement { stmt, args }) => Some(
                seq![e.database, "NOW"@, "STATEMENT"@, stmt] + if args.len() == 0 {
                    Seq::empty()
                } else {
                    seq!["ARGS"@] + args
                },
            ),
            None => None,
        }
    }
}

proof fn lemma_scan_keeps_connection(v: Seq<Seq<char>>, i: int, e: ExecModel)
    requires
        exec_scan(v, i, e) is Ok,
    ensures
        exec_scan(v, i, e)->Ok_0.connection == e.connection,
    decreases v.len() - i,
{
    if i < v.len() {
        let a = v[i];
        if matches_keyword(a, "COMMAND"@) {
            if e.to_execute is None && i + 1 < v.len() {
                lemma_scan_keeps_connection(
                    v,
                    i + 2,
                    ExecModel {
                        to_execute: Some(
                            ToExecuteModel::Command { query: v[i + 1], args: Seq::empty() },
                        ),
                        ..e
                    },
                );
            }
        } else if matches_keyword(a, "STATEMENT"@) {
            if e.to_execute is None && i + 1 < v.len() {
                lemma_scan_keeps_connection(
                    v,
                    i + 2,
                    ExecModel {
                        to_execute: Some(
                            ToExecuteModel::Statement { stmt: v[i + 1], args: Seq::empty() },
                        ),
                        ..e
                    },
                );
            }
        } else if matches_keyword(a, "READ_ONLY"@) {
            lemma_scan_keeps_connection(v, i + 1, ExecModel { read_only: true, ..e });
        } else if matches_keyword(a, "NOW"@) {
            lemma_scan_keeps_connection(v, i + 1, ExecModel { now: true, ..e });
        } else if matches_keyword(a, "INTO"@) {
            if i + 1 < v.len() {
                lemma_scan_keeps_connection(v, i + 2, ExecModel { into: Some(v[i + 1]), ..e });
            }
        } else if matches_keyword(a, "NO_HEADER"@) {
            lemma_scan_keeps_connection(v, i + 1, ExecModel { no_header: true, ..e });
        } else if matches_keyword(a, "ARGS"@) {
        } else {
            lemma_scan_keeps_connection(v, i + 1, e);
        }
    }
}

/// Which keyword each replication keyword is, and is not.
proof fn lemma_replication_keywords()
    ensures
        matches_keyword("NOW"@, "NOW"@),
        !matches_keyword("NOW"@, "COMMAND"@),
        !matches_keyword("NOW"@, "STATEMENT"@),
        !matches_keyword("NOW"@, "READ_ONLY"@),
        matches_keyword("COMMAND"@, "COMMAND"@),
        matches_keyword("STATEMENT"@, "STATEMENT"@),
        !matches_keyword("STATEMENT"@, "COMMAND"@),
        matches_keyword("ARGS"@, "ARGS"@),
        !matches_keyword("ARGS"@, "COMMAND"@),
        !matches_keyword("ARGS"@, "STATEMENT"@),
        !matches_keyword("ARGS"@, "READ_ONLY"@),
        !matches_keyword("ARGS"@, "NOW"@),
        !matches_keyword("ARGS"@, "INTO"@),
        !matches_keyword("ARGS"@, "NO_HEADER"@),
{
    reveal_strlit("NOW");
    reveal_strlit("COMMAND");
    reveal_strlit("STATEMENT");
    reveal_strlit("READ_ONLY");
    reveal_strlit("INTO");
    reveal_strlit("NO_HEADER");
    reveal_strlit("ARGS");
    assert(!matches_keyword("STATEMENT"@, "COMMAND"@));
    assert(crate::text::ascii_upper_code("ARGS"@[0]) != "INTO"@[0] as u32);
}

/// A parsed `EXEC` always has something to execute, and a stream only goes
/// with a read-only command that keeps its header.
pub proof fn law_parsed_exec_is_complete(v: Seq<Seq<char>>)
    requires
        exec_parse(v) is Ok,
    ensures
        ({
            let m = exec_parse(v)->Ok_0;
            &&& m.to_execute is Some
            &&& m.into is Some ==> m.read_only && !m.no_header
            &&& m.connection is None
            &&& m.database == v[1]
        }),
{
    lemma_scan_keeps_connection(v, 2, exec_start(v[1]));
    lemma_scan_keeps_database(v, 2, exec_start(v[1]));
}

proof fn lemma_scan_keeps_database(v: Seq<Seq<char>>, i: int, e: ExecModel)
    requires
        exec_scan(v, i, e) is Ok,
    ensures
        exec_scan(v, i, e)->Ok_0.database == e.database,
    decreases v.len() - i,
{
    if i < v.len() {
        let a = v[i];
        if matches_keyword(a, "COMMAND"@) {
            if e.to_execute is None && i + 1 < v.len() {
                lemma_scan_keeps_database(
                    v,
                    i + 2,
                    ExecModel {
                        to_execute: Some(
                            ToExecuteModel::Command { query: v[i + 1], args: Seq::empty() },
                        ),
                        ..e
                    },
                );
            }
        } else if matches_keyword(a, "STATEMENT"@) {
            if e.to_execute is None && i + 1 < v.len() {
                lemma_scan_keeps_database(
                    v,
                    i + 2,
                    ExecModel {
                        to_execute: Some(
                            ToExecuteModel::Statement { stmt: v[i + 1], args: Seq::empty() },
                        ),
                        ..e
                    },
                );
            }
        } else if matches_keyword(a, "READ_ONLY"@) {
            lemma_scan_keeps_database(v, i + 1, ExecModel { read_only: true, ..e });
        } else if matches_keyword(a, "NOW"@) {
            lemma_scan_keeps_database(v, i + 1, ExecModel { now: true, ..e });
        } else if matches_keyword(a, "INTO"@) {
            if i + 1 < v.len() {
                lemma_scan_keeps_database(v, i + 2, ExecModel { into: Some(v[i + 1]), ..e });
            }
        } else if matches_keyword(a, "NO_HEADER"@) {
            lemma_scan_keeps_database(v, i + 1, ExecModel { no_header: true, ..e });
        } else if matches_keyword(a, "ARGS"@) {
        } else {
            lemma_scan_keeps_database(v, i + 1, e);
        }
    }
}

/// What Redis replicates of an `EXEC` that writes and was not immediate,
/// parsed again (after any command name), is the same command, now
/// immediate and with the default header.
pub proof fn law_replicated_exec_reparses(v: Seq<Seq<char>>, name: Seq<char>)
    requires
        exec_parse(v) is Ok,
        !exec_parse(v)->Ok_0.read_only,
        !exec_parse(v)->Ok_0.now,
    ensures
        ({
            let m = exec_parse(v)->Ok_0;
            &&& replication_of(m) is Some
            &&& exec_parse(seq![name] + replication_of(m)->Some_0) == Ok::<ExecModel, u32>(
                ExecModel { now: true, no_header: false, ..m },
            )
        }),
{
    let m = exec_parse(v)->Ok_0;
    law_parsed_exec_is_complete(v);
    lemma_replication_keywords();
    let db = m.database;
    let (kw, target, args, te) = match m.to_execute {
        Some(ToExecuteModel::Command { query, args }) => (
            "COMMAND"@,
            query,
            args,
            ToExecuteModel::Command { query, args: Seq::empty() },
        ),
        Some(ToExecuteModel::Statement { stmt, args }) => (
            "STATEMENT"@,
            stmt,
            args,
            ToExecuteModel::Statement { stmt, args: Seq::empty() },
        ),
        None => (Seq::empty(), Seq::empty(), Seq::empty(), ToExecuteModel::Command {
            query: Seq::empty(),
            args: Seq::empty(),
        }),
    };
    let tail = if args.len() == 0 {
        Seq::<Seq<char>>::empty()
    } else {
        seq!["ARGS"@] + args
    };
    let w = seq![name] + replication_of(m)->Some_0;
    assert(replication_of(m)->Some_0 == seq![db, "NOW"@, kw, target] + tail);
    assert(w =~= seq![name, db, "NOW"@, kw, target] + tail);
    assert(w[1] == db);
    assert(w[2] == "NOW"@);
    assert(w[3] == kw);
    assert(w[4] == target);
    let e0 = exec_start(db);
    let e1 = ExecModel { now: true, ..e0 };
    let e2 = ExecModel { to_execute: Some(te), ..e1 };
    assert(exec_scan(w, 2, e0) == exec_scan(w, 3, e1));
    assert(exec_scan(w, 3, e1) == exec_scan(w, 5, e2));
    assert(m.into is None);
    if args.len() == 0 {
        assert(w.len() == 5);
        assert(exec_scan(w, 5, e2) == Ok::<ExecModel, u32>(e2));
        assert(args =~= Seq::<Seq<char>>::empty());
        assert(e2 == ExecModel { now: true, no_header: false, ..m });
    } else {
        let e3 = ExecModel {
            to_execute: Some(with_more_args(te, w.subrange(6, w.len() as int))),
            ..e2
        };
        assert(w[5] == "ARGS"@);
        assert(w.subrange(6, w.len() as int) =~= args);
        assert(exec_scan(w, 5, e2) == Ok::<ExecModel, u32>(e3));
        assert(Seq::<Seq<char>>::empty() + args =~= args);
        assert(e3 == ExecModel { now: true, no_header: false, ..m });
    }
}

/// `READ_ONLY` is that keyword and no keyword tested before it.
proof fn lemma_read_only_keyword()
    ensures
        matches_keyword("READ_ONLY"@, "READ_ONLY"@),
        !matches_keyword("READ_ONLY"@, "COMMAND"@),
        !matches_keyword("READ_ONLY"@, "STATEMENT"@),
{
    reveal_strlit("READ_ONLY");
    reveal_strlit("COMMAND");
    reveal_strlit("STATEMENT");
    assert(crate::text::ascii_upper_code("READ_ONLY"@[0]) != "STATEMENT"@[0] as u32);
}

/// Reading the options from a read-only state gives what reading them from
/// the same state gives, made read-only.
proof fn lemma_scan_from_read_only(v: Seq<Seq<char>>, i: int, e: ExecModel)
    ensures
        exec_scan(v, i, ExecModel { read_only: true, ..e }) == match exec_scan(v, i, e) {
            Ok(m) => Ok(ExecModel { read_only: true, ..m }),
            Err(c) => Err(c),
        },
    decreases v.len() - i,
{
    let r = ExecModel { read_only: true, ..e };
    if i < v.len() {
        let a = v[i];
        if matches_keyword(a, "COMMAND"@) {
            if e.to_execute is None && i + 1 < v.len() {
                let t = Some(ToExecuteModel::Command { query: v[i + 1], args: Seq::empty() });
                lemma_scan_from_read_only(v, i + 2, ExecModel { to_execute: t, ..e });
                assert(ExecModel { to_execute: t, ..r } == ExecModel {
                    read_only: true,
                    ..ExecModel { to_execute: t, ..e }
                });
            }
        } else if matches_keyword(a, "STATEMENT"@) {
            if e.to_execute is None && i + 1 < v.len() {
                let t = Some(ToExecuteModel::Statement { stmt: v[i + 1], args: Seq::empty() });
                lemma_scan_from_read_only(v, i + 2, ExecModel { to_execute: t, ..e });
                assert(ExecModel { to_execute: t, ..r } == ExecModel {
                    read_only: true,
                    ..ExecModel { to_execute: t, ..e }
                });
            }
        } else if matches_keyword(a, "READ_ONLY"@) {
            lemma_scan_from_read_only(v, i + 1, ExecModel { read_only: true, ..e });
        } else if matches_keyword(a, "NOW"@) {
            lemma_scan_from_read_only(v, i + 1, ExecModel { now: true, ..e });
            assert(ExecModel { now: true, ..r } == ExecModel {
                read_only: true,
                ..ExecModel { now: true, ..e }
            });
        } else if matches_keyword(a, "INTO"@) {
            if i + 1 < v.len() {
                lemma_scan_from_read_only(v, i + 2, ExecModel { into: Some(v[i + 1]), ..e });
                assert(ExecModel { into: Some(v[i + 1]), ..r } == ExecModel {
                    read_only: true,
                    ..ExecModel { into: Some(v[i + 1]), ..e }
                });
            }
        } else if matches_keyword(a, "NO_HEADER"@) {
            lemma_scan_from_read_only(v, i + 1, ExecModel { no_header: true, ..e });
            assert(ExecModel { no_header: true, ..r } == ExecModel {
                read_only: true,
                ..ExecModel { no_header: true, ..e }
            });
        } else if matches_keyword(a, "ARGS"@) {
        } else {
            lemma_scan_from_read_only(v, i + 1, e);
        }
    }
}

/// Reading the options of `v` with one more argument put right after the
/// database: from the shifted position, it is reading those of `v`.
proof fn lemma_scan_with_inserted(v: Seq<Seq<char>>, x: Seq<char>, i: int, e: ExecModel)
    requires
        2 <= i <= v.len(),
    ensures
        exec_scan(v.take(2) + seq![x] + v.skip(2), i + 1, e) == exec_scan(v, i, e),
    decreases v.len() - i,
{
    let w = v.take(2) + seq![x] + v.skip(2);
    assert(w.len() == v.len() + 1);
    assert forall|k: int| 2 <= k < v.len() implies w[k + 1] == v[k] by {}
    if i < v.len() {
        let a = v[i];
        assert(w[i + 1] == a);
        if i + 1 < v.len() {
            assert(w[i + 2] == v[i + 1]);
        }
        if matches_keyword(a, "COMMAND"@) {
            if e.to_execute is None && i + 1 < v.len() {
                lemma_scan_with_inserted(
                    v,
                    x,
                    i + 2,
                    ExecModel {
                        to_execute: Some(
                            ToExecuteModel::Command { query: v[i + 1], args: Seq::empty() },
                        ),
                        ..e
                    },
                );
            }
        } else if matches_keyword(a, "STATEMENT"@) {
            if e.to_execute is None && i + 1 < v.len() {
                lemma_scan_with_inserted(
                    v,
                    x,
                    i + 2,
                    ExecModel {
                        to_execute: Some(
                            ToExecuteModel::Statement { stmt: v[i + 1], args: Seq::empty() },
                        ),
                        ..e
                    },
                );
            }
        } else if matches_keyword(a, "READ_ONLY"@) {
            lemma_scan_with_inserted(v, x, i + 1, ExecModel { read_only: true, ..e });
        } else if matches_keyword(a, "NOW"@) {
            lemma_scan_with_inserted(v, x, i + 1, ExecModel { now: true, ..e });
        } else if matches_keyword(a, "INTO"@) {
            if i + 1 < v.len() {
                lemma_scan_with_inserted(v, x, i + 2, ExecModel { into: Some(v[i + 1]), ..e });
            }
        } else if matches_keyword(a, "NO_HEADER"@) {
            lemma_scan_with_inserted(v, x, i + 1, ExecModel { no_header: true, ..e });
        } else if matches_keyword(a, "ARGS"@) {
            assert(w.subrange(i + 2, w.len() as int) =~= v.subrange(i + 1, v.len() as int));
        } else {
            lemma_scan_with_inserted(v, x, i + 1, e);
        }
    }
}

/// Reading the options of `v` with one more argument at its end, when no
/// argument of `v` from `i` on is `ARGS` and reading `v` succeeds: `v` is
/// read first, then the last argument.
proof fn lemma_scan_with_appended(v: Seq<Seq<char>>, x: Seq<char>, i: int, e: ExecModel)
    requires
        2 <= i <= v.len(),
        exec_scan(v, i, e) is Ok,
        forall|j: int| i <= j < v.len() ==> !matches_keyword(#[trigger] v[j], "ARGS"@),
    ensures
        exec_scan(v.push(x), i, e) == exec_scan(v.push(x), v.len() as int, exec_scan(v, i, e)->Ok_0),
    decreases v.len() - i,
{
    let w = v.push(x);
    if i < v.len() {
        let a = v[i];
        assert(w[i] == a);
        if i + 1 < v.len() {
            assert(w[i + 1] == v[i + 1]);
        }
        assert(!matches_keyword(v[i], "ARGS"@));
        if matches_keyword(a, "COMMAND"@) {
            lemma_scan_with_appended(
                v,
                x,
                i + 2,
                ExecModel {
                    to_execute: Some(ToExecuteModel::Command { query: v[i + 1], args: Seq::empty() }),
                    ..e
                },
            );
        } else if matches_keyword(a, "STATEMENT"@) {
            lemma_scan_with_appended(
                v,
                x,
                i + 2,
                ExecModel {
                    to_execute: Some(ToExecuteModel::Statement { stmt: v[i + 1], args: Seq::empty() }),
                    ..e
                },
            );
        } else if matches_keyword(a, "READ_ONLY"@) {
            lemma_scan_with_appended(v, x, i + 1, ExecModel { read_only: true, ..e });
        } else if matches_keyword(a, "NOW"@) {
            lemma_scan_with_appended(v, x, i + 1, ExecModel { now: true, ..e });
        } else if matches_keyword(a, "INTO"@) {
            lemma_scan_with_appended(v, x, i + 2, ExecModel { into: Some(v[i + 1]), ..e });
        } else if matches_keyword(a, "NO_HEADER"@) {
            lemma_scan_with_appended(v, x, i + 1, ExecModel { no_header: true, ..e });
        } else {
            lemma_scan_with_appended(v, x, i + 1, e);
        }
    }
}

/// `READ_ONLY` makes an `EXEC` read-only wherever it stands among the
/// options: put right after the database, before `COMMAND` or `STATEMENT`,
/// it turns any command that parses into the same command made read-only.
pub proof fn law_read_only_first(v: Seq<Seq<char>>)
    requires
        v.len() >= 2,
        exec_parse(v) is Ok,
    ensures
        exec_parse(v.take(2) + seq!["READ_ONLY"@] + v.skip(2)) == Ok::<ExecModel, u32>(
            ExecModel { read_only: true, ..exec_parse(v)->Ok_0 },
        ),
{
    let w = v.take(2) + seq!["READ_ONLY"@] + v.skip(2);
    lemma_read_only_keyword();
    assert(w[1] == v[1]);
    assert(w[2] == "READ_ONLY"@);
    let e0 = exec_start(v[1]);
    assert(exec_scan(w, 2, e0) == exec_scan(w, 3, ExecModel { read_only: true, ..e0 }));
    lemma_scan_with_inserted(v, "READ_ONLY"@, 2, ExecModel { read_only: true, ..e0 });
    lemma_scan_from_read_only(v, 2, e0);
}

/// Put after the other options (of a command without `ARGS`), `READ_ONLY`
/// turns any command that parses into the same command made read-only.
pub proof fn law_read_only_last(v: Seq<Seq<char>>)
    requires
        v.len() >= 2,
        exec_parse(v) is Ok,
        forall|j: int| 2 <= j < v.len() ==> !matches_keyword(#[trigger] v[j], "ARGS"@),
    ensures
        exec_parse(v.push("READ_ONLY"@)) == Ok::<ExecModel, u32>(
            ExecModel { read_only: true, ..exec_parse(v)->Ok_0 },
        ),
{
    let w = v.push("READ_ONLY"@);
    lemma_read_only_keyword();
    assert(w[1] == v[1]);
    let e0 = exec_start(v[1]);
    lemma_scan_with_appended(v, "READ_ONLY"@, 2, e0);
    let m = exec_scan(v, 2, e0)->Ok_0;
    assert(w[v.len() as int] == "READ_ONLY"@);
    assert(exec_scan(w, v.len() as int, m) == exec_scan(
        w,
        v.len() + 1int,
        ExecModel { read_only: true, ..m },
    ));
}

/// Where an `EXEC` is carried out.
pub enum ExecRoute {
    /// Handed to the worker of the database, and replicated with
    /// `replicate_args` once sent.
    Worker,
    /// At once: a query that only reads.
    Query,
    /// At once: a query that may write.
    Execute,
    /// At once: a stored statement that only reads.
    QueryStatement,
    /// At once: a stored statement that may write.
    ExecStatement,
}

impl ExecRoute {
    /// Only an immediate query that may write, and that succeeded, is
    /// replicated as it was received.
    pub fn replicates_verbatim(&self, succeeded: bool) -> (b: bool)
        ensures
            b == (*self is Execute && succeeded),
    {
        match self {
            ExecRoute::Execute => succeeded,
            _ => false,
        }
    }
}

impl Exec<'static> {
    /// The fields of the command, as the runtime reads them.
    pub closed spec fn spec_into(&self) -> Option<&'static str> {
        self.into
    }

    pub closed spec fn spec_to_execute(&self) -> Option<ToExecute<'static>> {
        self.to_execute
    }

    pub proof fn lemma_fields(&self)
        ensures
            opt_view(self.spec_into()) == self@.into,
            match self.spec_to_execute() {
                Some(t) => self@.to_execute == Some(t@),
                None => self@.to_execute is None,
            },
    {
    }

    /// The unit of work for the database's worker: a query (read only) or an
    /// execution, of a query or of a stored statement.
    pub fn get_command(self, timeout: std::time::Instant, client: BlockedClient) -> (c: Command)
        requires
            self.spec_to_execute() is Some,
        ensures
            ({
                let rm = return_method_of(self.spec_into(), self@.no_header);
                match self.spec_to_execute()->Some_0 {
                    ToExecute::Command { query, args } => if self@.read_only {
                        c == (Command::Query {
                            query,
                            arguments: args,
                            timeout,
                            return_method: rm,
                            client,
                        })
                    } else {
                        c == (Command::Exec {
                            query,
                            arguments: args,
                            timeout,
                            return_method: rm,
                            client,
                        })
                    },
                    ToExecute::Statement { stmt, args } => if self@.read_only {
                        c == (Command::QueryStatement {
                            identifier: stmt,
                            arguments: args,
                            timeout,
                            return_method: rm,
                            client,
                        })
                    } else {
                        c == (Command::ExecStatement {
                            identifier: stmt,
                            arguments: args,
                            timeout,
                            return_method: rm,
                            client,
                        })
                    },
                }
            }),
    {
        let return_method = self.get_return_method();
        let read_only = self.read_only;
        match self.to_execute {
            Some(ToExecute::Command { query, args }) => {
                if read_only {
                    Command::Query { query, arguments: args, timeout, return_method, client }
                } else {
                    Command::Exec { query, arguments: args, timeout, client, return_method }
                }
            },
            Some(ToExecute::Statement { stmt, args }) => {
                if read_only {
                    Command::QueryStatement {
                        identifier: stmt,
                        arguments: args,
                        timeout,
                        client,
                        return_method,
                    }
                } else {
                    Command::ExecStatement {
                        identifier: stmt,
                        arguments: args,
                        timeout,
                        return_method,
                        client,
                    }
                }
            },
            None => {
                assert(false);
                Command::Stop
            },
        }
    }

    /// An `EXEC` without `NOW` goes to the worker of the database; with
    /// `NOW` it runs at once, as a query when it is read only.
    pub fn route(&self) -> (r: ExecRoute)
        requires
            self@.to_execute is Some,
        ensures
            !self@.now ==> r is Worker,
            self@.now ==> match self@.to_execute->Some_0 {
                ToExecuteModel::Command { .. } => if self@.read_only {
                    r is Query
                } else {
                    r is Execute
                },
                ToExecuteModel::Statement { .. } => if self@.read_only {
                    r is QueryStatement
                } else {
                    r is ExecStatement
                },
            },
    {
        if !self.now {
            return ExecRoute::Worker;
        }
        match &self.to_execute {
            Some(ToExecute::Command { .. }) => if self.read_only {
                ExecRoute::Query
            } else {
                ExecRoute::Execute
            },
            Some(ToExecute::Statement { .. }) => if self.read_only {
                ExecRoute::QueryStatement
            } else {
                ExecRoute::ExecStatement
            },
            None => {
                assert(false);
                ExecRoute::Worker
            },
        }
    }

    pub fn get_return_method(&self) -> (r: ReturnMethod)
        ensures
            r == return_method_of(self.spec_into(), self@.no_header),
    {
        match (self.read_only, self.into, self.no_header) {
            (true, Some(s), false) => ReturnMethod::Stream { name: s },
            (_, Some(s), _) => ReturnMethod::Stream { name: s },
            (_, _, true) => ReturnMethod::Reply,
            (_, _, false) => ReturnMethod::ReplyWithHeader,
        }
    }

    pub fn is_now(&self) -> (b: bool)
        ensures
            b == self@.now,
    {
        self.now
    }

    pub fn get_query(&self) -> (q: Option<&str>)
        ensures
            match self@.to_execute {
                Some(ToExecuteModel::Command { query, .. }) => q is Some && q->Some_0@ == query,
                _ => q is None,
            },
    {
        match &self.to_execute {
            Some(ToExecute::Command { query, .. }) => Some(*query),
            _ => None,
        }
    }

    pub fn get_to_execute(&self) -> (t: &ToExecute<'static>)
        requires
            self@.to_execute is Some,
        ensures
            self@.to_execute == Some(t@),
    {
        self.to_execute.as_ref().unwrap()
    }

    pub fn is_read_only(&self) -> (b: bool)
        ensures
            b == self@.read_only,
    {
        self.read_only
    }

    /// Turns the command into a read-only one (`REDISQL.QUERY`).
    pub fn make_into_query(&mut self)
        ensures
            final(self)@ == (ExecModel { read_only: true, ..old(self)@ }),
            final(self).spec_into() == old(self).spec_into(),
            final(self).spec_to_execute() == old(self).spec_to_execute(),
    {
        self.read_only = true;
    }

    /// The arguments with which Redis replicates this command to its replicas
    /// and to the append-only file: none for a read-only or an immediate
    /// command, else the same command marked `NOW`.
    pub fn replicate_args(&self) -> (r: Option<Vec<&'static str>>)
        requires
            self@.to_execute is Some || self@.read_only || self@.now,
        ensures
            match r {
                Some(v) => replication_of(self@) == Some(args_view(v@)),
                None => replication_of(self@) is None,
            },
    {
        if self.read_only {
            return None;
        }
        if self.now {
            return None;
        }
        let mut v: Vec<&'static str> = Vec::new();
        v.push(self.database);
        v.push("NOW");
        let (t, s, args): (&'static str, &'static str, &Vec<&'static str>) = match &self.to_execute {
            Some(ToExecute::Command { query, args }) => ("COMMAND", *query, args),
            Some(ToExecute::Statement { stmt, args }) => ("STATEMENT", *stmt, args),
            None => {
                assert(false);
                return None;
            },
        };
        v.push(t);
        v.push(s);
        let ghost head = v@;
        assert(args_view(head) =~= seq![self@.database, "NOW"@, t@, s@]);
        if args.len() > 0 {
            v.push("ARGS");
            let mut j: usize = 0;
            while j < args.len()
                invariant
                    j <= args.len(),
                    args_view(v@) == args_view(head) + seq!["ARGS"@] + args_view(args@.take(
                        j as int,
                    )),
                decreases args.len() - j,
            {
                proof {
                    lemma_args_view_push(v@, args[j as int]);
                    assert(args@.take(j + 1) == args@.take(j as int).push(args[j as int]));
                    lemma_args_view_push(args@.take(j as int), args[j as int]);
                }
                v.push(args[j]);
                j = j + 1;
            }
            assert(args@.take(args.len() as int) == args@);
        }
        proof {
            let e = self@;
            match e.to_execute {
                Some(ToExecuteModel::Command { query, args: a }) => {
                    assert(a == args_view(args@));
                },
                Some(ToExecuteModel::Statement { stmt, args: a }) => {
                    assert(a == args_view(args@));
                },
                None => {},
            }
            if args.len() == 0 {
                assert(args_view(args@) =~= Seq::<Seq<char>>::empty());
            }
            assert(args_view(v@) =~= replication_of(e)->Some_0);
        }
        Some(v)
    }
}

impl<'s> CommandV2<'s> for Exec<'s> {
    fn parse(args: Vec<&'s str>) -> (r: Result<Self, RediSQLError>)
        ensures
            match exec_parse(args_view(args@)) {
                Ok(m) => r is Ok && r->Ok_0@ == m,
                Err(c) => r is Err && r->Err_0@ == coded(c),
            },
    {
        let ghost v = args_view(args@);
        let n = args.len();
        if n < 2 {
            return Err(RediSQLError::no_database_name());
        }
        let database = args[1];
        let mut exec = Exec {
            database,
            connection: None,
            into: None,
            read_only: false,
            now: false,
            no_header: false,
            to_execute: None,
        };
        assert(exec@ == exec_start(v[1]));
        let mut i: usize = 2;
        while i < n
            invariant_except_break
                2 <= i <= n,
                n == args.len(),
                v == args_view(args@),
                v.len() == n,
                exec_scan(v, 2, exec_start(v[1])) == exec_scan(v, i as int, exec@),
            ensures
                n == args.len(),
                v == args_view(args@),
                exec_scan(v, 2, exec_start(v[1])) == Ok::<ExecModel, u32>(exec@),
            decreases n - i,
        {
            let arg = args[i];
            assert(arg@ == v[i as int]);
            if is_keyword(arg, "COMMAND") {
                match exec.to_execute {
                    Some(ToExecute::Statement { .. }) => {
                        return Err(RediSQLError::both_statement_and_query());
                    },
                    Some(ToExecute::Command { .. }) => {
                        return Err(RediSQLError::numbered(13));
                    },
                    None => {
                        if i + 1 >= n {
                            return Err(RediSQLError::numbered(9));
                        }
                        let query = args[i + 1];
                        exec.to_execute = Some(ToExecute::Command { query, args: Vec::new() });
                        proof {
                            assert(args_view(Seq::<&str>::empty()) =~= Seq::<Seq<char>>::empty());
                        }
                        i = i + 2;
                    },
                }
            } else if is_keyword(arg, "STATEMENT") {
                match exec.to_execute {
                    Some(ToExecute::Command { .. }) => {
                        return Err(RediSQLError::both_statement_and_query());
                    },
                    Some(ToExecute::Statement { .. }) => {
                        return Err(RediSQLError::numbered(14));
                    },
                    None => {
                        if i + 1 >= n {
                            return Err(RediSQLError::numbered(10));
                        }
                        let stmt = args[i + 1];
                        exec.to_execute = Some(ToExecute::Statement { stmt, args: Vec::new() });
                        proof {
                            assert(args_view(Seq::<&str>::empty()) =~= Seq::<Seq<char>>::empty());
                        }
                        i = i + 2;
                    },
                }
            } else if is_keyword(arg, "READ_ONLY") {
                exec.read_only = true;
                i = i + 1;
            } else if is_keyword(arg, "NOW") {
                exec.now = true;
                i = i + 1;
            } else if is_keyword(arg, "INTO") {
                if i + 1 >= n {
                    return Err(RediSQLError::numbered(11));
                }
                exec.into = Some(args[i + 1]);
                i = i + 2;
            } else if is_keyword(arg, "NO_HEADER") {
                exec.no_header = true;
                i = i + 1;
            } else if is_keyword(arg, "ARGS") {
                let old_to_execute = exec.to_execute.take();
                match old_to_execute {
                    None => {
                        return Err(RediSQLError::numbered(24));
                    },
                    Some(te) => {
                        let ghost old_view = te@;
                        let (is_command, target, mut collected): (bool, &'s str, Vec<&'s str>) =
                            match te {
                            ToExecute::Command { query, args: a } => (true, query, a),
                            ToExecute::Statement { stmt, args: a } => (false, stmt, a),
                        };
                        let ghost start = collected@;
                        let mut j: usize = i + 1;
                        while j < n
                            invariant
                                i + 1 <= j <= n,
                                n == args.len(),
                                v == args_view(args@),
                                v.len() == n,
                                args_view(collected@) == args_view(start) + v.subrange(
                                    i + 1,
                                    j as int,
                                ),
                            decreases n - j,
                        {
                            proof {
                                lemma_args_view_push(collected@, args[j as int]);
                                assert(v.subrange(i + 1, j + 1) =~= v.subrange(
                                    i + 1,
                                    j as int,
                                ).push(v[j as int]));
                            }
                            collected.push(args[j]);
                            j = j + 1;
                        }
                        exec.to_execute = if is_command {
                            Some(ToExecute::Command { query: target, args: collected })
                        } else {
                            Some(ToExecute::Statement { stmt: target, args: collected })
                        };
                        proof {
                            assert(exec@.to_execute == Some(
                                with_more_args(old_view, v.subrange(i + 1, n as int)),
                            ));
                        }
                        break ;
                    },
                }
            } else {
                i = i + 1;
            }
        }
        let ghost m = exec@;
        if exec.to_execute.is_none() {
            return Err(RediSQLError::numbered(24));
        }
        if exec.into.is_some() && exec.no_header {
            return Err(RediSQLError::numbered(16));
        }
        if exec.into.is_some() && !exec.read_only {
            return Err(RediSQLError::numbered(17));
        }
        Ok(exec)
    }

    fn database(&self) -> (d: &str)
        ensures
            d@ == self@.database,
    {
        self.database
    }
}

} // verus!
