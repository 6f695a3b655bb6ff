//! `REDISQL.STATEMENT db (NEW | UPDATE | DELETE | SHOW | LIST) [name]
//! [query] [NOW] [CAN_UPDATE] [CAN_CREATE]`.
use vstd::prelude::*;

use crate::parser::common::{args_view, opt_view, CommandV2};
use crate::redis::{BlockedClient, Command, ReturnMethod};
use crate::redisql_error::{coded, RediSQLError};
use crate::text::{is_keyword, matches_keyword};

verus! {

#[derive(Debug, Clone, Copy, PartialEq, Eq, Structural)]
pub enum Action {
    Delete,
    Update,
    New,
    Show,
    List,
}

#[derive(Debug, Clone)]
pub struct Statement<'s> {
    database: &'s str,
    action: Action,
    stmt_name: Option<&'s str>,
    stmt_query: Option<&'s str>,
    now: bool,
    can_update: bool,
    can_create: bool,
}

/// The content of a parsed `STATEMENT` command.
pub struct StatementModel {
    pub database: Seq<char>,
    pub action: Action,
    pub stmt_name: Option<Seq<char>>,
    pub stmt_query: Option<Seq<char>>,
    pub now: bool,
    pub can_update: bool,
    pub can_create: bool,
}

impl<'s> View for Statement<'s> {
    type V = StatementModel;

    closed spec fn view(&self) -> StatementModel {
        StatementModel {
            database: self.database@,
            action: self.action,
            stmt_name: opt_view(self.stmt_name),
            stmt_query: opt_view(self.stmt_query),
            now: self.now,
            can_update: self.can_update,
            can_create: self.can_create,
        }
    }
}

/// The action named by an argument, if any.
pub open spec fn action_of(a: Seq<char>) -> Option<Action> {
    if matches_keyword(a, "DELETE"@) {
        Some(Action::Delete)
    } else if matches_keyword(a, "UPDATE"@) {
        Some(Action::Update)
    } else if matches_keyword(a, "NEW"@) {
        Some(Action::New)
    } else if matches_keyword(a, "SHOW"@) {
        Some(Action::Show)
    } else if matches_keyword(a, "LIST"@) {
        Some(Action::List)
    } else {
        None
    }
}

/// Some argument from `from` on is the flag `kw`.
pub open spec fn has_flag(v: Seq<Seq<char>>, from: int, kw: Seq<char>) -> bool {
    exists|j: int| from <= j < v.len() && matches_keyword(#[trigger] v[j], kw)
}

/// Every action but `LIST` names a statement.
pub open spec fn needs_name(a: Action) -> bool {
    a != Action::List
}

/// `NEW` and `UPDATE` carry the statement's query.
pub open spec fn needs_query(a: Action) -> bool {
    a == Action::Update || a == Action::New
}

/// The flags of a `STATEMENT` start after its action, its name and its query.
pub open spec fn flags_start(a: Action) -> int {
    3 + (if needs_name(a) {
        1int
    } else {
        0int
    }) + (if needs_query(a) {
        1int
    } else {
        0int
    })
}

/// What `STATEMENT` makes of its arguments: the command, or the code of the
/// error.
pub open spec fn statement_parse(v: Seq<Seq<char>>) -> Result<StatementModel, u32> {
    if v.len() < 2 {
        Err(1)
    } else if v.len() < 3 {
        Err(18)
    } else {
        match action_of(v[2]) {
            None => Err(23),
            Some(action) => if needs_name(action) && v.len() < 4 {
                Err(19)
            } else if needs_query(action) && v.len() < 5 {
                Err(20)
            } else {
                let k = flags_start(action);
                let m = StatementModel {
                    database: v[1],
                    action,
                    stmt_name: if needs_name(action) {
                        Some(v[3])
                    } else {
                        None
                    },
                    stmt_query: if needs_query(action) {
                        Some(v[4])
                    } else {
                        None
                    },
                    now: has_flag(v, k, "NOW"@),
                    can_update: has_flag(v, k, "CAN_UPDATE"@),
                    can_create: has_flag(v, k, "CAN_CREATE"@),
                };
                if m.can_update && action != Action::New {
                    Err(21)
                } else if m.can_create && action != Action::Update {
                    Err(22)
                } else {
                    Ok(m)
                }
            },
        }
    }
}

/// The name and the query are there whenever the action needs them.
pub open spec fn statement_well_formed(m: StatementModel) -> bool {
    &&& needs_name(m.action) ==> m.stmt_name is Some
    &&& needs_query(m.action) ==> m.stmt_query is Some
}

/// A parsed `STATEMENT` has the name and the query its action needs, and
/// they are where the command puts them for every action: the name right
/// after the action, the query right after the name. Its flags fit its
/// action: `CAN_UPDATE` only for `NEW`, `CAN_CREATE` only
/// for `UPDATE`.
pub proof fn law_parsed_statement_is_complete(v: Seq<Seq<char>>)
    requires
        statement_parse(v) is Ok,
    ensures
        ({
            let m = statement_parse(v)->Ok_0;
            &&& statement_well_formed(m)
            &&& m.can_update ==> m.action == Action::New
            &&& m.can_create ==> m.action == Action::Update
            &&& m.database == v[1]
            &&& action_of(v[2]) == Some(m.action)
            &&& m.action != Action::List ==> m.stmt_name == Some(v[3])
            &&& m.action == Action::List ==> m.stmt_name is None
            &&& (m.action == Action::New || m.action == Action::Update) ==> m.stmt_query == Some(
                v[4],
            )
            &&& (m.action != Action::New && m.action != Action::Update) ==> m.stmt_query is None
        }),
{
}

impl Statement<'static> {
    pub closed spec fn spec_name(&self) -> Option<&'static str> {
        self.stmt_name
    }

    pub closed spec fn spec_query(&self) -> Option<&'static str> {
        self.stmt_query
    }

    pub proof fn lemma_fields(&self)
        ensures
            opt_view(self.spec_name()) == self@.stmt_name,
            opt_view(self.spec_query()) == self@.stmt_query,
    {
    }

    /// The unit of work for the database's worker.
    pub fn get_command(self, client: BlockedClient) -> (c: Command)
        requires
            statement_well_formed(self@),
        ensures
            c == match self@.action {
                Action::Delete => Command::DeleteStatement {
                    identifier: self.spec_name()->Some_0,
                    client,
                },
                Action::Update => Command::UpdateStatement {
                    identifier: self.spec_name()->Some_0,
                    statement: self.spec_query()->Some_0,
                    can_create: self@.can_create,
                    client,
                },
                Action::New => Command::CompileStatement {
                    identifier: self.spec_name()->Some_0,
                    statement: self.spec_query()->Some_0,
                    can_update: self@.can_update,
                    client,
                },
                Action::Show => Command::ShowStatement {
                    identifier: self.spec_name()->Some_0,
                    return_method: ReturnMethod::ReplyWithHeader,
                    client,
                },
                Action::List => Command::ListStatements {
                    return_method: ReturnMethod::ReplyWithHeader,
                    client,
                },
            },
    {
        match self.action {
            Action::Delete => Command::DeleteStatement {
                identifier: self.stmt_name.unwrap(),
                client,
            },
            Action::Update => Command::UpdateStatement {
                identifier: self.stmt_name.unwrap(),
                statement: self.stmt_query.unwrap(),
                can_create: self.can_create,
                client,
            },
            Action::New => Command::CompileStatement {
                identifier: self.stmt_name.unwrap(),
                statement: self.stmt_query.unwrap(),
                can_update: self.can_update,
                client,
            },
            Action::Show => Command::ShowStatement {
                identifier: self.stmt_name.unwrap(),
                return_method: ReturnMethod::ReplyWithHeader,
                client,
            },
            Action::List => Command::ListStatements {
                return_method: ReturnMethod::ReplyWithHeader,
                client,
            },
        }
    }

    pub fn is_now(&self) -> (b: bool)
        ensures
            b == self@.now,
    {
        self.now
    }

    pub fn get_action(&self) -> (a: Action)
        ensures
            a == self@.action,
    {
        self.action
    }

    pub fn identifier(&self) -> (s: &'static str)
        requires
            self@.stmt_name is Some,
        ensures
            Some(s@) == self@.stmt_name,
    {
        self.stmt_name.unwrap()
    }

    pub fn statement(&self) -> (s: &'static str)
        requires
            self@.stmt_query is Some,
        ensures
            Some(s@) == self@.stmt_query,
    {
        self.stmt_query.unwrap()
    }

    pub fn can_update(&self) -> (b: bool)
        ensures
            b == self@.can_update,
    {
        self.can_update
    }

    pub fn can_create(&self) -> (b: bool)
        ensures
            b == self@.can_create,
    {
        self.can_create
    }
}

impl<'s> CommandV2<'s> for Statement<'s> {
    fn parse(args: Vec<&'s str>) -> (r: Result<Self, RediSQLError>)
        ensures
            match statement_parse(args_view(args@)) {
                Ok(m) => r is Ok && r->Ok_0@ == m && statement_well_formed(m),
                Err(c) => r is Err && r->Err_0@ == coded(c),
            },
    {
        let ghost v = args_view(args@);
        let n = args.len();
        if n < 2 {
            return Err(RediSQLError::no_database_name());
        }
        let database = args[1];
        if n < 3 {
            return Err(RediSQLError::numbered(18));
        }
        let a = args[2];
        assert(a@ == v[2]);
        let action = if is_keyword(a, "DELETE") {
            Action::Delete
        } else if is_keyword(a, "UPDATE") {
            Action::Update
        } else if is_keyword(a, "NEW") {
            Action::New
        } else if is_keyword(a, "SHOW") {
            Action::Show
        } else if is_keyword(a, "LIST") {
            Action::List
        } else {
            return Err(RediSQLError::numbered(23));
        };
        let mut k: usize = 3;
        let stmt_name = match action {
            Action::List => None,
            _ => {
                if n < 4 {
                    return Err(RediSQLError::numbered(19));
                }
                k = 4;
                Some(args[3])
            },
        };
        let stmt_query = match action {
            Action::Update | Action::New => {
                if n < 5 {
                    return Err(RediSQLError::numbered(20));
                }
                k = 5;
                Some(args[4])
            },
            _ => None,
        };
        assert(k == flags_start(action));
        let mut command = Statement {
            database,
            action,
            stmt_name,
            stmt_query,
            now: false,
            can_update: false,
            can_create: false,
        };
        let mut i: usize = k;
        while i < n
            invariant
                k <= i <= n,
                n == args.len(),
                v == args_view(args@),
                v.len() == n,
                command.now == has_flag(v.subrange(0, i as int), k as int, "NOW"@),
                command.can_update == has_flag(v.subrange(0, i as int), k as int, "CAN_UPDATE"@),
                command.can_create == has_flag(v.subrange(0, i as int), k as int, "CAN_CREATE"@),
                command.database@ == v[1],
                command.action == action,
                opt_view(command.stmt_name) == (if needs_name(action) {
                    Some(v[3])
                } else {
                    None
                }),
                opt_view(command.stmt_query) == (if needs_query(action) {
                    Some(v[4])
                } else {
                    None
                }),
            decreases n - i,
        {
            let arg = args[i];
            assert(arg@ == v[i as int]);
            let ghost p = v.subrange(0, i as int);
            let ghost q = v.subrange(0, i + 1);
            assert(q[i as int] == arg@);
            assert(forall|j: int| 0 <= j < i ==> p[j] == q[j]);
            if is_keyword(arg, "NOW") {
                command.now = true;
            }
            if is_keyword(arg, "CAN_UPDATE") {
                command.can_update = true;
            }
            if is_keyword(arg, "CAN_CREATE") {
                command.can_create = true;
            }
            proof {
                assert(has_flag(q, k as int, "NOW"@) == (has_flag(p, k as int, "NOW"@)
                    || matches_keyword(arg@, "NOW"@)));
                assert(has_flag(q, k as int, "CAN_UPDATE"@) == (has_flag(p, k as int, "CAN_UPDATE"@)
                    || matches_keyword(arg@, "CAN_UPDATE"@)));
                assert(has_flag(q, k as int, "CAN_CREATE"@) == (has_flag(p, k as int, "CAN_CREATE"@)
                    || matches_keyword(arg@, "CAN_CREATE"@)));
            }
            i = i + 1;
        }
        assert(v.subrange(0, n as int) =~= v);
        let can_update_ok = match command.action {
            Action::New => true,
            _ => !command.can_update,
        };
        if !can_update_ok {
            return Err(RediSQLError::numbered(21));
        }
        let can_create_ok = match command.action {
            Action::Update => true,
            _ => !command.can_create,
        };
        if !can_create_ok {
            return Err(RediSQLError::numbered(22));
        }
        Ok(command)
    }

    fn database(&self) -> (d: &str)
        ensures
            d@ == self@.database,
    {
        self.database
    }
}

} // verus!
