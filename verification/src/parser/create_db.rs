//! `REDISQL.CREATE_DB db [path] [PATH path] [CAN_EXISTS | MUST_CREATE]`.
use vstd::prelude::*;

use crate::parser::common::{args_view, opt_view, CommandV2};
use crate::redisql_error::{coded, RediSQLError};
use crate::text::{is_keyword, matches_keyword};

verus! {

#[derive(Debug, Clone)]
pub struct CreateDB<'s> {
    name: &'s str,
    pub path: Option<&'s str>,
    pub can_exists: bool,
}

/// The content of a parsed `CREATE_DB` command.
pub struct CreateDBModel {
    pub name: Seq<char>,
    pub path: Option<Seq<char>>,
    pub can_exists: bool,
}

impl<'s> View for CreateDB<'s> {
    type V = CreateDBModel;

    closed spec fn view(&self) -> CreateDBModel {
        CreateDBModel { name: self.name@, path: opt_view(self.path), can_exists: self.can_exists }
    }
}

/// `CAN_EXISTS`, also accepted as `CAN_EXIST`.
pub open spec fn is_can_exists(a: Seq<char>) -> bool {
    matches_keyword(a, "CAN_EXISTS"@) || matches_keyword(a, "CAN_EXIST"@)
}

/// The keywords of `CREATE_DB`.
pub open spec fn is_create_db_keyword(a: Seq<char>) -> bool {
    matches_keyword(a, "PATH"@) || is_can_exists(a) || matches_keyword(a, "MUST_CREATE"@)
}

/// Reads the options from argument `i` on; besides the command it tells
/// whether `CAN_EXISTS` and `MUST_CREATE` were met.
pub open spec fn create_db_scan(
    v: Seq<Seq<char>>,
    i: int,
    c: CreateDBModel,
    can_flag: bool,
    must_flag: bool,
) -> Result<(CreateDBModel, bool, bool), u32>
    decreases v.len() - i,
{
    if i >= v.len() {
        Ok((c, can_flag, must_flag))
    } else if matches_keyword(v[i], "PATH"@) {
        if i + 1 >= v.len() {
            Err(2)
        } else {
            create_db_scan(v, i + 2, CreateDBModel { path: Some(v[i + 1]), ..c }, can_flag, must_flag)
        }
    } else if is_can_exists(v[i]) {
        create_db_scan(v, i + 1, CreateDBModel { can_exists: true, ..c }, true, must_flag)
    } else if matches_keyword(v[i], "MUST_CREATE"@) {
        create_db_scan(v, i + 1, CreateDBModel { can_exists: false, ..c }, can_flag, true)
    } else {
        create_db_scan(v, i + 1, c, can_flag, must_flag)
    }
}

/// Whether the argument after the database is its path, given in place
/// (`CREATE_DB db path`): it is when it is no keyword.
pub open spec fn has_path_in_place(v: Seq<Seq<char>>) -> bool {
    v.len() > 2 && !is_create_db_keyword(v[2])
}

/// The command before its options are read: the database, and the path
/// given in place, if any.
pub open spec fn create_db_start(v: Seq<Seq<char>>) -> CreateDBModel {
    CreateDBModel {
        name: v[1],
        path: if has_path_in_place(v) {
            Some(v[2])
        } else {
            None
        },
        can_exists: true,
    }
}

/// What `CREATE_DB` makes of its arguments: the command, or the code of the
/// error.
pub open spec fn create_db_parse(v: Seq<Seq<char>>) -> Result<CreateDBModel, u32> {
    if v.len() < 2 {
        Err(1)
    } else {
        match create_db_scan(
            v,
            if has_path_in_place(v) {
                3
            } else {
                2
            },
            create_db_start(v),
            false,
            false,
        ) {
            Err(c) => Err(c),
            Ok((c, can_flag, must_flag)) => if can_flag && must_flag {
                Err(3)
            } else {
                Ok(c)
            },
        }
    }
}

/// Some argument from `i` on is `kw`.
pub open spec fn has_keyword_from(v: Seq<Seq<char>>, i: int, kw: Seq<char>) -> bool {
    exists|j: int| i <= j < v.len() && matches_keyword(#[trigger] v[j], kw)
}

proof fn lemma_scan_without_path(
    v: Seq<Seq<char>>,
    i: int,
    c: CreateDBModel,
    can_flag: bool,
    must_flag: bool,
)
    requires
        0 <= i <= v.len(),
        !has_keyword_from(v, i, "PATH"@),
    ensures
        ({
            let must = has_keyword_from(v, i, "MUST_CREATE"@);
            let can = has_keyword_from(v, i, "CAN_EXISTS"@) || has_keyword_from(v, i, "CAN_EXIST"@);
            let r = create_db_scan(v, i, c, can_flag, must_flag);
            &&& r is Ok
            &&& r->Ok_0.0.name == c.name
            &&& r->Ok_0.0.path == c.path
            &&& r->Ok_0.2 == (must_flag || must)
            &&& r->Ok_0.1 == (can_flag || can)
            &&& !must ==> r->Ok_0.0.can_exists == (c.can_exists || can)
            &&& must && !can ==> !r->Ok_0.0.can_exists
        }),
    decreases v.len() - i,
{
    if i < v.len() {
        assert(!matches_keyword(v[i], "PATH"@));
        assert(!has_keyword_from(v, i + 1, "PATH"@)) by {
            if has_keyword_from(v, i + 1, "PATH"@) {
                let j = choose|j: int| i + 1 <= j < v.len() && matches_keyword(#[trigger] v[j], "PATH"@);
                assert(i <= j);
            }
        }
        let ghost kws = seq!["MUST_CREATE"@, "CAN_EXISTS"@, "CAN_EXIST"@];
        assert forall|t: int| 0 <= t < 3 implies has_keyword_from(v, i, #[trigger] kws[t]) == (
        matches_keyword(v[i], kws[t]) || has_keyword_from(v, i + 1, kws[t])) by {
            if has_keyword_from(v, i, kws[t]) && !matches_keyword(v[i], kws[t]) {
                let j = choose|j: int| i <= j < v.len() && matches_keyword(#[trigger] v[j], kws[t]);
                assert(j != i);
                assert(i + 1 <= j);
            }
            if has_keyword_from(v, i + 1, kws[t]) {
                let j = choose|j: int| i + 1 <= j < v.len() && matches_keyword(#[trigger] v[j], kws[t]);
                assert(i <= j);
            }
        }
        assert(kws[0] == "MUST_CREATE"@ && kws[1] == "CAN_EXISTS"@ && kws[2] == "CAN_EXIST"@);
        reveal_strlit("MUST_CREATE");
        reveal_strlit("CAN_EXISTS");
        reveal_strlit("CAN_EXIST");
        assert(is_can_exists(v[i]) ==> !matches_keyword(v[i], "MUST_CREATE"@));
        if is_can_exists(v[i]) {
            lemma_scan_without_path(v, i + 1, CreateDBModel { can_exists: true, ..c }, true, must_flag);
        } else if matches_keyword(v[i], "MUST_CREATE"@) {
            lemma_scan_without_path(v, i + 1, CreateDBModel { can_exists: false, ..c }, can_flag, true);
        } else {
            lemma_scan_without_path(v, i + 1, c, can_flag, must_flag);
        }
    }
}

/// The flags of a `CREATE_DB` without `PATH`: with both `MUST_CREATE` and
/// `CAN_EXISTS` (or `CAN_EXIST`) it is refused with error 3; else an
/// existing database is accepted exactly when `MUST_CREATE` is not given,
/// and the path is the argument right after the database when that one is
/// no keyword (none otherwise).
pub proof fn law_create_db_without_path_keyword(v: Seq<Seq<char>>)
    requires
        v.len() >= 2,
        !has_keyword_from(v, 2, "PATH"@),
    ensures
        ({
            let must = has_keyword_from(v, 2, "MUST_CREATE"@);
            let can = has_keyword_from(v, 2, "CAN_EXISTS"@) || has_keyword_from(v, 2, "CAN_EXIST"@);
            &&& must && can ==> create_db_parse(v) == Err::<CreateDBModel, u32>(3)
            &&& !(must && can) ==> create_db_parse(v) == Ok::<CreateDBModel, u32>(
                CreateDBModel {
                    name: v[1],
                    path: if v.len() > 2 && !matches_keyword(v[2], "MUST_CREATE"@)
                        && !matches_keyword(v[2], "CAN_EXISTS"@) && !matches_keyword(
                        v[2],
                        "CAN_EXIST"@,
                    ) {
                        Some(v[2])
                    } else {
                        None
                    },
                    can_exists: !must,
                },
            )
        }),
{
    let start: int = if has_path_in_place(v) {
        3
    } else {
        2
    };
    if has_path_in_place(v) {
        assert(!matches_keyword(v[2], "PATH"@));
        let ghost kws = seq!["MUST_CREATE"@, "CAN_EXISTS"@, "CAN_EXIST"@, "PATH"@];
        assert forall|t: int| 0 <= t < 4 implies has_keyword_from(v, 2, #[trigger] kws[t])
            == has_keyword_from(v, 3, kws[t]) by {
            if has_keyword_from(v, 2, kws[t]) {
                let j = choose|j: int| 2 <= j < v.len() && matches_keyword(#[trigger] v[j], kws[t]);
                assert(j != 2);
            }
            if has_keyword_from(v, 3, kws[t]) {
                let j = choose|j: int| 3 <= j < v.len() && matches_keyword(#[trigger] v[j], kws[t]);
                assert(2 <= j);
            }
        }
        assert(kws[0] == "MUST_CREATE"@ && kws[1] == "CAN_EXISTS"@ && kws[2] == "CAN_EXIST"@
            && kws[3] == "PATH"@);
    }
    lemma_scan_without_path(v, start, create_db_start(v), false, false);
}

/// Where the path of a parsed `CREATE_DB` comes from: it is the argument
/// right after the database when that one is no keyword, or the argument
/// that follows a `PATH`; never a flag given on its own.
pub proof fn law_create_db_path_origin(v: Seq<Seq<char>>)
    requires
        create_db_parse(v) is Ok,
    ensures
        ({
            let m = create_db_parse(v)->Ok_0;
            &&& m.name == v[1]
            &&& m.path matches Some(p) ==> ((p == v[2] && !matches_keyword(v[2], "PATH"@)
                && !matches_keyword(v[2], "MUST_CREATE"@) && !matches_keyword(v[2], "CAN_EXISTS"@)
                && !matches_keyword(v[2], "CAN_EXIST"@)) || exists|j: int|
                2 <= j && j + 1 < v.len() && matches_keyword(#[trigger] v[j], "PATH"@) && v[j + 1]
                    == p)
        }),
{
    let start: int = if has_path_in_place(v) {
        3
    } else {
        2
    };
    lemma_scan_path_origin(v, start, create_db_start(v), false, false);
}

proof fn lemma_scan_path_origin(
    v: Seq<Seq<char>>,
    i: int,
    c: CreateDBModel,
    can_flag: bool,
    must_flag: bool,
)
    requires
        2 <= i,
        create_db_scan(v, i, c, can_flag, must_flag) is Ok,
    ensures
        ({
            let r = create_db_scan(v, i, c, can_flag, must_flag)->Ok_0.0;
            &&& r.name == c.name
            &&& r.path == c.path || (r.path matches Some(p) && exists|j: int|
                2 <= j && j + 1 < v.len() && matches_keyword(#[trigger] v[j], "PATH"@) && v[j + 1]
                    == p)
        }),
    decreases v.len() - i,
{
    if i < v.len() {
        if matches_keyword(v[i], "PATH"@) {
            let c2 = CreateDBModel { path: Some(v[i + 1]), ..c };
            lemma_scan_path_origin(v, i + 2, c2, can_flag, must_flag);
        } else if is_can_exists(v[i]) {
            lemma_scan_path_origin(v, i + 1, CreateDBModel { can_exists: true, ..c }, true, must_flag);
        } else if matches_keyword(v[i], "MUST_CREATE"@) {
            lemma_scan_path_origin(v, i + 1, CreateDBModel { can_exists: false, ..c }, can_flag, true);
        } else {
            lemma_scan_path_origin(v, i + 1, c, can_flag, must_flag);
        }
    }
}

impl<'s> CommandV2<'s> for CreateDB<'s> {
    fn parse(args: Vec<&'s str>) -> (r: Result<Self, RediSQLError>)
        ensures
            match create_db_parse(args_view(args@)) {
                Ok(m) => r is Ok && r->Ok_0@ == m,
                Err(c) => r is Err && r->Err_0@ == coded(c),
            },
    {
        let ghost v = args_view(args@);
        let n = args.len();
        if n < 2 {
            return Err(RediSQLError::no_database_name());
        }
        let name = args[1];
        let mut createdb = CreateDB { name, path: None, can_exists: true };
        let mut can_exists_flag = false;
        let mut must_create_flag = false;
        let mut i: usize = 2;
        if n > 2 && !is_keyword(args[2], "PATH") && !is_keyword(args[2], "CAN_EXISTS")
            && !is_keyword(args[2], "CAN_EXIST") && !is_keyword(args[2], "MUST_CREATE") {
            createdb.path = Some(args[2]);
            i = 3;
        }
        let ghost start: int = i as int;
        assert(createdb@ == create_db_start(v));
        assert(start == (if has_path_in_place(v) { 3int } else { 2int }));
        while i < n
            invariant
                2 <= i <= n,
                n == args.len(),
                v == args_view(args@),
                v.len() == n,
                start <= i,
                start == (if has_path_in_place(v) {
                    3int
                } else {
                    2int
                }),
                v.len() >= 2,
                create_db_scan(v, start, create_db_start(v), false, false) == create_db_scan(
                    v,
                    i as int,
                    createdb@,
                    can_exists_flag,
                    must_create_flag,
                ),
            decreases n - i,
        {
            let arg = args[i];
            assert(arg@ == v[i as int]);
            if is_keyword(arg, "PATH") {
                if i + 1 >= n {
                    return Err(RediSQLError::numbered(2));
                }
                createdb.path = Some(args[i + 1]);
                i = i + 2;
            } else if is_keyword(arg, "CAN_EXISTS") || is_keyword(arg, "CAN_EXIST") {
                can_exists_flag = true;
                createdb.can_exists = true;
                i = i + 1;
            } else if is_keyword(arg, "MUST_CREATE") {
                must_create_flag = true;
                createdb.can_exists = false;
                i = i + 1;
            } else {
                i = i + 1;
            }
        }
        if can_exists_flag && must_create_flag {
            return Err(RediSQLError::numbered(3));
        }
        Ok(createdb)
    }

    fn database(&self) -> (d: &str)
        ensures
            d@ == self@.name,
    {
        self.name
    }
}

} // verus!
