//! The SQLite side of RediSQL that does not need a live connection: result
//! codes, errors, the values of a row, the rule on statement parameters and
//! the decisions of the backup loop.
use vstd::prelude::*;

use crate::text::{decimal_int, decimal_nat, i32_to_decimal, usize_to_decimal};

verus! {

// SQLite's primary result codes, as sqlite3.h defines them.
pub const SQLITE_OK: i32 = 0;

pub const SQLITE_BUSY: i32 = 5;

pub const SQLITE_LOCKED: i32 = 6;

pub const SQLITE_RANGE: i32 = 25;

pub const SQLITE_ROW: i32 = 100;

pub const SQLITE_DONE: i32 = 101;

// SQLite's fundamental column types, as sqlite3.h defines them.
pub const SQLITE_INTEGER: i32 = 1;

pub const SQLITE_FLOAT: i32 = 2;

pub const SQLITE_TEXT: i32 = 3;

pub const SQLITE_BLOB: i32 = 4;

pub const SQLITE_NULL: i32 = 5;

pub enum SQLiteOK {
    OK,
}

#[derive(Debug, Clone)]
pub struct SQLite3Error {
    pub code: i32,
    pub error_message: String,
    pub error_string: String,
}

/// `ERR - Error Code: <code> => <error string> | <error message>`.
pub open spec fn sqlite3_error_text(code: i32, error_string: Seq<char>, error_message: Seq<char>) -> Seq<
    char,
> {
    "ERR - Error Code: "@ + decimal_int(code as int) + " => "@ + error_string + " | "@
        + error_message
}

impl SQLite3Error {
    /// The text that the error shows (its `Display`).
    pub fn to_display_string(&self) -> (s: String)
        ensures
            s@ == sqlite3_error_text(self.code, self.error_string@, self.error_message@),
    {
        let mut s = String::from_str("ERR - Error Code: ");
        s.append(i32_to_decimal(self.code).as_str());
        s.append(" => ");
        s.append(self.error_string.as_str());
        s.append(" | ");
        s.append(self.error_message.as_str());
        s
    }
}

/// The message of the errors about the form of parameters.
pub open spec fn misuse_message() -> Seq<char> {
    "RediSQL MISUSE, only parameters in the form `?NNN`, where `N` is a digit, are supported, also no gap should be present."@
}

fn misuse_message_string() -> (s: String)
    ensures
        s@ == misuse_message(),
{
    String::from_str(
        "RediSQL MISUSE, only parameters in the form `?NNN`, where `N` is a digit, are supported, also no gap should be present.",
    )
}

/// A parameter of a prepared statement: `?NNN` is named by its index, a
/// bare `?` is anonymous.
#[derive(Debug, Clone)]
pub enum Parameters {
    Anonymous,
    Named { index: i32 },
}

/// The parameters of all statements, one after the other.
pub open spec fn flat_params(p: Seq<Seq<Parameters>>) -> Seq<Parameters>
    decreases p.len(),
{
    if p.len() == 0 {
        Seq::empty()
    } else {
        flat_params(p.drop_last()) + p.last()
    }
}

/// Every parameter is of the form `?NNN`.
pub open spec fn all_named(f: Seq<Parameters>) -> bool {
    forall|k: int| 0 <= k < f.len() ==> #[trigger] f[k] is Named
}

/// The distinct indices of the named parameters.
pub open spec fn named_set(f: Seq<Parameters>) -> Set<i32> {
    Set::new(|x: i32| exists|k: int| 0 <= k < f.len() && f[k] == (Parameters::Named { index: x }))
}

/// The indices of parameters (`0` for an anonymous one).
pub open spec fn parameter_indices(p: Seq<Parameters>) -> Seq<i32> {
    p.map_values(
        |x: Parameters|
            match x {
                Parameters::Named { index } => index,
                Parameters::Anonymous => 0,
            },
    )
}

/// The view of the parameters of several statements.
pub open spec fn params_view(p: Seq<Vec<Parameters>>) -> Seq<Seq<Parameters>> {
    p.map_values(|v: Vec<Parameters>| v@)
}

/// The error of statements whose parameters mix forms or are anonymous.
pub open spec fn is_invalid_parameters_error(e: SQLite3Error) -> bool {
    &&& e.code == 1021
    &&& e.error_message@ == misuse_message()
    &&& e.error_string@ == "Use of invalid parameters"@
}

proof fn lemma_named_set_push(f: Seq<Parameters>, x: Parameters)
    ensures
        named_set(f.push(x)) == (match x {
            Parameters::Named { index } => named_set(f).insert(index),
            Parameters::Anonymous => named_set(f),
        }),
{
    let g = f.push(x);
    match x {
        Parameters::Named { index } => {
            assert forall|y: i32| named_set(g).contains(y) implies named_set(f).insert(
                index,
            ).contains(y) by {
                let k = choose|k: int| 0 <= k < g.len() && g[k] == (Parameters::Named { index: y });
                if k < f.len() {
                    assert(f[k] == g[k]);
                }
            }
            assert forall|y: i32| named_set(f).insert(index).contains(y) implies named_set(
                g,
            ).contains(y) by {
                if y == index {
                    assert(g[f.len() as int] == x);
                } else {
                    let k = choose|k: int|
                        0 <= k < f.len() && f[k] == (Parameters::Named { index: y });
                    assert(g[k] == f[k]);
                }
            }
            assert(named_set(g) =~= named_set(f).insert(index));
        },
        Parameters::Anonymous => {
            assert forall|y: i32| named_set(g).contains(y) implies named_set(f).contains(y) by {
                let k = choose|k: int| 0 <= k < g.len() && g[k] == (Parameters::Named { index: y });
                if k < f.len() {
                    assert(f[k] == g[k]);
                }
            }
            assert forall|y: i32| named_set(f).contains(y) implies named_set(g).contains(y) by {
                let k = choose|k: int| 0 <= k < f.len() && f[k] == (Parameters::Named { index: y });
                assert(g[k] == f[k]);
            }
            assert(named_set(g) =~= named_set(f));
        },
    }
}

fn contains_index(seen: &Vec<i32>, x: i32) -> (b: bool)
    ensures
        b == seen@.contains(x),
{
    let mut i: usize = 0;
    while i < seen.len()
        invariant
            i <= seen.len(),
            forall|k: int| 0 <= k < i ==> seen@[k] != x,
        decreases seen.len() - i,
    {
        if seen[i] == x {
            return true;
        }
        i = i + 1;
    }
    false
}

/// Counts the parameters of a multi statement from the parameters of each
/// of its statements. Only parameters of the form `?NNN` are accepted; the
/// count is the number of distinct indices. Statements without parameters
/// count zero.
pub fn count_parameters(parameters: Vec<Vec<Parameters>>) -> (r: Result<
    (i32, Vec<Vec<Parameters>>),
    SQLite3Error,
>)
    ensures
        ({
            let f = flat_params(params_view(parameters@));
            if f.len() == 0 {
                r is Ok && r->Ok_0.0 == 0 && r->Ok_0.1@.len() == 0
            } else if all_named(f) {
                r is Ok && r->Ok_0.0 == #[verifier::truncate] (named_set(f).len() as i32) && r->Ok_0.1 == parameters
            } else {
                r is Err && is_invalid_parameters_error(r->Err_0)
            }
        }),
{
    let ghost pv = params_view(parameters@);
    let mut all: bool = true;
    let mut any: bool = false;
    let mut seen: Vec<i32> = Vec::new();
    let mut i: usize = 0;
    assert(pv.take(0) =~= Seq::<Seq<Parameters>>::empty());
    while i < parameters.len()
        invariant
            i <= parameters.len(),
            pv == params_view(parameters@),
            pv.len() == parameters.len(),
            any == (flat_params(pv.take(i as int)).len() > 0),
            all == all_named(flat_params(pv.take(i as int))),
            seen@.no_duplicates(),
            seen@.to_set() == named_set(flat_params(pv.take(i as int))),
        decreases parameters.len() - i,
    {
        let row = &parameters[i];
        let ghost base = flat_params(pv.take(i as int));
        assert(row@ == pv[i as int]);
        let mut j: usize = 0;
        assert(base + row@.take(0) =~= base);
        while j < row.len()
            invariant
                j <= row.len(),
                any == ((base + row@.take(j as int)).len() > 0),
                all == all_named(base + row@.take(j as int)),
                seen@.no_duplicates(),
                seen@.to_set() == named_set(base + row@.take(j as int)),
            decreases row.len() - j,
        {
            let ghost pre = base + row@.take(j as int);
            let ghost post = base + row@.take(j + 1);
            assert(post =~= pre.push(row@[j as int]));
            proof {
                lemma_named_set_push(pre, row@[j as int]);
            }
            any = true;
            match &row[j] {
                Parameters::Anonymous => {
                    all = false;
                    assert(!(post[pre.len() as int] is Named));
                },
                Parameters::Named { index } => {
                    let idx = *index;
                    if !contains_index(&seen, idx) {
                        proof {
                            seen@.lemma_push_to_set_commute(idx);
                            assert forall|a: int, b: int|
                                0 <= a < b < seen@.push(idx).len() implies seen@.push(idx)[a]
                                != seen@.push(idx)[b] by {
                                if b == seen@.len() {
                                    assert(seen@.contains(seen@[a]));
                                }
                            }
                        }
                        seen.push(idx);
                    } else {
                        assert(seen@.to_set().insert(idx) =~= seen@.to_set());
                    }
                    assert(post[pre.len() as int] is Named);
                    assert(forall|k: int| 0 <= k < pre.len() ==> post[k] == pre[k]);
                    assert(all_named(post) == all_named(pre));
                },
            }
            j = j + 1;
        }
        proof {
            assert(row@.take(row@.len() as int) =~= row@);
            assert(pv.take(i + 1).drop_last() =~= pv.take(i as int));
            assert(pv.take(i + 1).last() == pv[i as int]);
        }
        i = i + 1;
    }
    assert(pv.take(parameters.len() as int) =~= pv);
    let ghost f = flat_params(pv);
    if !any {
        return Ok((0, Vec::new()));
    }
    if !all {
        return Err(
            SQLite3Error {
                code: 1021,
                error_message: misuse_message_string(),
                error_string: String::from_str("Use of invalid parameters"),
            },
        );
    }
    proof {
        seen@.unique_seq_to_set();
    }
    let count = #[verifier::truncate] (seen.len() as i32);
    Ok((count, parameters))
}

/// `Wrong number of parameters, expected <expected>, provided <provided>`.
pub open spec fn wrong_number_text(expected: i32, provided: usize) -> Seq<char> {
    "Wrong number of parameters, expected "@ + decimal_int(expected as int) + ", provided "@
        + decimal_nat(provided as nat)
}

/// The index of a parameter (`0` for an anonymous one).
pub open spec fn index_of(p: Parameters) -> int {
    match p {
        Parameters::Named { index } => index as int,
        Parameters::Anonymous => 0,
    }
}

/// The largest index among parameters (`0` when there is none): `?NNN`
/// takes the NNN-th value, so a statement needs as many values as its
/// largest index.
pub open spec fn highest_index(f: Seq<Parameters>) -> int
    decreases f.len(),
{
    if f.len() == 0 {
        0
    } else {
        let rest = highest_index(f.drop_last());
        if index_of(f.last()) > rest {
            index_of(f.last())
        } else {
            rest
        }
    }
}

proof fn lemma_highest_index_bounds(f: Seq<Parameters>)
    ensures
        0 <= highest_index(f) <= i32::MAX,
    decreases f.len(),
{
    if f.len() > 0 {
        lemma_highest_index_bounds(f.drop_last());
    }
}

/// The number of values a statement needs is the largest index of its
/// parameters: no `?NNN` has a larger index, and it is the index of one of
/// them (or `0` when there is none). So it does not depend on the order in
/// which the parameters come, nor on anonymous ones.
pub proof fn law_highest_index_is_the_largest(f: Seq<Parameters>)
    ensures
        highest_index(f) >= 0,
        forall|k: int, n: i32|
            0 <= k < f.len() && f[k] == (Parameters::Named { index: n }) ==> n <= highest_index(f),
        highest_index(f) == 0 || exists|k: int|
            0 <= k < f.len() && f[k] == (Parameters::Named { index: highest_index(f) as i32 }),
    decreases f.len(),
{
    if f.len() > 0 {
        let g = f.drop_last();
        law_highest_index_is_the_largest(g);
        assert forall|k: int, n: i32|
            0 <= k < f.len() && f[k] == (Parameters::Named { index: n }) implies n
            <= highest_index(f) by {
            if k < g.len() {
                assert(g[k] == f[k]);
            }
        }
        if highest_index(f) != 0 {
            if index_of(f.last()) > highest_index(g) {
                match f.last() {
                    Parameters::Named { index } => {
                        assert(f[f.len() - 1] == (Parameters::Named {
                            index: highest_index(f) as i32,
                        }));
                    },
                    Parameters::Anonymous => {},
                }
            } else {
                let k = choose|k: int|
                    0 <= k < g.len() && g[k] == (Parameters::Named {
                        index: highest_index(g) as i32,
                    });
                assert(f[k] == g[k]);
            }
        }
    }
}

/// A set of statements needs as many values as the largest parameter index
/// among all of them: no parameter of any statement has a larger index,
/// and that number is the index of one of them (or `0`).
pub proof fn law_needed_values_of_statements(p: Seq<Seq<Parameters>>)
    ensures
        forall|i: int, k: int, n: i32|
            0 <= i < p.len() && 0 <= k < p[i].len() && p[i][k] == (Parameters::Named { index: n })
                ==> n <= highest_index(flat_params(p)),
        highest_index(flat_params(p)) == 0 || exists|i: int, k: int|
            0 <= i < p.len() && 0 <= k < p[i].len() && p[i][k] == (Parameters::Named {
                index: highest_index(flat_params(p)) as i32,
            }),
    decreases p.len(),
{
    let f = flat_params(p);
    law_highest_index_is_the_largest(f);
    if p.len() > 0 {
        let q = p.drop_last();
        let a = flat_params(q);
        let b = p.last();
        assert(f == a + b);
        law_needed_values_of_statements(q);
        assert forall|i: int, k: int, n: i32|
            0 <= i < p.len() && 0 <= k < p[i].len() && p[i][k] == (Parameters::Named { index: n })
                implies n <= highest_index(f) by {
            if i < q.len() {
                assert(q[i] == p[i]);
                lemma_flat_params_holds(q, i, k);
                let j = choose|j: int| 0 <= j < a.len() && a[j] == q[i][k];
                assert(f[j] == a[j]);
            } else {
                assert(f[a.len() + k] == b[k]);
            }
        }
        if highest_index(f) != 0 {
            let j = choose|j: int|
                0 <= j < f.len() && f[j] == (Parameters::Named { index: highest_index(f) as i32 });
            if j < a.len() {
                assert(f[j] == a[j]);
                lemma_flat_params_from(q, j);
                let (i, k) = choose|i: int, k: int|
                    0 <= i < q.len() && 0 <= k < q[i].len() && q[i][k] == a[j];
                assert(p[i] == q[i]);
            } else {
                assert(f[j] == b[j - a.len()]);
                assert(p[p.len() - 1] == b);
            }
        }
    }
}

/// Every parameter of every statement is among the parameters of all.
proof fn lemma_flat_params_holds(p: Seq<Seq<Parameters>>, i: int, k: int)
    requires
        0 <= i < p.len(),
        0 <= k < p[i].len(),
    ensures
        exists|j: int| 0 <= j < flat_params(p).len() && flat_params(p)[j] == p[i][k],
    decreases p.len(),
{
    let a = flat_params(p.drop_last());
    assert(flat_params(p) == a + p.last());
    if i < p.len() - 1 {
        assert(p.drop_last()[i] == p[i]);
        lemma_flat_params_holds(p.drop_last(), i, k);
        let j = choose|j: int| 0 <= j < a.len() && a[j] == p[i][k];
        assert(flat_params(p)[j] == a[j]);
    } else {
        assert(flat_params(p)[a.len() + k] == p[i][k]);
    }
}

/// Every parameter among those of all statements is one of a statement.
proof fn lemma_flat_params_from(p: Seq<Seq<Parameters>>, j: int)
    requires
        0 <= j < flat_params(p).len(),
    ensures
        exists|i: int, k: int| 0 <= i < p.len() && 0 <= k < p[i].len() && p[i][k] == flat_params(p)[j],
    decreases p.len(),
{
    if p.len() > 0 {
        let a = flat_params(p.drop_last());
        assert(flat_params(p) == a + p.last());
        if j < a.len() {
            lemma_flat_params_from(p.drop_last(), j);
            let (i, k) = choose|i: int, k: int|
                0 <= i < p.drop_last().len() && 0 <= k < p.drop_last()[i].len()
                    && p.drop_last()[i][k] == a[j];
            assert(p[i] == p.drop_last()[i]);
        } else {
            let k = j - a.len();
            assert(flat_params(p)[j] == p.last()[k]);
            assert(p[p.len() - 1] == p.last());
        }
    }
}

/// The number of values that the statements with these parameters need:
/// their largest parameter index.
pub fn needed_values(parameters: &Vec<Vec<Parameters>>) -> (m: i32)
    ensures
        m == highest_index(flat_params(params_view(parameters@))),
{
    let ghost pv = params_view(parameters@);
    let mut m: i32 = 0;
    let mut i: usize = 0;
    assert(pv.take(0) =~= Seq::<Seq<Parameters>>::empty());
    while i < parameters.len()
        invariant
            i <= parameters.len(),
            pv == params_view(parameters@),
            pv.len() == parameters.len(),
            m == highest_index(flat_params(pv.take(i as int))),
        decreases parameters.len() - i,
    {
        let row = &parameters[i];
        let ghost base = flat_params(pv.take(i as int));
        assert(row@ == pv[i as int]);
        assert(base + row@.take(0) =~= base);
        let mut j: usize = 0;
        while j < row.len()
            invariant
                j <= row.len(),
                m == highest_index(base + row@.take(j as int)),
            decreases row.len() - j,
        {
            let ghost pre = base + row@.take(j as int);
            let ghost post = base + row@.take(j + 1);
            assert(post.drop_last() =~= pre);
            assert(post.last() == row@[j as int]);
            let x: i32 = match &row[j] {
                Parameters::Named { index } => *index,
                Parameters::Anonymous => 0,
            };
            if x > m {
                m = x;
            }
            j = j + 1;
        }
        assert(row@.take(row.len() as int) =~= row@);
        assert(pv.take(i + 1).drop_last() =~= pv.take(i as int));
        assert(flat_params(pv.take(i + 1)) == base + pv[i as int]);
        i = i + 1;
    }
    assert(pv.take(parameters.len() as int) =~= pv);
    m
}

/// Binding values to a multi statement first checks that there are as many
/// values as it needs: as many as its largest parameter index.
pub fn check_number_of_parameters(provided: usize, parameters: &Vec<Vec<Parameters>>) -> (r: Result<
    SQLiteOK,
    SQLite3Error,
>)
    ensures
        r is Ok <==> provided == highest_index(flat_params(params_view(parameters@))),
        r is Err ==> ({
            let e = r->Err_0;
            &&& e.code == 2021
            &&& e.error_message@ == misuse_message()
            &&& e.error_string@ == wrong_number_text(
                highest_index(flat_params(params_view(parameters@))) as i32,
                provided,
            )
        }),
{
    let needed = needed_values(parameters);
    proof {
        lemma_highest_index_bounds(flat_params(params_view(parameters@)));
    }
    if provided != needed as usize {
        let mut s = String::from_str("Wrong number of parameters, expected ");
        s.append(i32_to_decimal(needed).as_str());
        s.append(", provided ");
        s.append(usize_to_decimal(provided).as_str());
        return Err(
            SQLite3Error { code: 2021, error_message: misuse_message_string(), error_string: s },
        );
    }
    Ok(SQLiteOK::OK)
}

/// The bindings of values to a multi statement: value `k` (counting from
/// `1`) goes to the parameter `?k`, once the number of values is the one
/// the statement needs.
pub fn bind_values<'a>(values: &Vec<&'a str>, parameters: &Vec<Vec<Parameters>>) -> (r: Result<
    Vec<(i32, &'a str)>,
    SQLite3Error,
>)
    ensures
        r is Ok <==> values.len() == highest_index(flat_params(params_view(parameters@))),
        r matches Ok(b) ==> b@.len() == values.len() && forall|k: int|
            0 <= k < b@.len() ==> #[trigger] b@[k] == ((k + 1) as i32, values@[k]),
        r matches Err(e) ==> e.code == 2021 && e.error_string@ == wrong_number_text(
            highest_index(flat_params(params_view(parameters@))) as i32,
            values.len(),
        ),
{
    match check_number_of_parameters(values.len(), parameters) {
        Err(e) => Err(e),
        Ok(_) => {
            proof {
                lemma_highest_index_bounds(flat_params(params_view(parameters@)));
            }
            let mut b: Vec<(i32, &'a str)> = Vec::new();
            let mut k: usize = 0;
            while k < values.len()
                invariant
                    k <= values.len(),
                    values.len() <= i32::MAX,
                    b@.len() == k,
                    forall|j: int| 0 <= j < k ==> #[trigger] b@[j] == ((j + 1) as i32, values@[j]),
                decreases values.len() - k,
            {
                b.push(((k + 1) as i32, values[k]));
                k = k + 1;
            }
            Ok(b)
        },
    }
}

/// The type of a column value.
pub enum EntityType {
    Integer,
    Float,
    Text,
    Blob,
    Null,
}

/// A value of a row, or the outcome of a statement that returns no rows. A
/// floating-point value is kept as the bits of its IEEE-754 encoding.
pub enum Entity {
    Integer { int: i32 },
    Float { bits: u64 },
    Text { text: String },
    Blob { blob: String },
    Null,
    OK { to_replicate: bool },
    DONE { modified_rows: i32, to_replicate: bool },
}

pub type Row = Vec<Entity>;

/// The type of a column from SQLite's type code; unknown codes read as null.
pub fn get_entity_type(code: i32) -> (t: EntityType)
    ensures
        t == (if code == SQLITE_INTEGER {
            EntityType::Integer
        } else if code == SQLITE_FLOAT {
            EntityType::Float
        } else if code == SQLITE_TEXT {
            EntityType::Text
        } else if code == SQLITE_BLOB {
            EntityType::Blob
        } else {
            EntityType::Null
        }),
{
    if code == SQLITE_INTEGER {
        EntityType::Integer
    } else if code == SQLITE_FLOAT {
        EntityType::Float
    } else if code == SQLITE_TEXT {
        EntityType::Text
    } else if code == SQLITE_BLOB {
        EntityType::Blob
    } else {
        EntityType::Null
    }
}

/// Where the execution of a statement stands: it completed (`OK`, `DONE`)
/// or it has rows to hand out. `stmt` is the handle of the statement that
/// produces the rows.
pub enum Cursor {
    OKCursor,
    DONECursor { modified_rows: i32 },
    RowsCursor { num_columns: i32, previous_status: i32, stmt: u64, modified_rows: i32 },
}

impl Cursor {
    /// The cursor of a multi statement from the cursors of its statements,
    /// in order: the last one, or `DONE` with no row modified when there
    /// is none.
    pub fn from_iter(cursors: Vec<Cursor>) -> (c: Cursor)
        ensures
            cursors@.len() == 0 ==> c == (Cursor::DONECursor { modified_rows: 0 }),
            cursors@.len() > 0 ==> c == cursors@.last(),
    {
        let mut cursors = cursors;
        match cursors.pop() {
            None => Cursor::DONECursor { modified_rows: 0 },
            Some(last) => last,
        }
    }

    /// The cursor of a multi statement reports, once it ran, how many rows
    /// all its statements changed together.
    pub fn with_modified_rows(self, total_modified_rows: i32) -> (c: Cursor)
        ensures
            c == match self {
                Cursor::OKCursor => Cursor::OKCursor,
                Cursor::DONECursor { .. } => Cursor::DONECursor { modified_rows: total_modified_rows },
                Cursor::RowsCursor { num_columns, previous_status, stmt, .. } => Cursor::RowsCursor {
                    num_columns,
                    previous_status,
                    stmt,
                    modified_rows: total_modified_rows,
                },
            },
    {
        match self {
            Cursor::OKCursor => Cursor::OKCursor,
            Cursor::DONECursor { .. } => Cursor::DONECursor { modified_rows: total_modified_rows },
            Cursor::RowsCursor { num_columns, previous_status, stmt, .. } => Cursor::RowsCursor {
                num_columns,
                previous_status,
                stmt,
                modified_rows: total_modified_rows,
            },
        }
    }
}

/// The parameters of a statement from the index that SQLite gives each of
/// its parameter slots, in order: a slot with index `0` has no name of the
/// form `?NNN` and is left out.
pub fn parameters_from_indices(indices: &Vec<i32>) -> (p: Vec<Parameters>)
    ensures
        all_named(p@),
        parameter_indices(p@) == indices@.filter(|i: i32| i != 0),
{
    let mut out: Vec<Parameters> = Vec::new();
    let mut k: usize = 0;
    assert(indices@.take(0) =~= Seq::<i32>::empty());
    assert(parameter_indices(out@) =~= Seq::<i32>::empty());
    while k < indices.len()
        invariant
            k <= indices.len(),
            parameter_indices(out@) == indices@.take(k as int).filter(|i: i32| i != 0),
            all_named(out@),
        decreases indices.len() - k,
    {
        let ghost before = out@;
        assert(indices@.take(k + 1).drop_last() =~= indices@.take(k as int));
        reveal_with_fuel(Seq::<_>::filter, 1);
        if indices[k] != 0 {
            out.push(Parameters::Named { index: indices[k] });
            assert(parameter_indices(out@) =~= parameter_indices(before).push(indices[k as int]));
        }
        k = k + 1;
    }
    assert(indices@.take(indices.len() as int) =~= indices@);
    out
}

/// Nameless parameters do not count: parameters read from SQLite's slots
/// (`parameters_from_indices`) are all of the form `?NNN`, so counting the
/// parameters of statements made of them never meets the error of mixed
/// or anonymous parameters.
pub proof fn law_slot_parameters_are_accepted(p: Seq<Seq<Parameters>>)
    requires
        forall|i: int| 0 <= i < p.len() ==> all_named(#[trigger] p[i]),
    ensures
        all_named(flat_params(p)),
    decreases p.len(),
{
    if p.len() > 0 {
        law_slot_parameters_are_accepted(p.drop_last());
        let a = flat_params(p.drop_last());
        let b = p.last();
        assert(all_named(p[p.len() - 1]));
        assert forall|k: int| 0 <= k < (a + b).len() implies #[trigger] (a + b)[k] is Named by {
            if k >= a.len() {
                assert((a + b)[k] == b[k - a.len()]);
            }
        }
    }
}

/// A multi statement only reads when each of its statements only reads.
pub fn all_read_only(read_only: &Vec<bool>) -> (b: bool)
    ensures
        b == forall|k: int| 0 <= k < read_only@.len() ==> #[trigger] read_only@[k],
{
    let mut k: usize = 0;
    while k < read_only.len()
        invariant
            k <= read_only.len(),
            forall|j: int| 0 <= j < k ==> #[trigger] read_only@[j],
        decreases read_only.len() - k,
    {
        if !read_only[k] {
            return false;
        }
        k = k + 1;
    }
    true
}

/// The number of parameters of a multi statement as SQLite counts them:
/// the largest count among its statements, `0` when it has none.
pub fn max_parameters_count(counts: &Vec<u32>) -> (m: u32)
    ensures
        forall|k: int| 0 <= k < counts@.len() ==> #[trigger] counts@[k] <= m,
        counts@.len() == 0 ==> m == 0,
        counts@.len() > 0 ==> exists|k: int| 0 <= k < counts@.len() && counts@[k] == m,
{
    let mut m: u32 = 0;
    let mut k: usize = 0;
    while k < counts.len()
        invariant
            k <= counts.len(),
            forall|j: int| 0 <= j < k ==> #[trigger] counts@[j] <= m,
            k == 0 ==> m == 0,
            k > 0 ==> exists|j: int| 0 <= j < k && counts@[j] == m,
        decreases counts.len() - k,
    {
        if counts[k] > m || k == 0 {
            m = counts[k];
        }
        k = k + 1;
    }
    m
}

/// The rows that a run of a multi statement changed, from SQLite's total
/// of changed rows before and after it.
pub fn changed_rows(before: i32, after: i32) -> (n: i32)
    requires
        i32::MIN <= after - before <= i32::MAX,
    ensures
        n == after - before,
{
    after - before
}

impl Cursor {
    /// The cursor of a statement from the status of its first step: `OK`,
    /// `DONE` with the rows that the step changed, or rows of `num_columns`
    /// columns; any other status is an error, which the database describes.
    pub fn after_first_step(status: i32, changes: i32, stmt: u64, num_columns: i32) -> (c: Option<
        Cursor,
    >)
        ensures
            status == SQLITE_OK ==> c == Some(Cursor::OKCursor),
            status == SQLITE_DONE ==> c == Some(Cursor::DONECursor { modified_rows: changes }),
            status == SQLITE_ROW ==> c == Some(
                Cursor::RowsCursor {
                    num_columns,
                    previous_status: SQLITE_ROW,
                    stmt,
                    modified_rows: 0,
                },
            ),
            status != SQLITE_OK && status != SQLITE_DONE && status != SQLITE_ROW ==> c is None,
    {
        if status == SQLITE_OK {
            Some(Cursor::OKCursor)
        } else if status == SQLITE_DONE {
            Some(Cursor::DONECursor { modified_rows: changes })
        } else if status == SQLITE_ROW {
            Some(Cursor::RowsCursor { num_columns, previous_status: SQLITE_ROW, stmt, modified_rows: 0 })
        } else {
            None
        }
    }
}

/// What comes next out of a cursor.
pub enum CursorStep {
    /// This row.
    Row { row: Row },
    /// Read the `num_columns` columns of the current row of the statement
    /// `stmt`, then step the statement and hand its status to `advance`.
    ReadRow { stmt: u64, num_columns: i32 },
    /// There is no row left.
    End,
}

impl Cursor {
    /// A cursor that completed hands out its outcome as a one-value row
    /// (to be replicated); a cursor of rows has a row while the last step
    /// of its statement gave one.
    pub fn next_step(&self) -> (s: CursorStep)
        ensures
            match *self {
                Cursor::OKCursor => s matches CursorStep::Row { row } && row@ == seq![
                    Entity::OK { to_replicate: true },
                ],
                Cursor::DONECursor { modified_rows } => s matches CursorStep::Row { row } && row@
                    == seq![Entity::DONE { modified_rows, to_replicate: true }],
                Cursor::RowsCursor { num_columns, previous_status, stmt, .. } => if previous_status
                    == SQLITE_ROW {
                    s == (CursorStep::ReadRow { stmt, num_columns })
                } else {
                    s is End
                },
            },
    {
        match self {
            Cursor::OKCursor => CursorStep::Row { row: vec![Entity::OK { to_replicate: true }] },
            Cursor::DONECursor { modified_rows } => CursorStep::Row {
                row: vec![Entity::DONE { modified_rows: *modified_rows, to_replicate: true }],
            },
            Cursor::RowsCursor { num_columns, previous_status, stmt, .. } => {
                if *previous_status == SQLITE_ROW {
                    CursorStep::ReadRow { stmt: *stmt, num_columns: *num_columns }
                } else {
                    CursorStep::End
                }
            },
        }
    }

    /// Records the status of the step that followed the row just read.
    pub fn advance(&mut self, status: i32)
        ensures
            *final(self) == match *old(self) {
                Cursor::RowsCursor { num_columns, stmt, modified_rows, .. } => Cursor::RowsCursor {
                    num_columns,
                    previous_status: status,
                    stmt,
                    modified_rows,
                },
                other => other,
            },
    {
        match self {
            Cursor::RowsCursor { previous_status, .. } => {
                *previous_status = status;
            },
            _ => {},
        }
    }
}

pub fn backup_step_is_ok(result: i32) -> (b: bool)
    ensures
        b == (result == SQLITE_OK),
{
    result == SQLITE_OK
}

pub fn backup_step_should_retry(result: i32) -> (b: bool)
    ensures
        b == (result == SQLITE_BUSY || result == SQLITE_LOCKED),
{
    result == SQLITE_BUSY || result == SQLITE_LOCKED
}

/// The backup loop steps again after a step that went well or that met a
/// busy or locked database.
pub fn backup_should_step_again(result: i32) -> (b: bool)
    ensures
        b == (result == SQLITE_OK || result == SQLITE_BUSY || result == SQLITE_LOCKED),
{
    backup_step_is_ok(result) || backup_step_should_retry(result)
}

pub fn backup_complete_with_done(result: i32) -> (b: bool)
    ensures
        b == (result == SQLITE_DONE),
{
    result == SQLITE_DONE
}

/// Whether the backup loop steps again after a step with this result.
pub open spec fn steps_again(result: i32) -> bool {
    result == SQLITE_OK || result == SQLITE_BUSY || result == SQLITE_LOCKED
}

/// How a backup ends, from the results of its successive steps: after the
/// first step whose result is neither `OK`, `BUSY` nor `LOCKED`, with that
/// result (and the number of steps made); `None` while every step so far
/// asks for one more.
pub open spec fn backup_end(results: Seq<i32>) -> Option<(nat, i32)>
    decreases results.len(),
{
    if results.len() == 0 {
        None
    } else {
        match backup_end(results.drop_last()) {
            Some(end) => Some(end),
            None => if steps_again(results.last()) {
                None
            } else {
                Some((results.len(), results.last()))
            },
        }
    }
}

/// A backup in progress: the steps made so far and, once it ended, the
/// result of its last step.
pub struct BackupRun {
    steps: u64,
    result: Option<i32>,
}

impl View for BackupRun {
    /// (steps made, the result it ended with)
    type V = (nat, Option<i32>);

    closed spec fn view(&self) -> (nat, Option<i32>) {
        (self.steps as nat, self.result)
    }
}

impl BackupRun {
    /// A backup that has not stepped yet.
    pub fn new() -> (b: Self)
        ensures
            b@ == (0nat, None::<i32>),
    {
        BackupRun { steps: 0, result: None }
    }

    /// Takes the result of one more step; tells whether to step again.
    pub fn after_step(&mut self, result: i32) -> (again: bool)
        requires
            old(self)@.1 is None,
            old(self)@.0 < u64::MAX,
        ensures
            again == steps_again(result),
            final(self)@ == (old(self)@.0 + 1, if again {
                None
            } else {
                Some(result)
            }),
    {
        self.steps = self.steps + 1;
        let again = backup_should_step_again(result);
        if !again {
            self.result = Some(result);
        }
        again
    }

    /// The result the backup ended with, if it ended.
    pub fn result(&self) -> (r: Option<i32>)
        ensures
            r == self@.1,
    {
        self.result
    }
}

/// A backup driven by `after_step` ends as `backup_end` says: stepping
/// through results that ask for more, then one that does not, ends it
/// after those steps with that result.
pub proof fn law_backup_ends_at_first_final_result(results: Seq<i32>)
    requires
        results.len() > 0,
        forall|k: int| 0 <= k < results.len() - 1 ==> steps_again(#[trigger] results[k]),
        !steps_again(results.last()),
    ensures
        backup_end(results) == Some((results.len(), results.last())),
        forall|n: int| 0 <= n < results.len() ==> #[trigger] backup_end(results.take(n)) is None,
{
    assert forall|n: int| 0 <= n < results.len() implies #[trigger] backup_end(results.take(n))
        is None by {
        lemma_no_end_yet(results, n);
    }
    lemma_no_end_yet(results, results.len() - 1);
    assert(results.take(results.len() - 1) =~= results.drop_last());
}

proof fn lemma_no_end_yet(results: Seq<i32>, n: int)
    requires
        0 <= n < results.len(),
        forall|k: int| 0 <= k < results.len() - 1 ==> steps_again(#[trigger] results[k]),
    ensures
        backup_end(results.take(n)) is None,
    decreases n,
{
    if n > 0 {
        lemma_no_end_yet(results, n - 1);
        assert(results.take(n).drop_last() =~= results.take(n - 1));
        assert(results.take(n).last() == results[n - 1]);
    }
}

/// The statements of a multi statement run in order, until one fails.
pub struct MultiRun {
    last: Option<Cursor>,
    error: Option<SQLite3Error>,
}

impl View for MultiRun {
    /// (the cursor of the last statement that ran, the error that stopped
    /// the run)
    type V = (Option<Cursor>, Option<SQLite3Error>);

    closed spec fn view(&self) -> (Option<Cursor>, Option<SQLite3Error>) {
        (self.last, self.error)
    }
}

impl MultiRun {
    pub fn new() -> (m: Self)
        ensures
            m@ == (None::<Cursor>, None::<SQLite3Error>),
    {
        MultiRun { last: None, error: None }
    }

    /// Takes the outcome of the next statement; tells whether to run the
    /// one after it. The first error stops the run.
    pub fn after_statement(&mut self, outcome: Result<Cursor, SQLite3Error>) -> (go_on: bool)
        requires
            old(self)@.1 is None,
        ensures
            go_on == outcome is Ok,
            final(self)@ == match outcome {
                Ok(c) => (Some(c), None),
                Err(e) => (old(self)@.0, Some(e)),
            },
    {
        match outcome {
            Ok(c) => {
                self.last = Some(c);
                true
            },
            Err(e) => {
                self.error = Some(e);
                false
            },
        }
    }

    /// What the multi statement gives: the error that stopped it, or the
    /// cursor of its last statement (`DONE` with no row when it has none)
    /// with the rows that all its statements changed.
    pub fn finish(self, total_modified_rows: i32) -> (r: Result<Cursor, SQLite3Error>)
        ensures
            match self@.1 {
                Some(e) => r == Err::<Cursor, SQLite3Error>(e),
                None => r is Ok && r->Ok_0 == match self@.0 {
                    None => Cursor::DONECursor { modified_rows: total_modified_rows },
                    Some(c) => match c {
                        Cursor::OKCursor => Cursor::OKCursor,
                        Cursor::DONECursor { .. } => Cursor::DONECursor {
                            modified_rows: total_modified_rows,
                        },
                        Cursor::RowsCursor { num_columns, previous_status, stmt, .. } => Cursor::RowsCursor {
                            num_columns,
                            previous_status,
                            stmt,
                            modified_rows: total_modified_rows,
                        },
                    },
                },
            },
    {
        match self.error {
            Some(e) => Err(e),
            None => match self.last {
                None => Ok(Cursor::DONECursor { modified_rows: total_modified_rows }),
                Some(c) => Ok(c.with_modified_rows(total_modified_rows)),
            },
        }
    }
}

} // verus!
