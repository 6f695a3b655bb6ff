//! The messages that the Redis side sends to the worker that owns a
//! database, and how the worker answers.
use vstd::prelude::*;

use fnv::FnvHashMap;

use crate::redisql_error::RediSQLError;
use crate::sqlite::{all_read_only, Entity, Row};

verus! {

/// `std::time::Instant`, carried through commands as a deadline.
#[verifier::external_type_specification]
#[verifier::external_body]
pub struct ExInstant(std::time::Instant);

/// A client that Redis keeps blocked until the worker answers; `client` is
/// the address of Redis's handle, kept as an integer.
pub struct BlockedClient {
    pub client: usize,
}

impl BlockedClient {
    pub fn as_ptr(&self) -> (p: usize)
        ensures
            p == self.client,
    {
        self.client
    }
}

/// How the rows of a result go back to the client.
pub enum ReturnMethod {
    Reply,
    ReplyWithHeader,
    Stream { name: &'static str },
}

/// A unit of work for the worker thread of a database.
pub enum Command {
    Stop,
    Exec {
        query: &'static str,
        arguments: Vec<&'static str>,
        timeout: std::time::Instant,
        return_method: ReturnMethod,
        client: BlockedClient,
    },
    Query {
        query: &'static str,
        arguments: Vec<&'static str>,
        timeout: std::time::Instant,
        return_method: ReturnMethod,
        client: BlockedClient,
    },
    CompileStatement {
        identifier: &'static str,
        statement: &'static str,
        can_update: bool,
        client: BlockedClient,
    },
    ExecStatement {
        identifier: &'static str,
        arguments: Vec<&'static str>,
        timeout: std::time::Instant,
        return_method: ReturnMethod,
        client: BlockedClient,
    },
    UpdateStatement {
        identifier: &'static str,
        statement: &'static str,
        can_create: bool,
        client: BlockedClient,
    },
    DeleteStatement { identifier: &'static str, client: BlockedClient },
    QueryStatement {
        identifier: &'static str,
        arguments: Vec<&'static str>,
        timeout: std::time::Instant,
        return_method: ReturnMethod,
        client: BlockedClient,
    },
    ShowStatement { identifier: &'static str, return_method: ReturnMethod, client: BlockedClient },
    ListStatements { return_method: ReturnMethod, client: BlockedClient },
}

/// An error on the Redis side of RediSQL.
pub struct RedisError {
    pub msg: String,
}

impl RedisError {
    /// The text that the error shows (its `Display`): `ERR - <msg>`.
    pub fn to_display_string(&self) -> (s: String)
        ensures
            s@ == "ERR - "@ + self.msg@,
    {
        let mut s = String::from_str("ERR - ");
        s.append(self.msg.as_str());
        s
    }
}

/// What the worker answers to a command.
pub enum QueryResult {
    OK { to_replicate: bool },
    DONE { modified_rows: i32, to_replicate: bool },
    Array { array: Vec<Row>, to_replicate: bool },
}

impl QueryResult {
    /// Results are never replicated by themselves: the commands are.
    pub fn to_replicate(&self) -> (b: bool)
        ensures
            !b,
    {
        false
    }
}


/// An answer to a client, in Redis's reply types. A double is kept as the
/// bits of its IEEE-754 encoding.
pub enum Reply {
    Integer { value: i64 },
    Double { bits: u64 },
    Bulk { text: String },
    Simple { text: &'static str },
    Null,
    Array { elements: Vec<Reply> },
    Error { message: String },
}

/// `OK`, as a simple string.
pub open spec fn replies_ok(r: Reply) -> bool {
    r matches Reply::Simple { text } && text@ == "OK"@
}

/// `DONE` and the number of rows changed, as an array of two.
pub open spec fn replies_done(r: Reply, modified_rows: i32) -> bool {
    &&& r matches Reply::Array { elements }
    &&& r->elements@.len() == 2
    &&& r->elements@[0] matches Reply::Simple { text } && text@ == "DONE"@
    &&& r->elements@[1] == (Reply::Integer { value: modified_rows as i64 })
}

/// How a value of a row is answered: integers as integers, floats as
/// doubles, texts and blobs as bulk strings, null as null.
pub open spec fn replies_entity(e: Entity, r: Reply) -> bool {
    match e {
        Entity::Integer { int: v } => r == (Reply::Integer { value: v as i64 }),
        Entity::Float { bits } => r == (Reply::Double { bits }),
        Entity::Text { text } => r matches Reply::Bulk { text: t } && t@ == text@,
        Entity::Blob { blob } => r matches Reply::Bulk { text: t } && t@ == blob@,
        Entity::Null => r is Null,
        Entity::OK { .. } => replies_ok(r),
        Entity::DONE { modified_rows, .. } => replies_done(r, modified_rows),
    }
}

/// A row is answered as the array of its values.
pub open spec fn replies_row(row: Seq<Entity>, r: Reply) -> bool {
    &&& r matches Reply::Array { elements }
    &&& r->elements@.len() == row.len()
    &&& forall|i: int| 0 <= i < row.len() ==> replies_entity(row[i], #[trigger] r->elements@[i])
}

/// How a result is answered: `OK`, `DONE` with the rows changed, or the
/// array of its rows.
pub open spec fn replies_result(q: QueryResult, r: Reply) -> bool {
    match q {
        QueryResult::OK { .. } => replies_ok(r),
        QueryResult::DONE { modified_rows, .. } => replies_done(r, modified_rows),
        QueryResult::Array { array, .. } => {
            &&& r matches Reply::Array { elements }
            &&& r->elements@.len() == array@.len()
            &&& forall|i: int|
                0 <= i < array@.len() ==> replies_row(array@[i]@, #[trigger] r->elements@[i])
        },
    }
}

fn ok_reply() -> (r: Reply)
    ensures
        replies_ok(r),
{
    Reply::Simple { text: "OK" }
}

fn done_reply(modified_rows: i32) -> (r: Reply)
    ensures
        replies_done(r, modified_rows),
{
    Reply::Array { elements: vec![Reply::Simple { text: "DONE" }, Reply::Integer { value: modified_rows as i64 }] }
}

/// The answer for one value of a row.
pub fn entity_reply(e: &Entity) -> (r: Reply)
    ensures
        replies_entity(*e, r),
{
    match e {
        Entity::Integer { int: v } => Reply::Integer { value: *v as i64 },
        Entity::Float { bits } => Reply::Double { bits: *bits },
        Entity::Text { text } => Reply::Bulk { text: text.clone() },
        Entity::Blob { blob } => Reply::Bulk { text: blob.clone() },
        Entity::Null => Reply::Null,
        Entity::OK { .. } => ok_reply(),
        Entity::DONE { modified_rows, .. } => done_reply(*modified_rows),
    }
}

fn row_reply(row: &Row) -> (r: Reply)
    ensures
        replies_row(row@, r),
{
    let mut elements: Vec<Reply> = Vec::new();
    let mut i: usize = 0;
    while i < row.len()
        invariant
            i <= row.len(),
            elements@.len() == i,
            forall|k: int| 0 <= k < i ==> replies_entity(row@[k], #[trigger] elements@[k]),
        decreases row.len() - i,
    {
        elements.push(entity_reply(&row[i]));
        i = i + 1;
    }
    Reply::Array { elements }
}

/// The answer for a result.
pub fn query_result_reply(q: &QueryResult) -> (r: Reply)
    ensures
        replies_result(*q, r),
{
    match q {
        QueryResult::OK { .. } => ok_reply(),
        QueryResult::DONE { modified_rows, .. } => done_reply(*modified_rows),
        QueryResult::Array { array, .. } => {
            let mut elements: Vec<Reply> = Vec::new();
            let mut i: usize = 0;
            while i < array.len()
                invariant
                    i <= array.len(),
                    elements@.len() == i,
                    forall|k: int| 0 <= k < i ==> replies_row(array@[k]@, #[trigger] elements@[k]),
                decreases array.len() - i,
            {
                elements.push(row_reply(&array[i]));
                i = i + 1;
            }
            Reply::Array { elements }
        },
    }
}

/// An error is answered with its description.
pub fn error_reply(e: &RediSQLError) -> (r: Reply)
    ensures
        r matches Reply::Error { message } && message@ == e@.2,
{
    Reply::Error { message: String::from_str(e.description()) }
}

/// The text of a value, when it is one.
pub open spec fn text_of(e: Entity) -> Option<Seq<char>> {
    match e {
        Entity::Text { text } => Some(text@),
        _ => None,
    }
}

/// A row of the metadata table names a saved statement when its second and
/// third columns (name, query) are texts.
pub open spec fn saved_statement_of(row: Seq<Entity>) -> Option<(Seq<char>, Seq<char>)> {
    match (text_of(row[1]), text_of(row[2])) {
        (Some(name), Some(query)) => Some((name, query)),
        _ => None,
    }
}

/// The saved statements of the metadata rows, in order.
pub open spec fn saved_statements(rows: Seq<Seq<Entity>>) -> Seq<(Seq<char>, Seq<char>)>
    decreases rows.len(),
{
    if rows.len() == 0 {
        Seq::empty()
    } else {
        let rest = saved_statements(rows.drop_last());
        match saved_statement_of(rows.last()) {
            Some(p) => rest.push(p),
            None => rest,
        }
    }
}

pub open spec fn rows_view(rows: Seq<Row>) -> Seq<Seq<Entity>> {
    rows.map_values(|r: Row| r@)
}

pub open spec fn pairs_view(v: Seq<(String, String)>) -> Seq<(Seq<char>, Seq<char>)> {
    v.map_values(|p: (String, String)| (p.0@, p.1@))
}

/// The metadata rows of a result: those of an array, none otherwise.
pub open spec fn result_rows(r: QueryResult) -> Seq<Seq<Entity>> {
    match r {
        QueryResult::Array { array, .. } => rows_view(array@),
        _ => Seq::empty(),
    }
}

/// Every metadata row has the three columns (kind, name, value).
pub open spec fn rows_have_three_columns(r: QueryResult) -> bool {
    forall|k: int| 0 <= k < result_rows(r).len() ==> #[trigger] result_rows(r)[k].len() >= 3
}

/// Whether every metadata row of a result has its three columns.
pub fn result_rows_have_three_columns(r: &QueryResult) -> (b: bool)
    ensures
        b == rows_have_three_columns(*r),
{
    match r {
        QueryResult::Array { array, .. } => {
            let mut i: usize = 0;
            while i < array.len()
                invariant
                    i <= array.len(),
                    rows_view(array@) == result_rows(*r),
                    forall|k: int| 0 <= k < i ==> #[trigger] result_rows(*r)[k].len() >= 3,
                decreases array.len() - i,
            {
                if array[i].len() < 3 {
                    assert(result_rows(*r)[i as int] == array[i as int]@);
                    return false;
                }
                assert(result_rows(*r)[i as int] == array[i as int]@);
                i = i + 1;
            }
            true
        },
        _ => true,
    }
}

/// The statements to compile again when a database is loaded: the
/// (name, query) pairs of the saved statements, in the order of the rows.
pub fn statements_to_restore(saved: &QueryResult) -> (r: Vec<(String, String)>)
    requires
        rows_have_three_columns(*saved),
    ensures
        pairs_view(r@) == saved_statements(result_rows(*saved)),
{
    let mut out: Vec<(String, String)> = Vec::new();
    match saved {
        QueryResult::Array { array, .. } => {
            let ghost rv = rows_view(array@);
            let mut i: usize = 0;
            assert(rv.take(0) =~= Seq::<Seq<Entity>>::empty());
            assert(rv == result_rows(*saved));
            assert forall|k: int| 0 <= k < rv.len() implies #[trigger] rv[k].len() >= 3 by {
                assert(result_rows(*saved)[k].len() >= 3);
            }
            while i < array.len()
                invariant
                    i <= array.len(),
                    rv == rows_view(array@),
                    rv == result_rows(*saved),
                    forall|k: int| 0 <= k < rv.len() ==> #[trigger] rv[k].len() >= 3,
                    pairs_view(out@) == saved_statements(rv.take(i as int)),
                decreases array.len() - i,
            {
                let row = &array[i];
                assert(row@ == rv[i as int]);
                assert(rv[i as int].len() >= 3);
                assert(rv.take(i + 1).drop_last() =~= rv.take(i as int));
                let ghost before = out@;
                match (&row[1], &row[2]) {
                    (Entity::Text { text: name }, Entity::Text { text: query }) => {
                        out.push((name.clone(), query.clone()));
                        assert(pairs_view(out@) =~= pairs_view(before).push((name@, query@)));
                    },
                    _ => {},
                }
                i = i + 1;
            }
            assert(rv.take(array.len() as int) =~= rv);
        },
        _ => {
            assert(pairs_view(out@) =~= Seq::empty());
        },
    }
    out
}


// ----------------------------------------------------------------------
// Keys of the Redis keyspace that hold (or should hold) a database.
// ----------------------------------------------------------------------

/// Redis's `REDISMODULE_OK` and `REDISMODULE_ERR`.
pub const REDISMODULE_OK: i32 = 0;

pub const REDISMODULE_ERR: i32 = 1;

/// Redis's `REDISMODULE_KEYTYPE_EMPTY`.
pub const REDISMODULE_KEYTYPE_EMPTY: i32 = 0;

/// What a key holds: nothing, a RediSQL database, or other data.
pub enum KeyTypes {
    Empty,
    RediSQL,
    Other,
}

/// What `CREATE_DB` does with its key: `Ok(true)` creates the database,
/// `Ok(false)` answers that it is already there.
pub open spec fn spec_create_db_decision(key_type: KeyTypes, can_exists: bool) -> Result<bool, ErrorView> {
    match key_type {
        KeyTypes::Empty => Ok(true),
        KeyTypes::RediSQL => if can_exists {
            Ok(false)
        } else {
            Err(crate::redisql_error::coded(4))
        },
        KeyTypes::Other => Err(crate::redisql_error::coded(5)),
    }
}

/// `CREATE_DB` creates a database on an empty key, accepts one that already
/// holds a database unless `MUST_CREATE` was given, and refuses a key that
/// holds other data.
pub fn create_db_decision(key_type: KeyTypes, can_exists: bool) -> (r: Result<bool, RediSQLError>)
    ensures
        result_view(r) == spec_create_db_decision(key_type, can_exists),
{
    match key_type {
        KeyTypes::Empty => Ok(true),
        KeyTypes::RediSQL => if can_exists {
            Ok(false)
        } else {
            Err(RediSQLError::numbered(4))
        },
        KeyTypes::Other => Err(RediSQLError::no_redisql_key()),
    }
}

/// The answer to storing a new database in its key, from Redis's status.
pub fn key_store_outcome(type_set: i32) -> (r: Result<QueryResult, RediSQLError>)
    ensures
        type_set == REDISMODULE_OK ==> r == Ok::<QueryResult, RediSQLError>(
            QueryResult::OK { to_replicate: false },
        ),
        type_set == REDISMODULE_ERR ==> r is Err && r->Err_0@ == crate::redisql_error::coded(7),
        type_set != REDISMODULE_OK && type_set != REDISMODULE_ERR ==> r is Err && r->Err_0@
            == crate::redisql_error::coded(8),
{
    if type_set == REDISMODULE_OK {
        Ok(QueryResult::OK { to_replicate: false })
    } else if type_set == REDISMODULE_ERR {
        Err(RediSQLError::numbered(7))
    } else {
        Err(RediSQLError::numbered(8))
    }
}

/// The error for a key that does not hold a database: empty, or of another
/// type.
pub fn key_type_error_message(key_type: i32) -> (m: &'static str)
    ensures
        m@ == if key_type == REDISMODULE_KEYTYPE_EMPTY {
            "ERR - Error the key is empty"@
        } else {
            "WRONGTYPE Operation against a key holding the wrong kind of value"@
        },
{
    if key_type == REDISMODULE_KEYTYPE_EMPTY {
        "ERR - Error the key is empty"
    } else {
        "WRONGTYPE Operation against a key holding the wrong kind of value"
    }
}

// ----------------------------------------------------------------------
// The statements stored in a database, by name.
// ----------------------------------------------------------------------

/// `fnv::FnvHasher`, the hasher of the statement map.
#[verifier::external_type_specification]
#[verifier::external_body]
pub struct ExFnvHasher(fnv::FnvHasher);

/// `std::hash::BuildHasherDefault`, which builds the statement map's hashers.
#[verifier::external_type_specification]
#[verifier::external_body]
#[verifier::reject_recursive_types(H)]
pub struct ExBuildHasherDefault<H>(std::hash::BuildHasherDefault<H>);

/// The stored statements: for each name, the handle of its compiled form
/// and whether it only reads.
pub type StatementMap = FnvHashMap<String, (u64, bool)>;

/// The entries of a statement map, keyed by the characters of each name.
pub uninterp spec fn statement_entries(m: StatementMap) -> Map<Seq<char>, (u64, bool)>;

/// `FnvHashMap::default()`: a map with no entries.
#[verifier::external_body]
fn statement_map_new() -> (fresh: StatementMap)
    ensures
        statement_entries(fresh) =~= Map::empty(),
{
    FnvHashMap::default()
}

/// `HashMap::contains_key`: whether a name has an entry.
#[verifier::external_body]
fn statement_map_contains(m: &StatementMap, k: &str) -> (b: bool)
    ensures
        b == statement_entries(*m).contains_key(k@),
{
    m.contains_key(k)
}

/// `HashMap::get`: the entry of a name, if any.
#[verifier::external_body]
fn statement_map_get(m: &StatementMap, k: &str) -> (r: Option<(u64, bool)>)
    ensures
        match r {
            Some(v) => statement_entries(*m).contains_key(k@) && statement_entries(*m)[k@] == v,
            None => !statement_entries(*m).contains_key(k@),
        },
{
    m.get(k).copied()
}

/// `HashMap::insert`: the name now maps to the value, the other entries stay.
#[verifier::external_body]
fn statement_map_insert(m: &mut StatementMap, k: String, v: (u64, bool))
    ensures
        statement_entries(*final(m)) == statement_entries(*old(m)).insert(k@, v),
{
    m.insert(k, v);
}

/// `HashMap::remove`: the name has no entry any more, the others stay.
#[verifier::external_body]
fn statement_map_remove(m: &mut StatementMap, k: &str)
    ensures
        statement_entries(*final(m)) == statement_entries(*old(m)).remove(k@),
{
    m.remove(k);
}

/// An error by its view: (code, debug message, description).
pub type ErrorView = (u32, Seq<char>, Seq<char>);

/// The stored statements, by name.
pub type Book = Map<Seq<char>, (u64, bool)>;

pub open spec fn already_present_error() -> ErrorView {
    (
        0,
        "Statement already present"@,
        "The statement is already present in the database, try with UPDATE_STATEMENT"@,
    )
}

pub open spec fn not_present_for_delete_error() -> ErrorView {
    (
        0,
        "Statement not present."@,
        "The statement is not present in the database, impossible to delete it."@,
    )
}

pub open spec fn not_present_for_update_error() -> ErrorView {
    (
        0,
        "Statement not present."@,
        "The statement is not present in the database, impossible to update it."@,
    )
}

pub open spec fn not_found_error() -> ErrorView {
    (0, "No statement found"@, "The statement is not present in the database"@)
}

pub open spec fn not_read_only_error() -> ErrorView {
    (
        0,
        "Not read only statement"@,
        "Statement is not read only but it may modify the database, use `EXEC_STATEMENT` instead."@,
    )
}

/// The message of the error met when restoring a name that is taken.
pub open spec fn already_exists_message() -> Seq<char> {
    "Statement already exists, impossible to overwrite it with this command, try with UPDATE_STATEMENT"@
}

pub open spec fn already_exists_error() -> ErrorView {
    (0, "ERR - "@ + already_exists_message(), already_exists_message())
}

/// The view of a result that carries an error.
pub open spec fn result_view<T>(r: Result<T, RediSQLError>) -> Result<T, ErrorView> {
    match r {
        Ok(t) => Ok(t),
        Err(e) => Err(e@),
    }
}

/// The view of the answer to a change of the book: success or an error.
pub open spec fn outcome_view(r: Result<QueryResult, RediSQLError>) -> Result<(), ErrorView> {
    match r {
        Ok(_) => Ok(()),
        Err(e) => Err(e@),
    }
}

/// `NEW`: a name that is taken is refused; else the compiled statement (or
/// the error of its compilation) decides.
pub open spec fn spec_insert_new(b: Book, id: Seq<char>, compiled: Result<(u64, bool), ErrorView>) -> (
    Book,
    Result<(), ErrorView>,
) {
    if b.contains_key(id) {
        (b, Err(already_present_error()))
    } else {
        match compiled {
            Ok(h) => (b.insert(id, h), Ok(())),
            Err(e) => (b, Err(e)),
        }
    }
}

/// `DELETE`: a name without a statement is refused; else the removal of its
/// metadata (or its error) decides.
pub open spec fn spec_delete(b: Book, id: Seq<char>, removed: Result<(), ErrorView>) -> (
    Book,
    Result<(), ErrorView>,
) {
    if !b.contains_key(id) {
        (b, Err(not_present_for_delete_error()))
    } else {
        match removed {
            Ok(()) => (b.remove(id), Ok(())),
            Err(e) => (b, Err(e)),
        }
    }
}

/// `UPDATE`: a name without a statement is refused; else the new compiled
/// statement (or the error of its compilation) decides.
pub open spec fn spec_update(b: Book, id: Seq<char>, compiled: Result<(u64, bool), ErrorView>) -> (
    Book,
    Result<(), ErrorView>,
) {
    if !b.contains_key(id) {
        (b, Err(not_present_for_update_error()))
    } else {
        match compiled {
            Ok(h) => (b.insert(id, h), Ok(())),
            Err(e) => (b, Err(e)),
        }
    }
}

/// Restoring a statement saved in the metadata: it is stored as it
/// compiled, with whether it only reads.
pub open spec fn spec_restore(b: Book, id: Seq<char>, compiled: Result<(u64, bool), ErrorView>) -> (
    Book,
    Result<(), ErrorView>,
) {
    if b.contains_key(id) {
        (b, Err(already_exists_error()))
    } else {
        match compiled {
            Ok(h) => (b.insert(id, h), Ok(())),
            Err(e) => (b, Err(e)),
        }
    }
}

/// Which statement an execution runs.
pub open spec fn spec_exec_statement(b: Book, id: Seq<char>) -> Result<u64, ErrorView> {
    if b.contains_key(id) {
        Ok(b[id].0)
    } else {
        Err(not_found_error())
    }
}

/// Which statement a query runs: only one that only reads.
pub open spec fn spec_query_statement(b: Book, id: Seq<char>) -> Result<u64, ErrorView> {
    if !b.contains_key(id) {
        Err(not_found_error())
    } else if b[id].1 {
        Ok(b[id].0)
    } else {
        Err(not_read_only_error())
    }
}

/// The statements of a database, each under its name: the handle of its
/// compiled form and whether it only reads. Compiling a statement, binding
/// its arguments and running it is the database's work; the book decides
/// what is stored, what is refused and which statement runs.
pub struct ReplicationBook {
    data: StatementMap,
}

impl View for ReplicationBook {
    type V = Book;

    closed spec fn view(&self) -> Book {
        statement_entries(self.data)
    }
}

fn error_with(debug: &str, description: &str) -> (e: RediSQLError)
    ensures
        e@ == (0u32, debug@, description@),
{
    RediSQLError::new(String::from_str(debug), String::from_str(description))
}

impl ReplicationBook {
    pub fn new() -> (b: Self)
        ensures
            b@ == Map::<Seq<char>, (u64, bool)>::empty(),
    {
        ReplicationBook { data: statement_map_new() }
    }

    pub fn is_statement_present(&self, identifier: &str) -> (b: bool)
        ensures
            b == self@.contains_key(identifier@),
    {
        statement_map_contains(&self.data, identifier)
    }

    /// Stores a new statement under `identifier`, from the outcome of
    /// compiling it (its handle and whether it only reads).
    pub fn insert_new_statement(
        &mut self,
        identifier: &str,
        compiled: Result<(u64, bool), RediSQLError>,
    ) -> (r: Result<QueryResult, RediSQLError>)
        ensures
            spec_insert_new(old(self)@, identifier@, result_view(compiled)) == (
                final(self)@,
                outcome_view(r),
            ),
            r is Ok ==> r->Ok_0 == (QueryResult::OK { to_replicate: true }),
    {
        if statement_map_contains(&self.data, identifier) {
            return Err(
                error_with(
                    "Statement already present",
                    "The statement is already present in the database, try with UPDATE_STATEMENT",
                ),
            );
        }
        match compiled {
            Err(e) => Err(e),
            Ok(h) => {
                statement_map_insert(&mut self.data, String::from_str(identifier), h);
                Ok(QueryResult::OK { to_replicate: true })
            },
        }
    }

    /// Removes the statement `identifier`, given the outcome of removing its
    /// metadata from the database.
    pub fn delete_statement(&mut self, identifier: &str, removed: Result<(), RediSQLError>) -> (r:
        Result<QueryResult, RediSQLError>)
        ensures
            spec_delete(old(self)@, identifier@, result_view(removed)) == (
                final(self)@,
                outcome_view(r),
            ),
            r is Ok ==> r->Ok_0 == (QueryResult::OK { to_replicate: true }),
    {
        if !statement_map_contains(&self.data, identifier) {
            return Err(
                error_with(
                    "Statement not present.",
                    "The statement is not present in the database, impossible to delete it.",
                ),
            );
        }
        match removed {
            Err(e) => Err(e),
            Ok(()) => {
                statement_map_remove(&mut self.data, identifier);
                Ok(QueryResult::OK { to_replicate: true })
            },
        }
    }

    /// Replaces the statement `identifier` by a newly compiled one.
    pub fn update_statement(
        &mut self,
        identifier: &str,
        compiled: Result<(u64, bool), RediSQLError>,
    ) -> (r: Result<QueryResult, RediSQLError>)
        ensures
            spec_update(old(self)@, identifier@, result_view(compiled)) == (
                final(self)@,
                outcome_view(r),
            ),
            r is Ok ==> r->Ok_0 == (QueryResult::OK { to_replicate: true }),
    {
        if !statement_map_contains(&self.data, identifier) {
            return Err(
                error_with(
                    "Statement not present.",
                    "The statement is not present in the database, impossible to update it.",
                ),
            );
        }
        match compiled {
            Err(e) => Err(e),
            Ok(h) => {
                statement_map_insert(&mut self.data, String::from_str(identifier), h);
                Ok(QueryResult::OK { to_replicate: true })
            },
        }
    }

    /// The statement that `QUERY_STATEMENT identifier` runs.
    pub fn query_statement(&self, identifier: &str) -> (r: Result<u64, RediSQLError>)
        ensures
            result_view(r) == spec_query_statement(self@, identifier@),
    {
        match statement_map_get(&self.data, identifier) {
            None => Err(error_with("No statement found", "The statement is not present in the database")),
            Some((h, true)) => Ok(h),
            Some((_, false)) => Err(
                error_with(
                    "Not read only statement",
                    "Statement is not read only but it may modify the database, use `EXEC_STATEMENT` instead.",
                ),
            ),
        }
    }

    /// The statement that `EXEC_STATEMENT identifier` runs.
    pub fn exec_statement(&self, identifier: &str) -> (r: Result<u64, RediSQLError>)
        ensures
            result_view(r) == spec_exec_statement(self@, identifier@),
    {
        match statement_map_get(&self.data, identifier) {
            None => Err(error_with("No statement found", "The statement is not present in the database")),
            Some((h, _)) => Ok(h),
        }
    }

    /// Stores a statement restored from the database's metadata.
    pub fn compile_and_insert_statement(
        &mut self,
        identifier: &str,
        compiled: Result<(u64, bool), RediSQLError>,
    ) -> (r: Result<QueryResult, RediSQLError>)
        ensures
            spec_restore(old(self)@, identifier@, result_view(compiled)) == (
                final(self)@,
                outcome_view(r),
            ),
            r is Ok ==> r->Ok_0 == (QueryResult::OK { to_replicate: true }),
    {
        if statement_map_contains(&self.data, identifier) {
            let err = RedisError {
                msg: String::from_str(
                    "Statement already exists, impossible to overwrite it with this command, try with UPDATE_STATEMENT",
                ),
            };
            return Err(RediSQLError::from_redis_error(err));
        }
        match compiled {
            Err(e) => Err(e),
            Ok(h) => {
                statement_map_insert(&mut self.data, String::from_str(identifier), h);
                Ok(QueryResult::OK { to_replicate: true })
            },
        }
    }
}

/// A query (`QUERY`, `QUERY_STATEMENT`) runs only when every statement it
/// is made of only reads; `read_only` tells it for each statement.
pub fn query_permission(read_only: &Vec<bool>) -> (r: Result<(), RediSQLError>)
    ensures
        r is Ok <==> forall|k: int| 0 <= k < read_only@.len() ==> #[trigger] read_only@[k],
        r is Err ==> r->Err_0@ == not_read_only_error(),
{
    if all_read_only(read_only) {
        Ok(())
    } else {
        Err(
            error_with(
                "Not read only statement",
                "Statement is not read only but it may modify the database, use `EXEC_STATEMENT` instead.",
            ),
        )
    }
}

// ----------------------------------------------------------------------
// The worker of a database: what it does with each message it receives.
// ----------------------------------------------------------------------

/// What the worker of a database does with one message from its channel.
/// The steps that name database work (running, compiling, removing) are
/// carried out by the caller, which then hands the outcome to the book.
pub enum WorkerStep {
    /// The channel closed, or the worker was asked to stop.
    Stop,
    /// Answer the client at once, without touching the database.
    Answer { client: BlockedClient, result: Result<QueryResult, RediSQLError> },
    /// Run a query on the database; a read-only one must not write.
    RunQuery {
        query: &'static str,
        arguments: Vec<&'static str>,
        read_only: bool,
        timeout: std::time::Instant,
        return_method: ReturnMethod,
        client: BlockedClient,
    },
    /// Compile `statement` and save it with the metadata, then hand the
    /// outcome to `update_statement` when `replace` holds, else to
    /// `insert_new_statement`.
    Compile {
        identifier: &'static str,
        statement: &'static str,
        replace: bool,
        client: BlockedClient,
    },
    /// Remove the statement from the metadata, then hand the outcome to
    /// `delete_statement`.
    Remove { identifier: &'static str, client: BlockedClient },
    /// Bind the arguments to the stored statement `handle` and run it.
    RunStatement {
        handle: u64,
        arguments: Vec<&'static str>,
        timeout: std::time::Instant,
        return_method: ReturnMethod,
        client: BlockedClient,
    },
    /// Describe the statement `identifier` from the metadata.
    Show { identifier: &'static str, return_method: ReturnMethod, client: BlockedClient },
    /// List the statements of the metadata.
    List { return_method: ReturnMethod, client: BlockedClient },
}

/// An answer that is the error `e`.
pub open spec fn answers_error(s: WorkerStep, client: BlockedClient, e: ErrorView) -> bool {
    s matches WorkerStep::Answer { client: c, result: Err(err) } && c == client && err@ == e
}

/// The step of the worker for one message (`None` once the channel is
/// closed). Creating a statement under a taken name is refused unless
/// `CAN_UPDATE` was given; updating one that is missing is refused unless
/// `CAN_CREATE` was given; a statement is only run when the book says which.
pub fn worker_step(book: &ReplicationBook, message: Option<Command>) -> (s: WorkerStep)
    ensures
        match message {
            None => s is Stop,
            Some(Command::Stop) => s is Stop,
            Some(Command::Exec { query, arguments, timeout, return_method, client }) => s
                == (WorkerStep::RunQuery {
                query,
                arguments,
                read_only: false,
                timeout,
                return_method,
                client,
            }),
            Some(Command::Query { query, arguments, timeout, return_method, client }) => s
                == (WorkerStep::RunQuery {
                query,
                arguments,
                read_only: true,
                timeout,
                return_method,
                client,
            }),
            Some(Command::CompileStatement { identifier, statement, can_update, client }) => {
                let present = book@.contains_key(identifier@);
                if present && !can_update {
                    answers_error(s, client, already_present_error())
                } else {
                    s == (WorkerStep::Compile { identifier, statement, replace: present, client })
                }
            },
            Some(Command::UpdateStatement { identifier, statement, can_create, client }) => {
                let present = book@.contains_key(identifier@);
                if !present && !can_create {
                    answers_error(s, client, not_present_for_update_error())
                } else {
                    s == (WorkerStep::Compile { identifier, statement, replace: present, client })
                }
            },
            Some(Command::DeleteStatement { identifier, client }) => if book@.contains_key(
                identifier@,
            ) {
                s == (WorkerStep::Remove { identifier, client })
            } else {
                answers_error(s, client, not_present_for_delete_error())
            },
            Some(Command::ExecStatement { identifier, arguments, timeout, return_method, client }) => {
                match spec_exec_statement(book@, identifier@) {
                    Ok(handle) => s == (WorkerStep::RunStatement {
                        handle,
                        arguments,
                        timeout,
                        return_method,
                        client,
                    }),
                    Err(e) => answers_error(s, client, e),
                }
            },
            Some(Command::QueryStatement { identifier, arguments, timeout, return_method, client }) => {
                match spec_query_statement(book@, identifier@) {
                    Ok(handle) => s == (WorkerStep::RunStatement {
                        handle,
                        arguments,
                        timeout,
                        return_method,
                        client,
                    }),
                    Err(e) => answers_error(s, client, e),
                }
            },
            Some(Command::ShowStatement { identifier, return_method, client }) => s
                == (WorkerStep::Show { identifier, return_method, client }),
            Some(Command::ListStatements { return_method, client }) => s == (WorkerStep::List {
                return_method,
                client,
            }),
        },
{
    match message {
        None => WorkerStep::Stop,
        Some(Command::Stop) => WorkerStep::Stop,
        Some(Command::Exec { query, arguments, timeout, return_method, client }) => {
            WorkerStep::RunQuery { query, arguments, read_only: false, timeout, return_method, client }
        },
        Some(Command::Query { query, arguments, timeout, return_method, client }) => {
            WorkerStep::RunQuery { query, arguments, read_only: true, timeout, return_method, client }
        },
        Some(Command::CompileStatement { identifier, statement, can_update, client }) => {
            let present = book.is_statement_present(identifier);
            if present && !can_update {
                WorkerStep::Answer {
                    client,
                    result: Err(
                        error_with(
                            "Statement already present",
                            "The statement is already present in the database, try with UPDATE_STATEMENT",
                        ),
                    ),
                }
            } else {
                WorkerStep::Compile { identifier, statement, replace: present, client }
            }
        },
        Some(Command::UpdateStatement { identifier, statement, can_create, client }) => {
            let present = book.is_statement_present(identifier);
            if !present && !can_create {
                WorkerStep::Answer {
                    client,
                    result: Err(
                        error_with(
                            "Statement not present.",
                            "The statement is not present in the database, impossible to update it.",
                        ),
                    ),
                }
            } else {
                WorkerStep::Compile { identifier, statement, replace: present, client }
            }
        },
        Some(Command::DeleteStatement { identifier, client }) => {
            if book.is_statement_present(identifier) {
                WorkerStep::Remove { identifier, client }
            } else {
                WorkerStep::Answer {
                    client,
                    result: Err(
                        error_with(
                            "Statement not present.",
                            "The statement is not present in the database, impossible to delete it.",
                        ),
                    ),
                }
            }
        },
        Some(Command::ExecStatement { identifier, arguments, timeout, return_method, client }) => {
            match book.exec_statement(identifier) {
                Ok(handle) => WorkerStep::RunStatement {
                    handle,
                    arguments,
                    timeout,
                    return_method,
                    client,
                },
                Err(e) => WorkerStep::Answer { client, result: Err(e) },
            }
        },
        Some(Command::QueryStatement { identifier, arguments, timeout, return_method, client }) => {
            match book.query_statement(identifier) {
                Ok(handle) => WorkerStep::RunStatement {
                    handle,
                    arguments,
                    timeout,
                    return_method,
                    client,
                },
                Err(e) => WorkerStep::Answer { client, result: Err(e) },
            }
        },
        Some(Command::ShowStatement { identifier, return_method, client }) => {
            WorkerStep::Show { identifier, return_method, client }
        },
        Some(Command::ListStatements { return_method, client }) => {
            WorkerStep::List { return_method, client }
        },
    }
}

/// A statement stored under a free name is what an execution of that name
/// runs, and a query runs it exactly when it only reads.
pub proof fn law_created_statement_runs(b: Book, id: Seq<char>, h: (u64, bool))
    requires
        !b.contains_key(id),
    ensures
        ({
            let (after, outcome) = spec_insert_new(b, id, Ok(h));
            &&& outcome == Ok::<(), ErrorView>(())
            &&& spec_exec_statement(after, id) == Ok::<u64, ErrorView>(h.0)
            &&& spec_query_statement(after, id) == if h.1 {
                Ok::<u64, ErrorView>(h.0)
            } else {
                Err(not_read_only_error())
            }
        }),
{
}

/// A statement cannot be overwritten by creating it again: the creation is
/// refused and the book stays as it was.
pub proof fn law_create_does_not_overwrite(
    b: Book,
    id: Seq<char>,
    first: (u64, bool),
    second: Result<(u64, bool), ErrorView>,
)
    requires
        !b.contains_key(id),
    ensures
        ({
            let (after, _) = spec_insert_new(b, id, Ok(first));
            spec_insert_new(after, id, second) == (after, Err::<(), ErrorView>(already_present_error()))
        }),
{
}

/// Once deleted, a statement is found neither by executions nor by queries.
pub proof fn law_deleted_statement_is_gone(b: Book, id: Seq<char>)
    requires
        b.contains_key(id),
    ensures
        ({
            let (after, outcome) = spec_delete(b, id, Ok(()));
            &&& outcome == Ok::<(), ErrorView>(())
            &&& spec_exec_statement(after, id) == Err::<u64, ErrorView>(not_found_error())
            &&& spec_query_statement(after, id) == Err::<u64, ErrorView>(not_found_error())
        }),
{
}

/// Updating a stored statement stores the new one as it compiled:
/// executions run it, and queries run it exactly when it (the new one)
/// only reads. Updating a name without a statement is refused.
pub proof fn law_update_replaces(b: Book, id: Seq<char>, h: (u64, bool))
    ensures
        b.contains_key(id) ==> ({
            let (after, outcome) = spec_update(b, id, Ok(h));
            &&& outcome == Ok::<(), ErrorView>(())
            &&& after.contains_key(id) && after[id] == h
            &&& spec_exec_statement(after, id) == Ok::<u64, ErrorView>(h.0)
            &&& spec_query_statement(after, id) == if h.1 {
                Ok::<u64, ErrorView>(h.0)
            } else {
                Err(not_read_only_error())
            }
        }),
        !b.contains_key(id) ==> spec_update(b, id, Ok(h)) == (b, Err::<(), ErrorView>(
            not_present_for_update_error(),
        )),
{
}

/// Creating, updating, deleting or restoring one statement leaves what
/// every other name runs as it was.
pub proof fn law_other_names_untouched(
    b: Book,
    id: Seq<char>,
    other: Seq<char>,
    compiled: Result<(u64, bool), ErrorView>,
    removed: Result<(), ErrorView>,
    restored: Result<(u64, bool), ErrorView>,
)
    requires
        id != other,
    ensures
        spec_exec_statement(spec_insert_new(b, id, compiled).0, other) == spec_exec_statement(b, other),
        spec_query_statement(spec_insert_new(b, id, compiled).0, other) == spec_query_statement(b, other),
        spec_exec_statement(spec_update(b, id, compiled).0, other) == spec_exec_statement(b, other),
        spec_query_statement(spec_update(b, id, compiled).0, other) == spec_query_statement(b, other),
        spec_exec_statement(spec_delete(b, id, removed).0, other) == spec_exec_statement(b, other),
        spec_query_statement(spec_delete(b, id, removed).0, other) == spec_query_statement(b, other),
        spec_exec_statement(spec_restore(b, id, restored).0, other) == spec_exec_statement(b, other),
        spec_query_statement(spec_restore(b, id, restored).0, other) == spec_query_statement(b, other),
{
}

/// A change that is refused, or whose database work failed, leaves the book
/// as it was.
pub proof fn law_failed_change_keeps_book(
    b: Book,
    id: Seq<char>,
    compiled: Result<(u64, bool), ErrorView>,
    removed: Result<(), ErrorView>,
    restored: Result<(u64, bool), ErrorView>,
)
    ensures
        spec_insert_new(b, id, compiled).1 is Err ==> spec_insert_new(b, id, compiled).0 == b,
        spec_update(b, id, compiled).1 is Err ==> spec_update(b, id, compiled).0 == b,
        spec_delete(b, id, removed).1 is Err ==> spec_delete(b, id, removed).0 == b,
        spec_restore(b, id, restored).1 is Err ==> spec_restore(b, id, restored).0 == b,
{
}

/// A statement restored from the metadata runs as it did before: executions
/// run it, and queries run it exactly when it only reads.
pub proof fn law_restored_statement_runs(b: Book, id: Seq<char>, h: (u64, bool))
    requires
        !b.contains_key(id),
    ensures
        ({
            let (after, outcome) = spec_restore(b, id, Ok(h));
            &&& outcome == Ok::<(), ErrorView>(())
            &&& spec_exec_statement(after, id) == Ok::<u64, ErrorView>(h.0)
            &&& spec_query_statement(after, id) == if h.1 {
                Ok::<u64, ErrorView>(h.0)
            } else {
                Err(not_read_only_error())
            }
        }),
{
}

} // verus!
