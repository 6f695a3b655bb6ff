//! The text handling of the `REDISQL_TABLES_BRUTE_HASH` virtual table, which
//! shows Redis hashes named `<table>:<rowid>` as the rows of a SQL table.
use vstd::prelude::*;

use std::collections::VecDeque;

use crate::redis_type::{reply_text, strings_view, CallReply};
use crate::text::same_text;

verus! {

/// The part of `s` before the first `c` (all of `s` when there is none).
pub open spec fn take_until(s: Seq<char>, c: char) -> Seq<char>
    decreases s.len(),
{
    if s.len() == 0 {
        Seq::empty()
    } else if s[0] == c {
        Seq::empty()
    } else {
        seq![s[0]] + take_until(s.drop_first(), c)
    }
}

proof fn lemma_take_until(s: Seq<char>, c: char, i: int)
    requires
        0 <= i <= s.len(),
        forall|k: int| 0 <= k < i ==> s[k] != c,
        i == s.len() || s[i] == c,
    ensures
        take_until(s, c) == s.take(i),
    decreases s.len(),
{
    if s.len() == 0 {
        assert(s.take(i) =~= Seq::<char>::empty());
    } else if i == 0 {
        assert(s.take(i) =~= Seq::<char>::empty());
    } else {
        lemma_take_until(s.drop_first(), c, i - 1);
        assert(s.take(i) =~= seq![s[0]] + s.drop_first().take(i - 1));
    }
}

/// The position of the first `c` in `s`, or its length when there is none.
pub fn find_char(s: &str, c: char) -> (i: usize)
    ensures
        i <= s@.len(),
        forall|k: int| 0 <= k < i ==> s@[k] != c,
        i == s@.len() || s@[i as int] == c,
        take_until(s@, c) == s@.take(i as int),
{
    let n = s.unicode_len();
    let mut i: usize = 0;
    while i < n
        invariant
            n == s@.len(),
            i <= n,
            forall|k: int| 0 <= k < i ==> s@[k] != c,
        ensures
            i <= n,
            forall|k: int| 0 <= k < i ==> s@[k] != c,
            i == n || s@[i as int] == c,
        decreases n - i,
    {
        if s.get_char(i) == c {
            break ;
        }
        i = i + 1;
    }
    proof {
        lemma_take_until(s@, c, i as int);
    }
    i
}

/// The name of a column from its definition: its first word.
pub fn get_table_name<'a>(column_definition: &'a str) -> (name: &'a str)
    ensures
        name@ == take_until(column_definition@, ' '),
{
    let i = find_char(column_definition, ' ');
    column_definition.substring_char(0, i)
}

/// The column definitions, separated by `, `.
pub open spec fn column_list(defs: Seq<Seq<char>>) -> Seq<char>
    decreases defs.len(),
{
    if defs.len() == 0 {
        Seq::empty()
    } else if defs.len() == 1 {
        defs[0]
    } else {
        column_list(defs.drop_last()) + ", "@ + defs.last()
    }
}

pub open spec fn strs_view(v: Seq<&str>) -> Seq<Seq<char>> {
    v.map_values(|s: &str| s@)
}

/// The `CREATE TABLE` statement that declares the virtual table from the
/// arguments of `CREATE VIRTUAL TABLE` (module, database, table name, then
/// the column definitions, the first one being the index), and the names
/// of the columns.
pub fn create_table_name<'a>(argv: &Vec<&'a str>) -> (r: (String, Vec<&'a str>))
    requires
        argv@.len() >= 4,
    ensures
        ({
            let defs = strs_view(argv@).subrange(3, argv@.len() as int);
            &&& r.0@ == "CREATE TABLE "@ + argv@[2]@ + " ("@ + column_list(defs) + ");"@
            &&& strs_view(r.1@) == defs.map_values(|d: Seq<char>| take_until(d, ' '))
        }),
{
    let ghost all = strs_view(argv@);
    let table_name = argv[2];
    let mut table = String::from_str("CREATE TABLE ");
    table.append(table_name);
    table.append(" (");
    let ghost head = table@;
    let mut columns: Vec<&'a str> = Vec::new();
    let index_definition = argv[3];
    columns.push(get_table_name(index_definition));
    table.append(index_definition);
    let mut i: usize = 4;
    proof {
        assert(all.subrange(3, 4) =~= seq![index_definition@]);
        assert(column_list(all.subrange(3, 4)) == index_definition@);
        assert(strs_view(columns@) =~= all.subrange(3, 4).map_values(
            |d: Seq<char>| take_until(d, ' '),
        ));
    }
    while i < argv.len()
        invariant
            4 <= i <= argv.len(),
            all == strs_view(argv@),
            all.len() == argv@.len(),
            table@ == head + column_list(all.subrange(3, i as int)),
            strs_view(columns@) == all.subrange(3, i as int).map_values(
                |d: Seq<char>| take_until(d, ' '),
            ),
        decreases argv.len() - i,
    {
        let column_definition = argv[i];
        let name = get_table_name(column_definition);
        let ghost before = columns@;
        columns.push(name);
        table.append(", ");
        table.append(column_definition);
        proof {
            let d = all.subrange(3, i + 1);
            assert(d.drop_last() =~= all.subrange(3, i as int));
            assert(d.last() == column_definition@);
            assert(column_list(d) == column_list(all.subrange(3, i as int)) + ", "@
                + column_definition@);
            assert(strs_view(columns@) =~= strs_view(before).push(name@));
            assert(d.map_values(|x: Seq<char>| take_until(x, ' ')) =~= all.subrange(
                3,
                i as int,
            ).map_values(|x: Seq<char>| take_until(x, ' ')).push(take_until(column_definition@, ' ')));
        }
        i = i + 1;
    }
    table.append(");");
    (table, columns)
}

/// The second `:`-separated field of a key, if the key has a `:`.
pub open spec fn second_field(key: Seq<char>) -> Option<Seq<char>> {
    let first = take_until(key, ':');
    if first.len() == key.len() {
        None
    } else {
        Some(take_until(key.skip(first.len() + 1int), ':'))
    }
}

pub open spec fn is_digit(c: char) -> bool {
    '0' <= c && c <= '9'
}

/// The value of a non-empty string of decimal digits.
pub open spec fn digits_value(s: Seq<char>) -> int
    decreases s.len(),
{
    if s.len() == 0 {
        0
    } else {
        digits_value(s.drop_last()) * 10 + (s.last() as int - 48)
    }
}

/// Whether a number text starts with `-`.
pub open spec fn sign_negative(s: Seq<char>) -> bool {
    s.len() > 0 && s[0] == '-'
}

/// The digits of a number text: what follows its sign, if it has one.
pub open spec fn digits_part(s: Seq<char>) -> Seq<char> {
    if s.len() > 0 && (s[0] == '-' || s[0] == '+') {
        s.drop_first()
    } else {
        s
    }
}

pub open spec fn all_digits(d: Seq<char>) -> bool {
    forall|k: int| 0 <= k < d.len() ==> is_digit(#[trigger] d[k])
}

/// How `str::parse::<i64>` reads a text: an optional `+` or `-`, then one
/// or more decimal digits, whose value must fit in an `i64`.
pub open spec fn parse_i64(s: Seq<char>) -> Option<i64> {
    let digits = digits_part(s);
    if digits.len() == 0 || !all_digits(digits) {
        None
    } else {
        let v = if sign_negative(s) {
            -digits_value(digits)
        } else {
            digits_value(digits)
        };
        if i64::MIN <= v <= i64::MAX {
            Some(v as i64)
        } else {
            None
        }
    }
}

proof fn lemma_digits_value_nonneg(s: Seq<char>)
    requires
        forall|k: int| 0 <= k < s.len() ==> is_digit(#[trigger] s[k]),
    ensures
        digits_value(s) >= 0,
    decreases s.len(),
{
    if s.len() > 0 {
        assert(is_digit(s[s.len() - 1]));
        lemma_digits_value_nonneg(s.drop_last());
    }
}

proof fn lemma_digits_value_grows(s: Seq<char>, i: int)
    requires
        0 <= i <= s.len(),
        forall|k: int| 0 <= k < s.len() ==> is_digit(#[trigger] s[k]),
    ensures
        digits_value(s.take(i)) <= digits_value(s),
    decreases s.len() - i,
{
    if i < s.len() {
        lemma_digits_value_grows(s, i + 1);
        assert(s.take(i + 1).drop_last() =~= s.take(i));
        assert(is_digit(s.take(i + 1).last()));
        assert(forall|k: int| 0 <= k < s.take(i).len() ==> is_digit(#[trigger] s.take(i)[k]));
        lemma_digits_value_nonneg(s.take(i));
    } else {
        assert(s.take(i) =~= s);
    }
}

/// Reads an `i64` as `str::parse` does.
pub fn parse_i64_text(t: &str) -> (r: Option<i64>)
    ensures
        r == parse_i64(t@),
{
    let n = t.unicode_len();
    let ghost s = t@;
    let mut start: usize = 0;
    let mut negative = false;
    if n > 0 {
        let c = t.get_char(0);
        if c == '-' {
            negative = true;
            start = 1;
        } else if c == '+' {
            start = 1;
        }
    }
    let ghost digits = s.skip(start as int);
    proof {
        if start == 1 {
            assert(digits =~= s.drop_first());
        } else {
            assert(digits =~= s);
        }
        assert(digits == digits_part(s));
        assert(negative == sign_negative(s));
    }
    if start == n {
        return None;
    }
    // The magnitude, at most 2^63 while it is accumulated.
    let mut mag: u64 = 0;
    let mut i: usize = start;
    assert(digits.take(0) =~= Seq::<char>::empty());
    while i < n
        invariant
            start <= i <= n,
            n == s.len(),
            s == t@,
            digits == s.skip(start as int),
            digits == digits_part(s),
            negative == sign_negative(s),
            digits.len() == n - start,
            forall|k: int| 0 <= k < i - start ==> is_digit(#[trigger] digits[k]),
            mag == digits_value(digits.take(i - start)),
            mag <= 9223372036854775808u64,
        decreases n - i,
    {
        let c = t.get_char(i);
        assert(c == digits[i - start]);
        if !('0' <= c && c <= '9') {
            assert(!is_digit(digits[i - start]));
            assert(!all_digits(digits));
            return None;
        }
        let d: u64 = (c as u32 - 48) as u64;
        assert(digits.take(i + 1 - start).drop_last() =~= digits.take(i - start));
        assert(digits.take(i + 1 - start).last() == c);
        assert(digits_value(digits.take(i + 1 - start)) == mag * 10 + d);
        if mag > 922337203685477580u64 || (mag == 922337203685477580u64 && d > 8) {
            proof {
                assert(mag * 10 + d > 9223372036854775808) by (nonlinear_arith)
                    requires
                        mag > 922337203685477580u64 || (mag == 922337203685477580u64 && d > 8),
                ;
                if all_digits(digits) {
                    lemma_digits_value_grows(digits, i + 1 - start);
                    assert(digits_value(digits) > 9223372036854775808);
                }
            }
            return None;
        }
        proof {
            assert(mag * 10 + d <= 9223372036854775808) by (nonlinear_arith)
                requires
                    mag <= 922337203685477580u64,
                    mag < 922337203685477580u64 || d <= 8,
                    d <= 9,
            ;
        }
        mag = mag * 10 + d;
        i = i + 1;
    }
    assert(digits.take(n - start) =~= digits);
    if negative {
        if mag == 9223372036854775808u64 {
            Some(i64::MIN)
        } else {
            Some(-(mag as i64))
        }
    } else {
        if mag > 9223372036854775807u64 {
            return None;
        }
        Some(mag as i64)
    }
}

/// The row identifier of a hash named `<table>:<rowid>`: its second
/// `:`-separated field read as an `i64`.
pub fn rowid_of_key(key: &str) -> (r: Option<i64>)
    ensures
        r == match second_field(key@) {
            Some(f) => parse_i64(f),
            None => None,
        },
{
    let n = key.unicode_len();
    let i = find_char(key, ':');
    if i == n {
        return None;
    }
    let rest = key.substring_char(i + 1, n);
    assert(rest@ == key@.skip(i + 1)) by {
        assert(key@.subrange(i + 1, n as int) =~= key@.skip(i + 1));
    }
    let j = find_char(rest, ':');
    let field = rest.substring_char(0, j);
    assert(field@ == rest@.take(j as int)) by {
        assert(rest@.subrange(0, j as int) =~= rest@.take(j as int));
    }
    assert(take_until(key@, ':').len() == i);
    parse_i64_text(field)
}

// ----------------------------------------------------------------------
// The cursor of the table: a `SCAN` of the hashes, page after page.
// ----------------------------------------------------------------------

/// What a page of `SCAN` says: the cursor to go on from and the keys
/// found. A page is an array whose first element is the cursor (a string)
/// and whose second is the array of the keys (strings); an empty string in
/// place of that array reads as no key.
pub open spec fn scan_page(r: CallReply) -> Option<(Seq<char>, Seq<Seq<char>>)> {
    match r {
        CallReply::RArray { elements } => if elements.len() < 2 {
            None
        } else {
            match reply_text(elements@[0]) {
                Some(index) => keys_page(index, elements@[1]),
                None => None,
            }
        },
        _ => None,
    }
}

/// The keys of a page of `SCAN`, after its cursor.
pub open spec fn keys_page(index: Seq<char>, keys: CallReply) -> Option<(Seq<char>, Seq<Seq<char>>)> {
    match keys {
        CallReply::RArray { elements } => if forall|i: int|
            0 <= i < elements.len() ==> #[trigger] reply_text(elements@[i]) is Some {
            Some((index, elements@.map_values(|k: CallReply| reply_text(k)->Some_0)))
        } else {
            None
        },
        CallReply::RString { text } => if text@.len() == 0 {
            Some((index, Seq::empty()))
        } else {
            None
        },
        _ => None,
    }
}

/// Reads a page of `SCAN`: the cursor to go on from and the keys found.
pub fn get_next_index_and_results(cr: &CallReply) -> (r: Option<(String, VecDeque<String>)>)
    ensures
        match r {
            Some((index, rows)) => scan_page(*cr) == Some((index@, strings_view(rows@))),
            None => scan_page(*cr) is None,
        },
{
    let index_cr = match cr.access_array_subelement(0) {
        Some(e) => e,
        None => return None,
    };
    let index = match index_cr.access_string() {
        Some(s) => s,
        None => return None,
    };
    let results_array = match cr.access_array_subelement(1) {
        Some(e) => e,
        None => return None,
    };
    match results_array {
        CallReply::RString { text } => if text.as_str().is_empty() {
            Some((index, VecDeque::new()))
        } else {
            None
        },
        CallReply::RArray { elements: keys } => {
            let mut results: VecDeque<String> = VecDeque::new();
            let mut i: usize = 0;
            while i < keys.len()
                invariant
                    i <= keys.len(),
                    results@.len() == i,
                    scan_page(*cr) == keys_page(index@, *results_array),
                    *results_array == (CallReply::RArray { elements: *keys }),
                    forall|k: int| 0 <= k < i ==> #[trigger] reply_text(keys@[k]) == Some(results@[k]@),
                decreases keys.len() - i,
            {
                let text = match keys[i].access_string() {
                    Some(s) => s,
                    None => {
                        return None;
                    },
                };
                results.push_back(text);
                i = i + 1;
            }
            assert(strings_view(results@) =~= keys@.map_values(|k: CallReply| reply_text(k)->Some_0));
            Some((index, results))
        },
        _ => None,
    }
}

/// The answer of `xEof`: the cursor is past the last row, has a row, or
/// must fetch the next page of the scan to know.
pub enum EofStep {
    AtEnd,
    HasRow,
    ScanAgain,
}

/// What a column of the current row is: the row's key itself, a field of
/// its hash to read with `HGET`, or an error.
pub enum ColumnStep {
    Key { key: String },
    Field { hash: String, field: &'static str },
    Error,
}

/// The value of a column read from a hash.
pub enum ColumnValue {
    Text { text: String },
    Null,
    Error,
}

/// The state of a cursor over a virtual table: the columns of the table
/// (the first names the hashes, `<first column>:<rowid>`), the cursor of
/// Redis's `SCAN` once a page was read, and the keys of that page still to
/// visit.
pub struct VirtualTableCursor {
    columns: Vec<&'static str>,
    redis_cursor: Option<String>,
    rows: Option<VecDeque<String>>,
}

pub struct CursorModel {
    pub columns: Seq<Seq<char>>,
    pub redis_cursor: Option<Seq<char>>,
    pub rows: Option<Seq<Seq<char>>>,
}

impl View for VirtualTableCursor {
    type V = CursorModel;

    closed spec fn view(&self) -> CursorModel {
        CursorModel {
            columns: strs_view(self.columns@),
            redis_cursor: match self.redis_cursor {
                Some(c) => Some(c@),
                None => None,
            },
            rows: match self.rows {
                Some(r) => Some(strings_view(r@)),
                None => None,
            },
        }
    }
}

impl VirtualTableCursor {
    /// A cursor that has not scanned yet.
    pub fn new(columns: Vec<&'static str>) -> (c: Self)
        ensures
            c@.columns == strs_view(columns@),
            c@.redis_cursor is None,
            c@.rows is None,
    {
        VirtualTableCursor { columns, redis_cursor: None, rows: None }
    }

    pub fn get_cursor(&self) -> (c: Option<String>)
        ensures
            match c {
                Some(s) => self@.redis_cursor == Some(s@),
                None => self@.redis_cursor is None,
            },
    {
        match &self.redis_cursor {
            Some(s) => Some(s.clone()),
            None => None,
        }
    }

    /// The arguments of the next `SCAN`: the cursor to go on from (`0` for
    /// the first page) and the pattern of the hashes, `<first column>:*`.
    pub fn scan_arguments(&self) -> (r: (String, String))
        requires
            self@.columns.len() > 0,
        ensures
            r.0@ == match self@.redis_cursor {
                Some(c) => c,
                None => "0"@,
            },
            r.1@ == self@.columns[0] + ":*"@,
    {
        let index = match &self.redis_cursor {
            Some(c) => c.clone(),
            None => String::from_str("0"),
        };
        let mut matcher = String::from_str(self.columns[0]);
        matcher.append(":*");
        (index, matcher)
    }

    /// Takes in a page of the scan: the cursor goes on from where the page
    /// says, and its keys are the rows to visit. A reply that is no page
    /// leaves the cursor as it was.
    pub fn advance(&mut self, reply: &CallReply) -> (r: Result<(), ()>)
        ensures
            match scan_page(*reply) {
                Some((index, keys)) => r is Ok && final(self)@ == (CursorModel {
                    columns: old(self)@.columns,
                    redis_cursor: Some(index),
                    rows: Some(keys),
                }),
                None => r is Err && final(self)@ == old(self)@,
            },
    {
        match get_next_index_and_results(reply) {
            None => Err(()),
            Some((i, rows)) => {
                self.redis_cursor = Some(i);
                self.rows = Some(rows);
                Ok(())
            },
        }
    }

    /// Whether the cursor is past its last row: it is when no key is left
    /// and the scan ended (cursor `0`) or never ran.
    pub fn eof_step(&self) -> (s: EofStep)
        requires
            self@.rows is Some,
        ensures
            self@.rows->Some_0.len() > 0 ==> s is HasRow,
            self@.rows->Some_0.len() == 0 ==> match self@.redis_cursor {
                None => s is AtEnd,
                Some(c) => if c == "0"@ {
                    s is AtEnd
                } else {
                    s is ScanAgain
                },
            },
    {
        let n = match &self.rows {
            Some(r) => r.len(),
            None => 0,
        };
        if n > 0 {
            return EofStep::HasRow;
        }
        match &self.redis_cursor {
            None => EofStep::AtEnd,
            Some(c) => if same_text(c.as_str(), "0") {
                EofStep::AtEnd
            } else {
                EofStep::ScanAgain
            },
        }
    }

    /// Whether some key of the page is left to visit.
    pub fn has_rows(&self) -> (b: bool)
        ensures
            b == (self@.rows matches Some(r) && r.len() > 0),
    {
        match &self.rows {
            Some(r) => r.len() > 0,
            None => false,
        }
    }

    /// Moves to the next key of the page.
    pub fn next(&mut self)
        requires
            (old(self)@.rows matches Some(r) && r.len() > 0),
        ensures
            final(self)@ == (CursorModel {
                rows: Some(old(self)@.rows->Some_0.drop_first()),
                ..old(self)@
            }),
    {
        match &mut self.rows {
            Some(r) => {
                let _ = r.pop_front();
            },
            None => {},
        }
        assert(strings_view(self.rows->Some_0@) =~= old(self)@.rows->Some_0.drop_first());
    }

    /// Column `n` of the current row: column `0` is the key of the hash,
    /// column `n` the field named like it.
    pub fn column(&self, n: usize) -> (c: ColumnStep)
        requires
            n < self@.columns.len(),
        ensures
            match self@.rows {
                Some(r) if r.len() > 0 => if n == 0 {
                    c matches ColumnStep::Key { key } && key@ == r[0]
                } else {
                    c matches ColumnStep::Field { hash, field } && hash@ == r[0] && field@
                        == self@.columns[n as int]
                },
                _ => c is Error,
            },
    {
        match &self.rows {
            Some(r) => if r.len() > 0 {
                let key = r[0].clone();
                if n == 0 {
                    ColumnStep::Key { key }
                } else {
                    ColumnStep::Field { hash: key, field: self.columns[n] }
                }
            } else {
                ColumnStep::Error
            },
            None => ColumnStep::Error,
        }
    }

    /// The row identifier of the current row, from its key.
    pub fn rowid(&self) -> (r: Option<i64>)
        ensures
            r == match self@.rows {
                Some(rows) if rows.len() > 0 => match second_field(rows[0]) {
                    Some(f) => parse_i64(f),
                    None => None,
                },
                _ => None,
            },
    {
        match &self.rows {
            Some(r) => if r.len() > 0 {
                rowid_of_key(r[0].as_str())
            } else {
                None
            },
            None => None,
        }
    }
}

/// The value of a field read with `HGET`: a string is its text, nothing is
/// null, anything else is an error.
pub fn column_value(reply: &CallReply) -> (v: ColumnValue)
    ensures
        match *reply {
            CallReply::RString { text } => v matches ColumnValue::Text { text: t } && t@ == text@,
            CallReply::RNull => v is Null,
            _ => v is Error,
        },
{
    match reply {
        CallReply::RString { text } => ColumnValue::Text { text: text.clone() },
        CallReply::RNull => ColumnValue::Null,
        _ => ColumnValue::Error,
    }
}

} // verus!
