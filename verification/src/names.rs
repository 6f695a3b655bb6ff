//! Names of the files and in-memory databases that RediSQL makes up: they
//! carry a random (version 4) UUID.
use vstd::prelude::*;

use uuid::Uuid;

use crate::text::same_text;

verus! {

/// A lower-case hexadecimal digit.
pub open spec fn hex_digit(n: int) -> char {
    if n < 10 {
        (48 + n) as char
    } else {
        (87 + n) as char
    }
}

/// Two lower-case hexadecimal digits per byte, most significant first.
pub open spec fn hex_lower(b: Seq<u8>) -> Seq<char>
    decreases b.len(),
{
    if b.len() == 0 {
        Seq::empty()
    } else {
        seq![hex_digit((b[0] / 16) as int), hex_digit((b[0] % 16) as int)] + hex_lower(b.drop_first())
    }
}

/// The hyphenated form of a UUID: its hexadecimal digits in groups of
/// 8-4-4-4-12.
pub open spec fn hyphenated(b: Seq<u8>) -> Seq<char> {
    let h = hex_lower(b);
    h.subrange(0, 8) + seq!['-'] + h.subrange(8, 12) + seq!['-'] + h.subrange(12, 16) + seq!['-']
        + h.subrange(16, 20) + seq!['-'] + h.subrange(20, 32)
}

/// The bytes of a version 4 (random) UUID of the RFC 4122 variant.
pub open spec fn is_v4_uuid(b: Seq<u8>) -> bool {
    &&& b.len() == 16
    &&& b[6] / 16 == 4
    &&& b[8] / 64 == 2
}

/// `uuid::Uuid::new_v4`: the bytes of a fresh random UUID, of version 4 and
/// of the RFC 4122 variant (which the crate's builder sets). Nothing more is
/// stated of them: they come from the operating system's random source, and
/// the crate panics when that source fails.
#[verifier::external_body]
fn new_v4_bytes() -> (b: [u8; 16])
    ensures
        is_v4_uuid(b@),
{
    *Uuid::new_v4().as_bytes()
}

/// `uuid::adapter::Simple`'s `Display`: the 32 lower-case hexadecimal digits
/// of the UUID with these bytes.
#[verifier::external_body]
fn simple_text(b: [u8; 16]) -> (s: String)
    ensures
        s@ == hex_lower(b@),
{
    Uuid::from_bytes(b).to_simple().to_string()
}

/// `uuid::Uuid`'s `Display`: the hyphenated lower-case form of the UUID with
/// these bytes.
#[verifier::external_body]
fn hyphenated_text(b: [u8; 16]) -> (s: String)
    ensures
        s@ == hyphenated(b@),
{
    Uuid::from_bytes(b).to_string()
}

/// `file:<uuid>?mode=memory&cache=shared`: a shared in-memory SQLite database.
pub open spec fn memory_database_name(uuid: Seq<char>) -> Seq<char> {
    "file:"@ + uuid + "?mode=memory&cache=shared"@
}

/// The name of the database that `CREATE_DB` opens: the path it was given,
/// or a fresh in-memory database when it got none (or `:memory`).
pub open spec fn chosen_database_name(path: Option<Seq<char>>, generated: Seq<char>) -> Seq<char> {
    match path {
        Some(p) => if p == ":memory"@ {
            generated
        } else {
            p
        },
        None => generated,
    }
}

/// The name of the database to open for `CREATE_DB` with an optional path.
pub fn database_name(path: Option<&str>) -> (name: String)
    ensures
        exists|b: Seq<u8>|
            is_v4_uuid(b) && name@ == chosen_database_name(
                match path {
                    Some(p) => Some(p@),
                    None => None,
                },
                memory_database_name(hex_lower(b)),
            ),
{
    let bytes = new_v4_bytes();
    let mut possible_name = String::from_str("file:");
    possible_name.append(simple_text(bytes).as_str());
    possible_name.append("?mode=memory&cache=shared");
    let name = match path {
        None => possible_name,
        Some(p) => if same_text(p, ":memory") {
            possible_name
        } else {
            String::from_str(p)
        },
    };
    assert(is_v4_uuid(bytes@));
    name
}

/// The temporary file where a database is written while Redis saves it
/// (`write`) or read back while Redis loads it.
pub fn rdb_temporary_path(write: bool) -> (path: String)
    ensures
        exists|b: Seq<u8>|
            is_v4_uuid(b) && path@ == (if write {
                "rediSQL_rdb_write_"@
            } else {
                "rediSQL_rdb_read_"@
            }) + hyphenated(b) + ".sqlite"@,
{
    let bytes = new_v4_bytes();
    let mut path = if write {
        String::from_str("rediSQL_rdb_write_")
    } else {
        String::from_str("rediSQL_rdb_read_")
    };
    path.append(hyphenated_text(bytes).as_str());
    path.append(".sqlite");
    assert(is_v4_uuid(bytes@));
    path
}

} // verus!
