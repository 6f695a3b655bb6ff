use redisql::sync_engine::{non_empty_lines, split_newlines, DumpIterator};
use redisql::virtual_tables::{
    create_table_name, find_char, get_table_name, parse_i64_text, rowid_of_key,
};

#[test]
fn table_name_is_the_first_word() {
    assert_eq!(get_table_name("name TEXT NOT NULL"), "name");
    assert_eq!(get_table_name("single"), "single");
    assert_eq!(get_table_name(""), "");
    assert_eq!(find_char("ab cd", ' '), 2);
    assert_eq!(find_char("abcd", ' '), 4);
}

#[test]
fn virtual_table_declaration() {
    let argv = vec!["REDISQL", "main", "tab", "k TEXT", "v INT"];
    let (statement, columns) = create_table_name(&argv);
    assert_eq!(statement, "CREATE TABLE tab (k TEXT, v INT);");
    assert_eq!(columns, vec!["k", "v"]);
    let argv = vec!["REDISQL", "main", "only", "id"];
    let (statement, columns) = create_table_name(&argv);
    assert_eq!(statement, "CREATE TABLE only (id);");
    assert_eq!(columns, vec!["id"]);
}

#[test]
fn rowids_from_keys() {
    assert_eq!(rowid_of_key("table:42"), Some(42));
    assert_eq!(rowid_of_key("table:42:more"), Some(42));
    assert_eq!(rowid_of_key("table:-7"), Some(-7));
    assert_eq!(rowid_of_key("table"), None);
    assert_eq!(rowid_of_key("table:x1"), None);
    assert_eq!(rowid_of_key("table:"), None);
}

#[test]
fn i64_text() {
    assert_eq!(parse_i64_text("0"), Some(0));
    assert_eq!(parse_i64_text("+15"), Some(15));
    assert_eq!(parse_i64_text("-9223372036854775808"), Some(i64::MIN));
    assert_eq!(parse_i64_text("9223372036854775807"), Some(i64::MAX));
    assert_eq!(parse_i64_text("9223372036854775808"), None);
    assert_eq!(parse_i64_text("-"), None);
    assert_eq!(parse_i64_text(""), None);
    assert_eq!(parse_i64_text("1 2"), None);
}

#[test]
fn newline_pieces() {
    assert_eq!(split_newlines("a\nb\n"), vec!["a", "b", ""]);
    assert_eq!(split_newlines("abc"), vec!["abc"]);
    assert_eq!(split_newlines(""), vec![""]);
    assert_eq!(non_empty_lines("a\n\nb\n"), vec!["a", "b"]);
    assert!(non_empty_lines("\n\n").is_empty());
}

#[test]
fn dump_lines_across_chunks() {
    let mut d = DumpIterator::new();
    assert_eq!(d.next_pending(), None);
    assert_eq!(d.take_chunk("CREATE TABLE t(a);\nINSERT INTO t VAL"), "CREATE TABLE t(a);");
    assert_eq!(d.next_pending(), None);
    assert_eq!(d.take_chunk("UES(1);\nINSERT INTO t VALUES(2);\nCOMMIT;\n"), "INSERT INTO t VALUES(1);");
    assert_eq!(d.next_pending(), Some(String::from("INSERT INTO t VALUES(2);")));
    assert_eq!(d.next_pending(), Some(String::from("COMMIT;")));
    assert_eq!(d.next_pending(), None);
    assert_eq!(d.take_chunk("no newline"), "no newline");
}

use redisql::redis_type::CallReply;
use redisql::virtual_tables::{
    column_value, get_next_index_and_results, ColumnStep, ColumnValue, EofStep, VirtualTableCursor,
};

fn text(s: &str) -> CallReply {
    CallReply::RString { text: String::from(s) }
}

fn page(cursor: &str, keys: &[&str]) -> CallReply {
    CallReply::RArray {
        elements: vec![
            text(cursor),
            CallReply::RArray { elements: keys.iter().map(|k| text(k)).collect() },
        ],
    }
}

#[test]
fn call_reply_access() {
    let r = text("héllo");
    assert_eq!(r.length(), Some(6));
    assert_eq!(r.access_string(), Some(String::from("héllo")));
    assert_eq!(r.access_integer(), None);
    assert_eq!(r.access_error(), None);
    let i = CallReply::RInteger { value: -3 };
    assert_eq!(i.access_integer(), Some(-3));
    assert_eq!(i.length(), None);
    let e = CallReply::RError { message: String::from("ERR bad") };
    assert_eq!(e.access_error(), Some(String::from("ERR bad")));
    let a = page("0", &["t:1"]);
    assert_eq!(a.length(), Some(2));
    assert!(a.access_array_subelement(0).is_some());
    assert!(a.access_array_subelement(2).is_none());
    assert!(i.access_array_subelement(0).is_none());
}

#[test]
fn scan_pages() {
    let (index, rows) = get_next_index_and_results(&page("17", &["t:1", "t:2"])).unwrap();
    assert_eq!(index, "17");
    assert_eq!(rows.into_iter().collect::<Vec<_>>(), vec!["t:1", "t:2"]);
    let empty = CallReply::RArray { elements: vec![text("0"), text("")] };
    let (index, rows) = get_next_index_and_results(&empty).unwrap();
    assert_eq!(index, "0");
    assert!(rows.is_empty());
    let bad_key = CallReply::RArray {
        elements: vec![text("0"), CallReply::RArray { elements: vec![CallReply::RInteger { value: 1 }] }],
    };
    assert!(get_next_index_and_results(&bad_key).is_none());
    assert!(get_next_index_and_results(&CallReply::RArray { elements: vec![text("0")] }).is_none());
    assert!(get_next_index_and_results(&CallReply::RNull).is_none());
}

#[test]
fn virtual_table_cursor_walk() {
    let mut c = VirtualTableCursor::new(vec!["t", "name"]);
    assert_eq!(c.get_cursor(), None);
    assert_eq!(c.scan_arguments(), (String::from("0"), String::from("t:*")));
    assert!(matches!(c.column(0), ColumnStep::Error));
    assert_eq!(c.rowid(), None);
    assert!(c.advance(&page("5", &["t:1", "t:2"])).is_ok());
    assert_eq!(c.get_cursor(), Some(String::from("5")));
    assert_eq!(c.scan_arguments().0, "5");
    assert!(matches!(c.eof_step(), EofStep::HasRow));
    match c.column(0) {
        ColumnStep::Key { key } => assert_eq!(key, "t:1"),
        _ => panic!("expected the key"),
    }
    match c.column(1) {
        ColumnStep::Field { hash, field } => {
            assert_eq!(hash, "t:1");
            assert_eq!(field, "name");
        }
        _ => panic!("expected a field"),
    }
    assert_eq!(c.rowid(), Some(1));
    c.next();
    assert_eq!(c.rowid(), Some(2));
    c.next();
    assert!(!c.has_rows());
    assert!(matches!(c.eof_step(), EofStep::ScanAgain));
    assert!(c.advance(&CallReply::RNull).is_err());
    assert_eq!(c.get_cursor(), Some(String::from("5")));
    assert!(c.advance(&page("0", &[])).is_ok());
    assert!(matches!(c.eof_step(), EofStep::AtEnd));
}

#[test]
fn hash_field_values() {
    assert!(matches!(column_value(&text("v")), ColumnValue::Text { text } if text == "v"));
    assert!(matches!(column_value(&CallReply::RNull), ColumnValue::Null));
    assert!(matches!(column_value(&CallReply::RInteger { value: 1 }), ColumnValue::Error));
}

#[test]
fn pieces_join_back_to_the_text() {
    for text in ["a\nb\n", "", "\n\n", "no newline", "x\ny"] {
        assert_eq!(split_newlines(text).join("\n"), text);
    }
}

#[test]
fn chunks_keep_the_text() {
    let mut d = DumpIterator::new();
    let first = d.take_chunk("a\nb\nc");
    let mut lines = vec![first];
    while let Some(l) = d.next_pending() {
        lines.push(l);
    }
    let rest = d.take_chunk("d\n");
    lines.push(rest);
    assert_eq!(lines.join("\n"), "a\nb\ncd");
}
