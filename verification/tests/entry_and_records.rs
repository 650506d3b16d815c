use ticket_scanner::entry::{keep_ascii_digits, parse_i64, trim_text};
use ticket_scanner::records::{
    classify_insert, contains_str, recent_row_label, schema_needs_migration, InsertOutcome,
    ScanRecord,
};

#[test]
fn trimming_white_space() {
    assert_eq!(trim_text("  1234\n"), "1234");
    assert_eq!(trim_text("\u{3000}12 34\u{a0}"), "12 34");
    assert_eq!(trim_text(" \t "), "");
    assert_eq!(trim_text("x"), "x");
}

#[test]
fn digits_are_picked_out() {
    assert_eq!(keep_ascii_digits("QR:00-1234#"), "001234");
    assert_eq!(keep_ascii_digits("abc"), "");
    assert_eq!(keep_ascii_digits("\u{0663}7"), "7");
}

#[test]
fn numbers_are_read_like_std() {
    for s in ["0", "1234", "+5", "-5", "-0", "007", "9223372036854775807", "-9223372036854775808",
              "9223372036854775808", "", "+", "-", "1a", " 1", "99999999999999999999"] {
        assert_eq!(parse_i64(s), s.parse::<i64>().ok(), "{s:?}");
    }
}

#[test]
fn duplicate_decision() {
    assert_eq!(classify_insert(0, false), InsertOutcome::New);
    assert_eq!(classify_insert(0, true), InsertOutcome::New);
    assert_eq!(classify_insert(2, false), InsertOutcome::Duplicate);
    assert_eq!(classify_insert(1, true), InsertOutcome::DuplicateForced);
    assert!(InsertOutcome::New.stores_row());
    assert!(InsertOutcome::DuplicateForced.stores_row());
    assert!(!InsertOutcome::Duplicate.stores_row());
}

#[test]
fn substring_search() {
    assert!(contains_str("NOT NULL UNIQUE", "UNIQUE"));
    assert!(contains_str("abc", ""));
    assert!(!contains_str("UNIQU", "UNIQUE"));
    assert!(contains_str("UNIQUE", "UNIQUE"));
}

#[test]
fn old_unique_schema_needs_migration() {
    let old = "CREATE TABLE scans (id INTEGER PRIMARY KEY AUTOINCREMENT, ticket_number INTEGER NOT NULL UNIQUE, scanned_at TEXT NOT NULL)";
    let new = "CREATE TABLE scans (id INTEGER PRIMARY KEY AUTOINCREMENT, ticket_number INTEGER NOT NULL, scanned_at TEXT NOT NULL)";
    assert!(schema_needs_migration(Some(old)));
    assert!(!schema_needs_migration(Some(new)));
    assert!(!schema_needs_migration(None));
}

#[test]
fn lower_case_unique_is_found_too() {
    assert!(schema_needs_migration(Some("create table scans (ticket_number integer unique)")));
}

#[test]
fn recent_rows() {
    let r = ScanRecord { ticket_number: 1234, scanned_at: "2024-01-01 10:00:00".to_string() };
    assert_eq!(recent_row_label(0, &r), "\u{25B6} #  1234");
    assert_eq!(recent_row_label(3, &r), "   #  1234");
    let big = ScanRecord { ticket_number: 12345678, scanned_at: String::new() };
    assert_eq!(recent_row_label(1, &big), "   #12345678");
    let neg = ScanRecord { ticket_number: -12, scanned_at: String::new() };
    assert_eq!(recent_row_label(1, &neg), "   #   -12");
    assert_eq!(recent_row_label(0, &r), format!("{}#{:>6}", "\u{25B6} ", 1234));
}
