//! Further tests of the scan operators, the rows and the values.
use project_scan::{DbError, MockTableScan, ProjectScan, Row, Scan, Value};

fn two_rows() -> MockTableScan {
    MockTableScan::new(vec![
        Row::from_pairs(vec![
            ("a".to_string(), Value::Int(1)),
            ("s".to_string(), Value::Str("x".to_string())),
        ]),
        Row::from_pairs(vec![
            ("a".to_string(), Value::Int(2)),
            ("t".to_string(), Value::Str("y".to_string())),
        ]),
    ])
}

#[test]
fn mock_read_before_first_record_is_other_error() {
    let table = two_rows();
    match table.get_int("a") {
        Err(DbError::Other(m)) => assert_eq!(
            m,
            "Итератор не указывает на запись. Вызовите next() перед чтением."
        ),
        other => panic!("unexpected: {:?}", other),
    }
    assert!(table.get_value("a").is_err());
    assert!(table.get_string("s").is_err());
}

#[test]
fn mock_read_after_last_record_is_other_error() {
    let mut table = two_rows();
    assert!(table.next());
    assert!(table.next());
    assert!(!table.next());
    assert!(!table.next());
    assert!(matches!(table.get_value("a"), Err(DbError::Other(_))));
    table.before_first();
    assert!(table.next());
    assert_eq!(table.get_int("a").unwrap(), 1);
}

#[test]
fn mock_type_mismatch_errors() {
    let mut table = two_rows();
    assert!(table.next());
    match table.get_string("a") {
        Err(DbError::TypeMismatch { field, expected, got }) => {
            assert_eq!(field, "a");
            assert_eq!(expected, "String");
            assert_eq!(got, "Int");
        }
        other => panic!("unexpected: {:?}", other),
    }
    match table.get_int("s") {
        Err(DbError::TypeMismatch { field, expected, got }) => {
            assert_eq!(field, "s");
            assert_eq!(expected, "Int");
            assert_eq!(got, "String");
        }
        other => panic!("unexpected: {:?}", other),
    }
}

#[test]
fn mock_missing_field_in_current_record() {
    let mut table = two_rows();
    assert!(table.next());
    assert!(table.next());
    // The second record has no field "s".
    match table.get_value("s") {
        Err(DbError::FieldNotFound(name)) => assert_eq!(name, "s"),
        other => panic!("unexpected: {:?}", other),
    }
    assert_eq!(table.get_string("t").unwrap(), "y");
}

#[test]
fn mock_has_field_follows_first_record() {
    let table = two_rows();
    assert!(table.has_field("a"));
    assert!(table.has_field("s"));
    assert!(!table.has_field("t"));
    let empty = MockTableScan::new(vec![]);
    assert!(!empty.has_field("a"));
}

#[test]
fn mock_close_keeps_table() {
    let mut table = two_rows();
    assert!(table.next());
    table.close();
    assert_eq!(table.get_int("a").unwrap(), 1);
}

#[test]
fn projection_checks_list_before_reading() {
    // Before the first record, a field outside the list gives FieldNotFound,
    // a field of the list gives the error of the table.
    let scan = ProjectScan::new(Box::new(two_rows()), vec!["a".to_string()]);
    assert!(matches!(scan.get_value("s"), Err(DbError::FieldNotFound(_))));
    assert!(matches!(scan.get_value("a"), Err(DbError::Other(_))));
}

#[test]
fn projection_passes_type_mismatch_through() {
    let mut scan = ProjectScan::new(Box::new(two_rows()), vec!["a".to_string(), "s".to_string()]);
    assert!(scan.next());
    assert!(matches!(scan.get_string("a"), Err(DbError::TypeMismatch { .. })));
    assert_eq!(scan.get_string("s").unwrap(), "x");
}

#[test]
fn projection_with_empty_list_hides_everything() {
    let mut scan = ProjectScan::new(Box::new(two_rows()), vec![]);
    assert!(scan.next());
    assert!(!scan.has_field("a"));
    match scan.get_int("a") {
        Err(DbError::FieldNotFound(name)) => assert_eq!(name, "a"),
        other => panic!("unexpected: {:?}", other),
    }
}

#[test]
fn chained_projection_reads_only_fields_of_both_lists() {
    let inner = ProjectScan::new(Box::new(two_rows()), vec!["s".to_string()]);
    let mut outer = ProjectScan::new(Box::new(inner), vec!["a".to_string(), "s".to_string()]);
    // The outer list names "a", so it is offered, but the inner one hides it.
    assert!(outer.has_field("a"));
    assert!(outer.next());
    assert!(matches!(outer.get_int("a"), Err(DbError::FieldNotFound(_))));
    assert_eq!(outer.get_string("s").unwrap(), "x");
}

#[test]
fn projection_over_dyn_scan() {
    let base: Box<dyn Scan> = Box::new(two_rows());
    let mut scan: ProjectScan = ProjectScan::new(base, vec!["a".to_string()]);
    let mut seen = vec![];
    while scan.next() {
        seen.push(scan.get_int("a").unwrap());
    }
    assert_eq!(seen, vec![1, 2]);
    assert!(!scan.next());
}

#[test]
fn full_pass_counts_records_and_repeats() {
    let mut scan = ProjectScan::new(Box::new(two_rows()), vec!["a".to_string()]);
    for _ in 0..2 {
        let mut n = 0;
        while scan.next() {
            n += 1;
        }
        assert_eq!(n, 2);
        assert!(!scan.next());
        scan.before_first();
    }
}

#[test]
fn row_from_pairs_later_pair_wins() {
    let row = Row::from_pairs(vec![
        ("k".to_string(), Value::Int(1)),
        ("k".to_string(), Value::Int(2)),
    ]);
    assert_eq!(row.get("k"), Some(&Value::Int(2)));
    assert!(row.contains_key("k"));
    assert!(!row.contains_key("z"));
    assert_eq!(row.get("z"), None);
}

#[test]
fn row_insert_replaces() {
    let mut row = Row::new();
    assert!(!row.contains_key("k"));
    row.insert("k".to_string(), Value::Str("v".to_string()));
    row.insert("k".to_string(), Value::Int(7));
    assert_eq!(row.get("k"), Some(&Value::Int(7)));
}

#[test]
fn value_display_text() {
    assert_eq!(Value::Int(0).to_string(), "0");
    assert_eq!(Value::Int(20).to_string(), "20");
    assert_eq!(Value::Int(-305).to_string(), "-305");
    assert_eq!(Value::Int(i64::MAX).to_string(), "9223372036854775807");
    assert_eq!(Value::Int(i64::MIN).to_string(), "-9223372036854775808");
    assert_eq!(Value::Str("ИВТ-21".to_string()).to_string(), "ИВТ-21");
}

#[test]
fn value_duplicate_is_equal() {
    let v = Value::Str("abc".to_string());
    assert_eq!(v.duplicate(), v);
    assert_eq!(Value::Int(-4).duplicate(), Value::Int(-4));
}

#[test]
fn value_display_reads_back() {
    for n in [0i64, 7, -7, 1234567, i64::MAX, i64::MIN] {
        assert_eq!(Value::Int(n).to_string().parse::<i64>(), Ok(n));
    }
    let s = "строка".to_string();
    assert_eq!(Value::Str(s.clone()).to_string(), s);
}

#[test]
fn has_field_matches_projection_check() {
    let mut scan = ProjectScan::new(Box::new(two_rows()), vec!["a".to_string()]);
    assert!(scan.next());
    for f in ["a", "s", "t", "zz"] {
        let passes = !matches!(scan.get_value(f), Err(DbError::FieldNotFound(_)));
        assert_eq!(passes, scan.has_field(f));
    }
}

#[test]
fn check_field_agrees_with_has_field() {
    let scan = ProjectScan::new(Box::new(two_rows()), vec!["a".to_string(), "q".to_string()]);
    for f in ["a", "q", "s", ""] {
        assert_eq!(scan.check_field(f).is_ok(), scan.has_field(f));
    }
    match scan.check_field("s") {
        Err(DbError::FieldNotFound(name)) => assert_eq!(name, "s"),
        other => panic!("unexpected: {:?}", other),
    }
}

#[test]
fn io_error_converts_to_db_error() {
    let e = std::io::Error::new(std::io::ErrorKind::NotFound, "missing");
    match DbError::from(e) {
        DbError::IoError(inner) => assert_eq!(inner.kind(), std::io::ErrorKind::NotFound),
        other => panic!("unexpected: {:?}", other),
    }
}

#[test]
fn close_keeps_cursor_of_projection() {
    let mut scan = ProjectScan::new(Box::new(two_rows()), vec!["a".to_string()]);
    assert!(scan.next());
    scan.close();
    assert_eq!(scan.get_int("a").unwrap(), 1);
    assert!(scan.next());
    assert_eq!(scan.get_int("a").unwrap(), 2);
}
