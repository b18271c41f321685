use mech_repl::batch::{run_output_lines, TestTally};
use mech_repl::table::{Table, Value};
use mech_repl::text::u64_to_string;

#[test]
fn three_files_tally() {
    // One file with two passing assertions, one with a failing assertion,
    // one with no test-results table at all.
    let passing = Table {
        rows: 2,
        columns: 1,
        data: vec![vec![Value::Bool(true), Value::Bool(true)]],
    };
    let failing = Table {
        rows: 1,
        columns: 1,
        data: vec![vec![Value::Bool(false)]],
    };
    let tables: Vec<Option<Table>> = vec![Some(passing), Some(failing), None];
    let mut tally = TestTally::new();
    for table in tables.iter().flatten() {
        assert!(table.check_wf());
        tally.record_table(table);
    }
    assert_eq!(tally.total, 3);
    assert_eq!(tally.passed, 2);
    assert_eq!(tally.failed, 1);
    assert_eq!(tally.exit_code(), 1);
    assert_eq!(
        tally.summary_line(),
        "Test result: failed | total 3 | passed 2 | failed 1 | "
    );
}

#[test]
fn empty_tally_is_ok() {
    let tally = TestTally::new();
    assert_eq!(tally.exit_code(), 0);
    assert_eq!(
        tally.summary_line(),
        "Test result: ok | total 0 | passed 0 | failed 0 | "
    );
}

#[test]
fn non_boolean_cells_count_as_passed() {
    let table = Table {
        rows: 1,
        columns: 2,
        data: vec![
            vec![Value::Number("1".to_string())],
            vec![Value::String("x".to_string())],
        ],
    };
    let mut tally = TestTally::new();
    tally.record_table(&table);
    assert_eq!(tally.total, 2);
    assert_eq!(tally.passed, 2);
    assert_eq!(tally.failed, 0);
    assert_eq!(tally.exit_code(), 0);
}

#[test]
fn run_mode_prints_three_string_cells_in_order() {
    let table = Table {
        rows: 3,
        columns: 1,
        data: vec![vec![
            Value::String("a".to_string()),
            Value::String("b".to_string()),
            Value::String("c".to_string()),
        ]],
    };
    assert!(table.check_wf());
    let lines = run_output_lines(&table);
    assert_eq!(lines.len(), 3);
    assert_eq!(lines[0], "String(\"a\")");
    assert_eq!(lines[1], "String(\"b\")");
    assert_eq!(lines[2], "String(\"c\")");
}

#[test]
fn run_mode_order_is_rows_outer_columns_inner() {
    let table = Table {
        rows: 2,
        columns: 2,
        data: vec![
            vec![
                Value::Number("1".to_string()),
                Value::Number("3".to_string()),
            ],
            vec![
                Value::Number("2".to_string()),
                Value::Number("4".to_string()),
            ],
        ],
    };
    let lines = run_output_lines(&table);
    assert_eq!(lines, vec!["1", "2", "3", "4"]);
}

#[test]
fn decimal_rendering() {
    assert_eq!(u64_to_string(0), "0");
    assert_eq!(u64_to_string(7), "7");
    assert_eq!(u64_to_string(1234), "1234");
    assert_eq!(u64_to_string(u64::MAX), "18446744073709551615");
}
