use mech_repl::render::render_table;
use mech_repl::table::{cell_text, Table, Value};

fn number(q: f64) -> Value {
    Value::Number(format!("{}", q))
}

#[test]
fn two_by_two_number_grid() {
    let table = Table {
        rows: 2,
        columns: 2,
        data: vec![
            vec![number(1.0), number(3.0)],
            vec![number(22.5), number(4.0)],
        ],
    };
    assert!(table.check_wf());
    let out = render_table(&table);
    let expected = "\u{250c}\u{2500}\u{252c}\u{2500}\u{2500}\u{2500}\u{2500}\u{2510}\n\u{2502}1\u{2502}22.5\u{2502}\n\u{2502}3\u{2502}4   \u{2502}\n\u{2514}\u{2500}\u{2534}\u{2500}\u{2500}\u{2500}\u{2500}\u{2518}\n";
    assert_eq!(out, expected);
}

#[test]
fn border_width_matches_longest_cell_and_rows_are_separated() {
    let table = Table {
        rows: 2,
        columns: 2,
        data: vec![
            vec![number(1.0), number(3.0)],
            vec![number(22.5), number(4.0)],
        ],
    };
    let out = render_table(&table);
    let lines: Vec<&str> = out.lines().collect();
    assert_eq!(lines.len(), 4);
    // Column widths are the longest formatted values: "1"/"3" give 1,
    // "22.5"/"4" give 4.
    let dashes: Vec<usize> = lines[0]
        .trim_matches(|c| c == '\u{250c}' || c == '\u{2510}')
        .split('\u{252c}')
        .map(|run| run.chars().count())
        .collect();
    assert_eq!(dashes, vec![1, 4]);
    // Each data row has exactly one vertical separator per column boundary:
    // columns + 1 in all.
    for line in &lines[1..3] {
        let bars = line.chars().filter(|&c| c == '\u{2502}').count();
        assert_eq!(bars, 3);
    }
}

#[test]
fn rendering_twice_is_byte_identical() {
    let table = Table {
        rows: 2,
        columns: 2,
        data: vec![
            vec![Value::Bool(true), Value::String("hi".to_string())],
            vec![number(7.25), Value::Other("Empty".to_string())],
        ],
    };
    let first = render_table(&table);
    let second = render_table(&table);
    assert_eq!(first.as_bytes(), second.as_bytes());
}

#[test]
fn zero_columns_render_minimal_frame() {
    let table = Table {
        rows: 0,
        columns: 0,
        data: vec![],
    };
    assert!(table.check_wf());
    assert_eq!(render_table(&table), "\u{250c}\u{2510}\n\u{2514}\u{2518}\n");
}

#[test]
fn zero_rows_render_empty_columns() {
    let table = Table {
        rows: 0,
        columns: 2,
        data: vec![vec![], vec![]],
    };
    assert!(table.check_wf());
    assert_eq!(
        render_table(&table),
        "\u{250c}\u{252c}\u{2510}\n\u{2514}\u{2534}\u{2518}\n"
    );
}

#[test]
fn ragged_grid_is_rejected_by_the_check() {
    let table = Table {
        rows: 2,
        columns: 2,
        data: vec![vec![number(1.0), number(2.0)], vec![number(3.0)]],
    };
    assert!(!table.check_wf());
}

#[test]
fn cell_texts() {
    assert_eq!(cell_text(&Value::Bool(false)), "Bool(false)");
    assert_eq!(cell_text(&Value::Bool(true)), "Bool(true)");
    assert_eq!(cell_text(&Value::String("hi".to_string())), "String(\"hi\")");
    assert_eq!(cell_text(&number(22.5)), "22.5");
    assert_eq!(cell_text(&Value::Other("Empty".to_string())), "Empty");
}
