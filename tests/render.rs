use text_tables::{widths, RaggedRows};

fn table(rows: &[&[&str]]) -> Vec<Vec<String>> {
    rows.iter().map(|r| r.iter().map(|c| c.to_string()).collect()).collect()
}

#[test]
fn render() {
    let tables = vec![
        (table(&[]), &b""[..]),
        (table(&[&[]]), &b""[..]),
        (
            table(&[&["single", "line", "a"], &["second", "lines", "a"]]),
            &b"\
+--------+-------+---+
| single | line  | a |
+--------+-------+---+
| second | lines | a |
+--------+-------+---+
"[..],
        ),
    ];
    for (table, result) in tables {
        let mut out = Vec::new();
        text_tables::render(&mut out, &table).unwrap();
        assert_eq!(out, &result[..], "{:#?}", table);
    }
}

#[test]
fn two_by_two_scenario() {
    let t = table(&[&["single", "line"], &["second", "lines"]]);
    let mut out = Vec::new();
    text_tables::render(&mut out, &t).unwrap();
    let expected = "+--------+-------+\n| single | line  |\n+--------+-------+\n| second | lines |\n+--------+-------+\n";
    assert_eq!(String::from_utf8(out).unwrap(), expected);
}

#[test]
fn numeric_cells_use_display_form() {
    let t = vec![vec![12345.to_string(), "x".to_string()], vec!["ab".to_string(), 7.to_string()]];
    let mut out = Vec::new();
    text_tables::render(&mut out, &t).unwrap();
    let expected = "+-------+---+\n| 12345 | x |\n+-------+---+\n| ab    | 7 |\n+-------+---+\n";
    assert_eq!(String::from_utf8(out).unwrap(), expected);
}

#[test]
fn ragged_rows_are_refused_without_output() {
    let t = table(&[&["a", "b"], &["c"]]);
    let mut out = b"keep".to_vec();
    assert_eq!(text_tables::render(&mut out, &t), Err(RaggedRows));
    assert_eq!(out, b"keep".to_vec());
    assert_eq!(widths(&t), None);
}

#[test]
fn rendering_twice_is_identical() {
    let t = table(&[&["a", "bb"], &["ccc", "d"]]);
    let mut first = Vec::new();
    let mut second = Vec::new();
    text_tables::render(&mut first, &t).unwrap();
    text_tables::render(&mut second, &t).unwrap();
    assert_eq!(first, second);
}

#[test]
fn widths_count_bytes() {
    let t = table(&[&["é", "abc"], &["x", ""]]);
    assert_eq!(widths(&t), Some(vec![2, 3]));
    assert_eq!(widths(&table(&[])), Some(vec![]));
}

#[test]
fn empty_first_column_renders_nothing() {
    let t = table(&[&["", "x"]]);
    let mut out = Vec::new();
    text_tables::render(&mut out, &t).unwrap();
    assert!(out.is_empty());
}

#[test]
fn line_count_and_alignment() {
    let t = table(&[&["a", "bb"], &["ccc", "d"], &["e", "f"]]);
    let mut out = Vec::new();
    text_tables::render(&mut out, &t).unwrap();
    let text = String::from_utf8(out).unwrap();
    let lines: Vec<&str> = text.lines().collect();
    assert_eq!(lines.len(), 7);
    let border: Vec<usize> = lines[0].match_indices('+').map(|(i, _)| i).collect();
    for line in &lines {
        let marks: Vec<usize> = line.match_indices(|c| c == '+' || c == '|').map(|(i, _)| i).collect();
        assert_eq!(marks, border);
        assert_eq!(line.len(), lines[0].len());
    }
}
