use lazysql::db::repo::sql_repo::{ColumnInfo, ConstraintType, TableField};
use lazysql::state::records::RecordsState;
use lazysql::ui::format::{format_fields, format_records, format_records_table, format_records_vertical, truncate_cell};

#[test]
fn nullable_column_stays_aligned_with_long_type_values() {
    let short = TableField {
        name: "id".to_string(),
        data_type: "integer".to_string(),
        is_nullable: "NO".to_string(),
        constraint: None,
        default_value: None,
    };
    let long = TableField {
        name: "payload".to_string(),
        data_type: "character varying with very very long suffix".to_string(),
        is_nullable: "YES".to_string(),
        constraint: None,
        default_value: None,
    };
    let rendered = format_fields(&[&short, &long]);
    let lines: Vec<&str> = rendered.lines().collect();
    let nullable_short = lines[2].find("NO").unwrap();
    let nullable_long = lines[3].find("YES").unwrap();
    assert_eq!(nullable_short, nullable_long);
}

#[test]
fn columns_have_wider_gap_between_each_other() {
    let field = TableField {
        name: "id".to_string(),
        data_type: "integer".to_string(),
        is_nullable: "NO".to_string(),
        constraint: None,
        default_value: None,
    };
    let rendered = format_fields(&[&field]);
    let header = rendered.lines().next().unwrap();
    let column_end = header.find("Column").unwrap() + "Column".len();
    let type_start = header.find("Type").unwrap();
    let nullable_start = header.find("Nullable").unwrap();
    let constraint_start = header.find("Constraint").unwrap();
    let default_start = header.find("Default").unwrap();
    assert!(type_start - column_end >= 3);
    assert!(nullable_start - (type_start + "Type".len()) >= 3);
    assert!(constraint_start - (nullable_start + "Nullable".len()) >= 3);
    assert!(default_start - (constraint_start + "Constraint".len()) >= 3);
}

#[test]
fn format_records_table_aligns_columns() {
    let records = RecordsState {
        columns: vec![ColumnInfo { name: "id".into() }, ColumnInfo { name: "name".into() }],
        rows: vec![
            vec![Some("1".into()), Some("Alice".into())],
            vec![Some("2".into()), Some("Bob".into())],
        ],
        ..Default::default()
    };
    let output = format_records_table(&records);
    assert!(output.contains("id"));
    assert!(output.contains("name"));
    assert!(output.contains("Alice"));
    assert!(output.contains("Bob"));
}

#[test]
fn format_records_table_handles_null() {
    let records = RecordsState {
        columns: vec![ColumnInfo { name: "val".into() }],
        rows: vec![vec![None]],
        ..Default::default()
    };
    let output = format_records_table(&records);
    assert!(output.contains("NULL"));
}

#[test]
fn format_records_table_empty_returns_no_data() {
    let records = RecordsState::default();
    let output = format_records_table(&records);
    assert_eq!(output, "No data");
}

#[test]
fn format_records_uses_vertical_layout_when_table_is_too_wide() {
    let mut records = RecordsState {
        columns: vec![
            ColumnInfo { name: "id".into() },
            ColumnInfo { name: "dedupe_key".into() },
            ColumnInfo { name: "message".into() },
        ],
        rows: vec![vec![
            Some("6".into()),
            Some("test-1".into()),
            Some("Test message for notification 1. Generated automatically.".into()),
        ]],
        ..Default::default()
    };
    records.calculate_min_table_width();
    let output = format_records(&records, records.min_table_width.saturating_sub(1));
    assert!(output.contains("-[ RECORD 1 ]"));
    assert!(output.contains("id         | 6"));
    assert!(output.contains("dedupe_key | test-1"));
    assert!(output.contains("message    | Test message for notification 1. Generated automatically."));
}

#[test]
fn format_records_table_exact_layout() {
    let records = RecordsState {
        columns: vec![ColumnInfo { name: "id".into() }, ColumnInfo { name: "name".into() }],
        rows: vec![vec![Some("1".into()), Some("Alice".into())], vec![Some("22".into()), None]],
        ..Default::default()
    };
    assert_eq!(format_records_table(&records), "id   name \n----------\n1    Alice\n22   NULL ");
}

#[test]
fn format_records_vertical_marks_nulls_and_numbers_records() {
    let records = RecordsState {
        columns: vec![ColumnInfo { name: "a".into() }, ColumnInfo { name: "bcd".into() }],
        rows: vec![vec![Some("x".into())], vec![None, Some("y".into())]],
        ..Default::default()
    };
    assert_eq!(
        format_records_vertical(&records),
        "-[ RECORD 1 ]-------------------------\na   | x\nbcd | ∅\n-[ RECORD 2 ]-------------------------\na   | ∅\nbcd | y"
    );
}

#[test]
fn truncate_cell_keeps_short_and_cuts_long_values() {
    assert_eq!(truncate_cell("short"), "short");
    let long: String = std::iter::repeat('é').take(60).collect();
    let cut = truncate_cell(&long);
    assert_eq!(cut.chars().count(), 50);
    assert!(cut.ends_with("..."));
}

#[test]
fn format_fields_exact_layout_with_constraints() {
    let id = TableField {
        name: "id".to_string(),
        data_type: "int".to_string(),
        is_nullable: "NO".to_string(),
        constraint: Some(ConstraintType::PrimaryKey),
        default_value: Some("1".to_string()),
    };
    let fk = TableField {
        name: "owner".to_string(),
        data_type: "int".to_string(),
        is_nullable: "YES".to_string(),
        constraint: Some(ConstraintType::ForeignKey("users".to_string())),
        default_value: None,
    };
    let rendered = format_fields(&[&id, &fk]);
    let lines: Vec<&str> = rendered.lines().collect();
    assert_eq!(lines[0], "Column   Type   Nullable   Constraint            Default");
    assert_eq!(lines[2], "id       int    NO         PrimaryKey            1");
    assert_eq!(lines[3], "owner    int    YES        ForeignKey(\"users\")   ");
}
