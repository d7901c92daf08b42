use lazysql::db::repo::sql_repo::{ColumnInfo, FetchRowsResult};
use lazysql::state::records::{RecordsSource, RecordsState};

#[test]
fn pagination_calculates_pages_correctly() {
    let mut state = RecordsState::default();
    state.rows_per_page = 10;
    state.total_count = 25;
    assert_eq!(state.total_pages(), 3);
    assert_eq!(state.current_page(), 1);
}

#[test]
fn next_page_advances_offset() {
    let mut state = RecordsState::default();
    state.rows_per_page = 10;
    state.total_count = 25;
    state.next_page();
    assert_eq!(state.offset, 10);
    assert_eq!(state.current_page(), 2);
}

#[test]
fn prev_page_decrements_offset() {
    let mut state = RecordsState::default();
    state.rows_per_page = 10;
    state.total_count = 25;
    state.offset = 20;
    state.prev_page();
    assert_eq!(state.offset, 10);
}

#[test]
fn prev_page_stops_at_zero() {
    let mut state = RecordsState::default();
    state.rows_per_page = 10;
    state.offset = 5;
    state.prev_page();
    assert_eq!(state.offset, 0);
}

#[test]
fn reset_clears_all_state() {
    let mut state = RecordsState::for_table("public".into(), "users".into());
    state.offset = 10;
    state.total_count = 100;
    state.reset();
    assert!(state.source.is_none());
    assert_eq!(state.offset, 0);
    assert_eq!(state.total_count, 0);
}

#[test]
fn for_table_sets_source() {
    let state = RecordsState::for_table("public".into(), "users".into());
    match state.source {
        Some(RecordsSource::Table { schema, table }) => {
            assert_eq!(schema, "public");
            assert_eq!(table, "users");
        }
        _ => panic!("Expected Table source"),
    }
}

#[test]
fn for_query_sets_source() {
    let state = RecordsState::for_query("SELECT 1".into());
    match state.source {
        Some(RecordsSource::Query { sql }) => {
            assert_eq!(sql, "SELECT 1");
        }
        _ => panic!("Expected Query source"),
    }
}

#[test]
fn has_next_page_true_when_more_pages() {
    let mut state = RecordsState::default();
    state.rows_per_page = 10;
    state.total_count = 25;
    state.offset = 0;
    assert!(state.has_next_page());
}

#[test]
fn has_next_page_false_on_last_page() {
    let mut state = RecordsState::default();
    state.rows_per_page = 10;
    state.total_count = 25;
    state.offset = 20;
    assert!(!state.has_next_page());
}

#[test]
fn has_prev_page_false_at_start() {
    let mut state = RecordsState::default();
    state.offset = 0;
    assert!(!state.has_prev_page());
}

#[test]
fn update_from_result_populates_state() {
    let mut state = RecordsState::default();
    let result = FetchRowsResult {
        columns: vec![ColumnInfo { name: "id".into() }],
        rows: vec![vec![Some("1".into())]],
        total_count: 1,
    };
    state.update_from_result(result);
    assert_eq!(state.columns.len(), 1);
    assert_eq!(state.rows.len(), 1);
    assert_eq!(state.total_count, 1);
}

#[test]
fn next_then_prev_page_returns_to_the_start() {
    let mut state = RecordsState::default();
    state.rows_per_page = 10;
    state.total_count = 25;
    state.next_page();
    state.prev_page();
    assert_eq!(state.offset, 0);
    assert_eq!(state.current_page(), 1);
}

#[test]
fn next_page_on_last_page_keeps_offset() {
    let mut state = RecordsState::default();
    state.rows_per_page = 10;
    state.total_count = 25;
    state.offset = 20;
    assert_eq!(state.next_page(), 20);
}

#[test]
fn total_pages_counts_partial_pages_and_unpaged_state() {
    let mut state = RecordsState::default();
    assert_eq!(state.total_pages(), 1);
    state.rows_per_page = 10;
    assert_eq!(state.total_pages(), 0);
    state.total_count = 11;
    assert_eq!(state.total_pages(), 2);
}

#[test]
fn min_table_width_counts_names_cells_gaps_and_borders() {
    let mut state = RecordsState::default();
    state.columns = vec![ColumnInfo { name: "id".into() }, ColumnInfo { name: "name".into() }];
    state.rows = vec![vec![Some("1".into()), None]];
    state.calculate_min_table_width();
    // id: 2, name: 4 (NULL is 4 too), gap 3, borders 4
    assert_eq!(state.min_table_width, 2 + 3 + 4 + 4);
}

#[test]
fn paging_forward_from_the_start_stays_on_page_starts_within_the_rows() {
    let mut s = RecordsState::new();
    s.rows_per_page = 10;
    s.total_count = 25;
    assert_eq!(s.next_page(), 10);
    assert_eq!(s.next_page(), 20);
    assert_eq!(s.next_page(), 20);
    assert!(s.offset < s.total_count);
    assert_eq!(s.prev_page(), 10);
    assert_eq!(s.next_page(), 20);
}

#[test]
fn current_page_never_passes_the_page_count_on_a_row() {
    let mut s = RecordsState::new();
    s.rows_per_page = 10;
    s.total_count = 25;
    for offset in [0, 10, 20] {
        s.offset = offset;
        assert!(s.current_page() >= 1 && s.current_page() <= s.total_pages());
    }
    assert_eq!(s.total_pages(), 3);
}
