use lazysql::state::sql_input::{SqlInputState, SqlResult};

#[test]
fn default_state_is_inactive() {
    let state = SqlInputState::default();
    assert!(!state.active);
    assert!(state.query.is_empty());
    assert!(state.result.is_none());
}

#[test]
fn sql_input_open_sets_active() {
    let mut state = SqlInputState::default();
    state.open();
    assert!(state.active);
}

#[test]
fn close_preserves_query() {
    let mut state = SqlInputState::default();
    state.query = "SELECT 1".to_string();
    state.open();
    state.close();
    assert!(!state.active);
    assert_eq!(state.query, "SELECT 1");
}

#[test]
fn sql_input_reset_clears_all() {
    let mut state = SqlInputState::default();
    state.query = "SELECT 1".to_string();
    state.active = true;
    state.result = Some(SqlResult::Rows { count: 1 });
    state.reset();
    assert!(!state.active);
    assert!(state.query.is_empty());
    assert!(state.result.is_none());
}

#[test]
fn dismiss_result_clears_only_result() {
    let mut state = SqlInputState::default();
    state.query = "SELECT 1".to_string();
    state.result = Some(SqlResult::Rows { count: 1 });
    state.dismiss_result();
    assert!(state.result.is_none());
    assert_eq!(state.query, "SELECT 1");
}

#[test]
fn insert_char_appends_and_advances_cursor() {
    let mut s = SqlInputState::default();
    s.insert_char('a');
    s.insert_char('b');
    assert_eq!(s.query, "ab");
    assert_eq!(s.cursor_pos, 2);
}

#[test]
fn insert_newline_splits_lines() {
    let mut s = SqlInputState::default();
    s.insert_char('a');
    s.insert_newline();
    s.insert_char('b');
    assert_eq!(s.query, "a\nb");
    assert_eq!(s.cursor_pos, 3);
}

#[test]
fn delete_before_removes_char() {
    let mut s = SqlInputState::default();
    s.query = "ab".into();
    s.cursor_pos = 2;
    s.delete_before();
    assert_eq!(s.query, "a");
    assert_eq!(s.cursor_pos, 1);
}

#[test]
fn delete_before_noop_at_start() {
    let mut s = SqlInputState::default();
    s.query = "a".into();
    s.cursor_pos = 0;
    s.delete_before();
    assert_eq!(s.query, "a");
    assert_eq!(s.cursor_pos, 0);
}

#[test]
fn move_left_decrements_cursor() {
    let mut s = SqlInputState::default();
    s.query = "ab".into();
    s.cursor_pos = 2;
    s.move_left();
    assert_eq!(s.cursor_pos, 1);
}

#[test]
fn move_left_stops_at_zero() {
    let mut s = SqlInputState::default();
    s.query = "a".into();
    s.cursor_pos = 0;
    s.move_left();
    assert_eq!(s.cursor_pos, 0);
}

#[test]
fn move_right_increments_cursor() {
    let mut s = SqlInputState::default();
    s.query = "ab".into();
    s.cursor_pos = 0;
    s.move_right();
    assert_eq!(s.cursor_pos, 1);
}

#[test]
fn move_right_stops_at_end() {
    let mut s = SqlInputState::default();
    s.query = "ab".into();
    s.cursor_pos = 2;
    s.move_right();
    assert_eq!(s.cursor_pos, 2);
}

#[test]
fn move_up_goes_to_prev_line_same_col() {
    let mut s = SqlInputState::default();
    s.query = "abc\nde".into();
    s.cursor_pos = 5;
    s.move_up();
    assert_eq!(s.cursor_pos, 1);
}

#[test]
fn move_up_noop_on_first_line() {
    let mut s = SqlInputState::default();
    s.query = "abc".into();
    s.cursor_pos = 2;
    s.move_up();
    assert_eq!(s.cursor_pos, 2);
}

#[test]
fn move_down_goes_to_next_line_same_col() {
    let mut s = SqlInputState::default();
    s.query = "abc\nde".into();
    s.cursor_pos = 1;
    s.move_down();
    assert_eq!(s.cursor_pos, 5);
}

#[test]
fn move_line_start_goes_to_line_beginning() {
    let mut s = SqlInputState::default();
    s.query = "abc\nde".into();
    s.cursor_pos = 5;
    s.move_line_start();
    assert_eq!(s.cursor_pos, 4);
}

#[test]
fn move_line_end_goes_to_line_end() {
    let mut s = SqlInputState::default();
    s.query = "abc\nde".into();
    s.cursor_pos = 4;
    s.move_line_end();
    assert_eq!(s.cursor_pos, 6);
}

#[test]
fn history_records_on_push() {
    let mut s = SqlInputState::default();
    s.query = "SELECT 1".into();
    s.cursor_pos = 8;
    s.push_history();
    assert_eq!(s.history, vec!["SELECT 1"]);
}

#[test]
fn history_deduplicates() {
    let mut s = SqlInputState::default();
    s.query = "SELECT 1".into();
    s.push_history();
    s.query = "SELECT 1".into();
    s.push_history();
    assert_eq!(s.history.len(), 1);
}

#[test]
fn history_prev_loads_entry() {
    let mut s = SqlInputState::default();
    s.history = vec!["SELECT 1".into(), "SELECT 2".into()];
    s.history_prev();
    assert_eq!(s.query, "SELECT 2");
    assert_eq!(s.cursor_pos, s.query.len());
}

#[test]
fn history_next_after_prev_moves_forward() {
    let mut s = SqlInputState::default();
    s.history = vec!["SELECT 1".into(), "SELECT 2".into()];
    s.history_prev();
    s.history_prev();
    s.history_next();
    assert_eq!(s.query, "SELECT 2");
}

#[test]
fn history_moves_repeated_query_to_the_end_trimmed() {
    let mut s = SqlInputState::default();
    s.query = "SELECT 1".into();
    s.push_history();
    s.query = "SELECT 2".into();
    s.push_history();
    s.query = "  SELECT 1  ".into();
    s.push_history();
    assert_eq!(s.history, vec!["SELECT 2", "SELECT 1"]);
}

#[test]
fn history_keeps_at_most_one_hundred_entries() {
    let mut s = SqlInputState::default();
    for i in 0..105 {
        s.query = format!("SELECT {i}");
        s.push_history();
    }
    assert_eq!(s.history.len(), 100);
    assert_eq!(s.history[0], "SELECT 5");
    assert_eq!(s.history[99], "SELECT 104");
}

#[test]
fn history_next_past_newest_clears_buffer() {
    let mut s = SqlInputState::default();
    s.history = vec!["SELECT 1".into()];
    s.history_prev();
    s.history_next();
    assert!(s.query.is_empty());
    assert_eq!(s.cursor_pos, 0);
    assert_eq!(s.history_idx, None);
}

#[test]
fn insert_multibyte_char_advances_by_its_bytes() {
    let mut s = SqlInputState::default();
    s.insert_char('é');
    s.insert_char('x');
    assert_eq!(s.query, "éx");
    assert_eq!(s.cursor_pos, 3);
    s.move_left();
    s.move_left();
    assert_eq!(s.cursor_pos, 0);
}

#[test]
fn cursor_line_col_counts_bytes_after_line_start() {
    let mut s = SqlInputState::default();
    s.query = "ab\ncde".into();
    s.cursor_pos = 5;
    assert_eq!(s.cursor_line_col(), (1, 2));
}

#[test]
fn backspace_after_typing_restores_buffer_and_cursor() {
    for c in ['x', 'é', '€', '😀'] {
        let mut state = SqlInputState::default();
        state.query = "añb".to_string();
        state.cursor_pos = 3;
        state.insert_char(c);
        assert_eq!(state.cursor_pos, 3 + c.len_utf8());
        state.delete_before();
        assert_eq!(state.query, "añb");
        assert_eq!(state.cursor_pos, 3);
    }
}

#[test]
fn history_never_holds_a_query_twice() {
    let mut state = SqlInputState::default();
    for q in ["a", "b", "a", " b ", "c"] {
        state.query = q.to_string();
        state.push_history();
    }
    assert_eq!(state.history, vec!["a", "b", "c"]);
}

#[test]
fn left_and_right_undo_each_other_over_multibyte_characters() {
    let mut state = SqlInputState::default();
    state.query = "añ€b".to_string();
    state.cursor_pos = 1;
    state.move_right();
    assert_eq!(state.cursor_pos, 3);
    state.move_left();
    assert_eq!(state.cursor_pos, 1);
    state.cursor_pos = 6;
    state.move_left();
    assert_eq!(state.cursor_pos, 3);
    state.move_right();
    assert_eq!(state.cursor_pos, 6);
}
