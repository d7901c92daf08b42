use lazysql::state::search::SearchState;

#[test]
fn matches_empty_query_always_true() {
    let s = SearchState::default();
    assert!(s.matches("anything"));
    assert!(s.matches(""));
}

#[test]
fn matches_case_insensitive() {
    let mut s = SearchState::default();
    s.query = "PUB".to_string();
    assert!(s.matches("public"));
    assert!(s.matches("PUBLIC"));
    assert!(!s.matches("auth"));
}

#[test]
fn matches_substring() {
    let mut s = SearchState::default();
    s.query = "ser".to_string();
    assert!(s.matches("users"));
    assert!(!s.matches("posts"));
}

#[test]
fn reset_clears_query_and_deactivates() {
    let mut s = SearchState { query: "foo".to_string(), active: true };
    s.reset();
    assert!(s.query.is_empty());
    assert!(!s.active);
}

#[test]
fn search_open_sets_active() {
    let mut s = SearchState::default();
    s.open();
    assert!(s.active);
}

#[test]
fn close_clears_active_keeps_query() {
    let mut s = SearchState { query: "foo".to_string(), active: true };
    s.close();
    assert!(!s.active);
    assert_eq!(s.query, "foo");
}

#[test]
fn matches_non_ascii_case_insensitive() {
    let mut s = SearchState::default();
    s.query = "ÜBER".to_string();
    assert!(s.matches("über_table"));
}
