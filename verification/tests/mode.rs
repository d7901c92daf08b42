use lazysql::state::mode::AppMode;

#[test]
fn default_is_normal() {
    assert!(matches!(AppMode::default(), AppMode::Normal));
}

#[test]
fn variants_are_distinct() {
    assert_ne!(AppMode::Normal, AppMode::Insert);
    assert_ne!(AppMode::Insert, AppMode::Command);
}
