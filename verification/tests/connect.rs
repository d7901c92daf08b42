use lazysql::state::connect::ConnectState;

#[test]
fn connect_select_next_wraps() {
    let mut state = ConnectState::default();
    state.selected = 1;
    state.select_next(2);
    assert_eq!(state.selected, 0);
}

#[test]
fn select_prev_stops_at_zero() {
    let mut state = ConnectState::default();
    state.select_prev(3);
    assert_eq!(state.selected, 0);
}

#[test]
fn connect_select_noop_when_empty() {
    let mut state = ConnectState::default();
    state.select_next(0);
    state.select_prev(0);
    assert_eq!(state.selected, 0);
}

#[test]
fn select_prev_undoes_select_next_before_the_last_row() {
    let mut state = ConnectState::default();
    state.selected = 1;
    state.select_next(3);
    assert_eq!(state.selected, 2);
    state.select_prev(3);
    assert_eq!(state.selected, 1);
}
