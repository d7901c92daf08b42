use lazysql::state::navigation::{Router, Screen};
use lazysql::state::router;

#[test]
fn pop_after_push_returns_to_the_previous_screen() {
    let mut r = Router::new();
    r.push(Screen::Database);
    r.push(Screen::Records);
    r.pop();
    assert_eq!(r.current(), Some(&Screen::Database));
}

#[test]
fn pop_keeps_the_connect_screen_at_the_bottom() {
    let mut r = Router::new();
    r.pop();
    r.pop();
    assert_eq!(r.current(), Some(&Screen::Connect));
    r.push(Screen::Inspect);
    r.pop();
    r.pop();
    assert_eq!(r.current(), Some(&Screen::Connect));
}

#[test]
fn earlier_router_pop_undoes_push_and_may_empty_the_stack() {
    let mut r = router::Router::new();
    r.push(router::Screen::Tables);
    r.pop();
    assert!(matches!(r.current(), Some(router::Screen::Connect)));
    r.pop();
    assert!(r.current().is_none());
}

#[test]
fn any_moves_from_a_new_router_keep_the_connect_screen() {
    let mut r = Router::new();
    r.pop();
    assert_eq!(r.current(), Some(&Screen::Connect));
    r.push(Screen::Database);
    r.push(Screen::Records);
    r.pop();
    r.pop();
    r.pop();
    assert_eq!(r.current(), Some(&Screen::Connect));
}
