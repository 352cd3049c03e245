use n8sight::scroll_state::ScrollState;

#[test]
fn test_empty_list() {
    let mut s = ScrollState::new();
    s.set_len(0);
    assert_eq!(s.selected(), 0);
    s.move_down();
    assert_eq!(s.selected(), 0);
    s.move_up();
    assert_eq!(s.selected(), 0);
}

#[test]
fn test_navigation() {
    let mut s = ScrollState::new();
    s.set_len(10);
    assert_eq!(s.selected(), 0);

    s.move_down();
    assert_eq!(s.selected(), 1);

    s.move_bottom();
    assert_eq!(s.selected(), 9);

    s.move_down(); // can't go past end
    assert_eq!(s.selected(), 9);

    s.move_top();
    assert_eq!(s.selected(), 0);

    s.move_up(); // can't go past start
    assert_eq!(s.selected(), 0);
}

#[test]
fn test_page_navigation() {
    let mut s = ScrollState::new();
    s.set_len(100);

    s.page_down(20);
    assert_eq!(s.selected(), 20);

    s.page_down(20);
    assert_eq!(s.selected(), 40);

    s.page_up(20);
    assert_eq!(s.selected(), 20);

    s.page_up(30); // clamps to 0
    assert_eq!(s.selected(), 0);
}

#[test]
fn test_clamp_on_shrink() {
    let mut s = ScrollState::new();
    s.set_len(10);
    s.move_bottom();
    assert_eq!(s.selected(), 9);

    s.set_len(5); // shrink - should clamp
    assert_eq!(s.selected(), 4);

    s.set_len(0);
    assert_eq!(s.selected(), 0);
}

#[test]
fn test_table_state_sync() {
    let mut s = ScrollState::new();
    s.set_len(5);
    s.move_down();
    s.move_down();
    assert_eq!(s.table_state_mut().selected(), Some(2));
}

#[test]
fn page_down_stops_at_last_row_and_reset_returns_to_top() {
    let mut s = ScrollState::new();
    s.set_len(7);
    s.page_down(20);
    assert_eq!(s.selected(), 6);
    assert_eq!(s.len(), 7);
    assert!(!s.is_empty());
    s.reset();
    assert_eq!(s.selected(), 0);
    assert_eq!(s.table_state_mut().selected(), Some(0));
}

#[test]
fn new_list_is_empty_and_selects_first_row() {
    let mut s = ScrollState::default();
    assert!(s.is_empty());
    assert_eq!(s.table_state_mut().selected(), Some(0));
    s.move_bottom();
    assert_eq!(s.selected(), 0);
}
