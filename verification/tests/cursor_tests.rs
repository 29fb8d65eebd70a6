use train_dashboard::cursor::{CursorStep, RouteCursor};

fn expanded(stops: usize) -> RouteCursor {
    let mut cursor = RouteCursor::new();
    cursor.reclamp(stops);
    cursor.toggle_detail();
    cursor
}

#[test]
fn new_cursor_is_collapsed_on_first_stop() {
    let cursor = RouteCursor::new();
    assert_eq!(cursor.selected_index(), 0);
    assert!(!cursor.detail_expanded());
    assert_eq!(cursor.stop_count(), 0);
    assert_eq!(cursor.selected_detail(), None);
}

#[test]
fn toggle_detail_flips_the_flag() {
    let mut cursor = RouteCursor::new();
    cursor.reclamp(3);
    cursor.toggle_detail();
    assert!(cursor.detail_expanded());
    assert_eq!(cursor.selected_detail(), Some(0));
    cursor.toggle_detail();
    assert!(!cursor.detail_expanded());
    assert_eq!(cursor.selected_detail(), None);
}

#[test]
fn move_up_stops_at_the_last_stop() {
    let mut cursor = expanded(3);
    cursor.move_up();
    assert_eq!(cursor.selected_index(), 1);
    cursor.move_up();
    assert_eq!(cursor.selected_index(), 2);
    cursor.move_up();
    assert_eq!(cursor.selected_index(), 2);
}

#[test]
fn move_down_stops_at_the_first_stop() {
    let mut cursor = expanded(3);
    cursor.move_up();
    cursor.move_down();
    assert_eq!(cursor.selected_index(), 0);
    cursor.move_down();
    assert_eq!(cursor.selected_index(), 0);
}

#[test]
fn moves_are_without_effect_while_collapsed() {
    let mut cursor = RouteCursor::new();
    cursor.reclamp(4);
    cursor.move_up();
    assert_eq!(cursor.selected_index(), 0);
    cursor.toggle_detail();
    cursor.move_up();
    cursor.move_up();
    cursor.toggle_detail();
    cursor.move_down();
    assert_eq!(cursor.selected_index(), 2);
}

#[test]
fn reclamp_moves_a_stale_selection_to_the_last_stop() {
    let mut cursor = expanded(10);
    for _ in 0..9 {
        cursor.move_up();
    }
    assert_eq!(cursor.selected_index(), 9);
    cursor.reclamp(4);
    assert_eq!(cursor.selected_index(), 3);
    assert_eq!(cursor.stop_count(), 4);
    assert!(cursor.detail_expanded());
    cursor.reclamp(8);
    assert_eq!(cursor.selected_index(), 3);
}

#[test]
fn reclamp_to_empty_route_pins_the_cursor() {
    let mut cursor = expanded(5);
    cursor.move_up();
    cursor.move_up();
    cursor.reclamp(0);
    assert_eq!(cursor.selected_index(), 0);
    assert_eq!(cursor.selected_detail(), None);
    for step in [CursorStep::MoveUp, CursorStep::MoveUp, CursorStep::MoveDown, CursorStep::MoveUp] {
        cursor.step(step);
        assert_eq!(cursor.selected_index(), 0);
        assert_eq!(cursor.selected_detail(), None);
    }
}

#[test]
fn any_walk_stays_on_the_route() {
    let mut cursor = expanded(3);
    let walk = [
        CursorStep::MoveUp,
        CursorStep::MoveUp,
        CursorStep::MoveUp,
        CursorStep::MoveUp,
        CursorStep::MoveDown,
        CursorStep::ToggleDetail,
        CursorStep::MoveDown,
        CursorStep::ToggleDetail,
        CursorStep::MoveDown,
        CursorStep::MoveDown,
        CursorStep::MoveDown,
        CursorStep::MoveUp,
    ];
    let expected = [1, 2, 2, 2, 1, 1, 1, 1, 0, 0, 0, 1];
    for (step, index) in walk.iter().zip(expected.iter()) {
        cursor.step(*step);
        assert!(cursor.selected_index() < cursor.stop_count());
        assert_eq!(cursor.selected_index(), *index);
    }
}

#[test]
fn single_stop_route_keeps_index_zero() {
    let mut cursor = expanded(1);
    cursor.move_up();
    assert_eq!(cursor.selected_index(), 0);
    cursor.move_down();
    assert_eq!(cursor.selected_index(), 0);
    assert_eq!(cursor.selected_detail(), Some(0));
}
