use litrpg::ui::card_grid::{
    grid_columns, grid_navigate, grid_visible_rows, truncate_line, Direction, CARD_HEIGHT,
    CARD_WIDTH, GAP_H, GAP_V,
};

#[test]
fn test_grid_columns_wide_terminal() {
    assert_eq!(grid_columns(120, CARD_WIDTH, GAP_H), 4);
}

#[test]
fn test_grid_columns_narrow_terminal() {
    assert_eq!(grid_columns(30, CARD_WIDTH, GAP_H), 1);
}

#[test]
fn test_grid_columns_exact_fit() {
    assert_eq!(grid_columns(60, CARD_WIDTH, GAP_H), 2);
}

#[test]
fn test_grid_visible_rows() {
    assert_eq!(grid_visible_rows(24, CARD_HEIGHT, GAP_V), 3);
}

#[test]
fn test_grid_visible_rows_small() {
    assert_eq!(grid_visible_rows(5, CARD_HEIGHT, GAP_V), 1);
}

#[test]
fn test_navigate_right_wraps_to_next_row() {
    let (sel, _) = grid_navigate(Direction::Right, 2, 6, 3, 0, 3);
    assert_eq!(sel, 3);
}

#[test]
fn test_navigate_left_wraps_to_prev_row() {
    let (sel, _) = grid_navigate(Direction::Left, 3, 6, 3, 0, 3);
    assert_eq!(sel, 2);
}

#[test]
fn test_navigate_down_same_column() {
    let (sel, _) = grid_navigate(Direction::Down, 1, 6, 3, 0, 3);
    assert_eq!(sel, 4);
}

#[test]
fn test_navigate_down_clamps_to_last() {
    let (sel, _) = grid_navigate(Direction::Down, 4, 6, 3, 0, 3);
    assert_eq!(sel, 5);
}

#[test]
fn test_navigate_up_clamps_to_zero() {
    let (sel, _) = grid_navigate(Direction::Up, 1, 6, 3, 0, 3);
    assert_eq!(sel, 0);
}

#[test]
fn test_navigate_right_clamps_at_end() {
    let (sel, _) = grid_navigate(Direction::Right, 5, 6, 3, 0, 3);
    assert_eq!(sel, 5);
}

#[test]
fn test_navigate_left_clamps_at_zero() {
    let (sel, _) = grid_navigate(Direction::Left, 0, 6, 3, 0, 3);
    assert_eq!(sel, 0);
}

#[test]
fn test_scroll_adjusts_when_moving_below_visible() {
    let (sel, scroll) = grid_navigate(Direction::Down, 2, 9, 3, 0, 1);
    assert_eq!(sel, 5);
    assert_eq!(scroll, 1);
}

#[test]
fn test_scroll_adjusts_when_moving_above_visible() {
    let (sel, scroll) = grid_navigate(Direction::Up, 3, 9, 3, 1, 1);
    assert_eq!(sel, 0);
    assert_eq!(scroll, 0);
}

#[test]
fn test_truncate_line() {
    assert_eq!(truncate_line("short", 26), "short");
    assert_eq!(truncate_line("this is a very long string that exceeds", 26), "this is a very long str...");
}
