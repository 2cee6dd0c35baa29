//! Geometry of the card grid: how many cards fit, and how the selection and
//! the scroll position move.
use vstd::prelude::*;
use vstd::utf8::*;
use vstd::string::StringSliceAdditionalSpecFns;
use vstd::string::StringExecFns;
use crate::ui::input::{Key, KeyCode, is_down, is_left, is_right, is_up};

verus! {

/// Fixed card width, borders included.
pub const CARD_WIDTH: u16 = 28;
/// Fixed card height, borders included.
pub const CARD_HEIGHT: u16 = 7;
/// Horizontal gap between cards.
pub const GAP_H: u16 = 2;
/// Vertical gap between cards.
pub const GAP_V: u16 = 1;

/// Data for a single card in the grid.
#[derive(Debug, Clone)]
pub struct CardData {
    pub title: String,
    pub lines: Vec<String>,
    pub is_action: bool,
}

/// Navigation direction within the grid.
#[derive(Debug, Clone, Copy, PartialEq, Eq, Structural)]
pub enum Direction {
    Left,
    Right,
    Up,
    Down,
}

/// Truncate a string to fit within `max_width` bytes, adding "..." if needed.
/// A string that is too long keeps its first `max_width - 3` bytes, which
/// must end on a character boundary.
pub fn truncate_line(s: &str, max_width: usize) -> (r: String)
    requires
        s.spec_bytes().len() > max_width ==> max_width >= 3 && is_char_boundary(
            s.spec_bytes(),
            max_width - 3,
        ),
    ensures
        s.spec_bytes().len() <= max_width ==> r@ == s@,
        s.spec_bytes().len() > max_width ==> r@ == decode_utf8(
            s.spec_bytes().subrange(0, max_width - 3),
        ) + "..."@,
{
    if s.as_bytes().len() <= max_width {
        s.to_owned()
    } else {
        let (head, _tail) = s.split_at(max_width - 3);
        proof {
            encode_utf8_decode_utf8(head@);
            assert(head.spec_bytes() == s.spec_bytes().subrange(0, max_width - 3));
            assert(decode_utf8(encode_utf8(head@)) == head@);
            assert(head@ == decode_utf8(s.spec_bytes().subrange(0, max_width - 3)));
        }
        let mut r = head.to_owned();
        let ghost h = r@;
        r.append("...");
        assert(r@ == h + "..."@);
        r
    }
}

/// How many card columns fit in the given width (at least one).
pub fn grid_columns(area_width: u16, card_width: u16, gap: u16) -> (c: usize)
    requires
        card_width + gap <= u16::MAX,
        card_width + gap > 0,
    ensures
        c == (if area_width as int / (card_width + gap) >= 1 { area_width as int / (card_width + gap) } else { 1 }),
        c >= 1,
{
    let total_per_card = card_width + gap;
    let cols = area_width / total_per_card;
    if (cols as usize) > 1 { cols as usize } else { 1 }
}

/// How many card rows are visible in the given height (at least one).
pub fn grid_visible_rows(area_height: u16, card_height: u16, gap: u16) -> (r: usize)
    requires
        card_height + gap <= u16::MAX,
        card_height + gap > 0,
    ensures
        r == (if area_height as int / (card_height + gap) >= 1 { area_height as int / (card_height + gap) } else { 1 }),
        r >= 1,
{
    let total_per_row = card_height + gap;
    let rows = area_height / total_per_row;
    if (rows as usize) > 1 { rows as usize } else { 1 }
}

/// The card selected after one move.
pub open spec fn navigated_selection(direction: Direction, selected: int, total: int, columns: int) -> int {
    match direction {
        Direction::Right => if selected + 1 < total { selected + 1 } else { selected },
        Direction::Left => if selected > 0 { selected - 1 } else { 0 },
        Direction::Down => if selected + columns < total { selected + columns } else { total - 1 },
        Direction::Up => if selected >= columns { selected - columns } else { 0 },
    }
}

/// The scroll offset that keeps `row` visible, moving as little as possible.
pub open spec fn scrolled_to(row: int, scroll_offset: int, visible_rows: int) -> int {
    if row < scroll_offset {
        row
    } else if row >= scroll_offset + visible_rows {
        row - visible_rows + 1
    } else {
        scroll_offset
    }
}

/// Move selection in the grid. Returns (new_selected, new_scroll_offset).
pub fn grid_navigate(
    direction: Direction,
    selected: usize,
    total: usize,
    columns: usize,
    scroll_offset: usize,
    visible_rows: usize,
) -> (r: (usize, usize))
    requires
        total > 0 ==> columns > 0,
        total > 0 ==> scroll_offset + visible_rows <= usize::MAX,
        total > 0 && direction == Direction::Right ==> selected + 1 <= usize::MAX,
        total > 0 && direction == Direction::Down ==> selected + columns <= usize::MAX,
    ensures
        total == 0 ==> r == (0usize, 0usize),
        total > 0 ==> r.0 == navigated_selection(direction, selected as int, total as int, columns as int),
        total > 0 ==> r.1 == scrolled_to(r.0 as int / columns as int, scroll_offset as int, visible_rows as int),
{
    if total == 0 {
        return (0, 0);
    }
    let new_selected = match direction {
        Direction::Right => {
            if selected + 1 < total { selected + 1 } else { selected }
        },
        Direction::Left => {
            if selected > 0 { selected - 1 } else { 0 }
        },
        Direction::Down => {
            let target = selected + columns;
            if target < total { target } else { total - 1 }
        },
        Direction::Up => {
            if selected >= columns { selected - columns } else { 0 }
        },
    };
    let selected_row = new_selected / columns;
    let mut new_scroll = scroll_offset;
    if selected_row < new_scroll {
        new_scroll = selected_row;
    } else if selected_row >= new_scroll + visible_rows {
        new_scroll = selected_row - visible_rows + 1;
    }
    (new_selected, new_scroll)
}

/// A move from a card inside the grid lands on a card inside the grid.
pub proof fn lemma_navigate_stays_in_grid(direction: Direction, selected: int, total: int, columns: int)
    requires
        0 <= selected < total,
        columns > 0,
    ensures
        0 <= navigated_selection(direction, selected, total, columns) < total,
{
}

/// After a move the selected card's row lies inside the visible window.
pub proof fn lemma_scroll_keeps_selection_visible(row: int, scroll_offset: int, visible_rows: int)
    requires
        row >= 0,
        scroll_offset >= 0,
        visible_rows >= 1,
    ensures
        scrolled_to(row, scroll_offset, visible_rows) <= row < scrolled_to(row, scroll_offset, visible_rows) + visible_rows,
        scrolled_to(row, scroll_offset, visible_rows) >= 0,
{
}

/// Moving right and then left from a card that has a right neighbour comes
/// back to it, and so does moving down and then up.
pub proof fn lemma_navigate_round_trip(selected: int, total: int, columns: int)
    requires
        0 <= selected,
        columns > 0,
    ensures
        selected + 1 < total ==> navigated_selection(Direction::Left, navigated_selection(Direction::Right, selected, total, columns), total, columns) == selected,
        selected + columns < total ==> navigated_selection(Direction::Up, navigated_selection(Direction::Down, selected, total, columns), total, columns) == selected,
{
}

/// The grid direction of a navigation key: arrows and h/j/k/l.
pub open spec fn key_direction(key: Key) -> Option<Direction> {
    if is_up(key) {
        Some(Direction::Up)
    } else if is_down(key) {
        Some(Direction::Down)
    } else if is_left(key) {
        Some(Direction::Left)
    } else if is_right(key) {
        Some(Direction::Right)
    } else {
        None
    }
}

/// The grid direction of a navigation key, if it is one.
pub fn direction_of(key: Key) -> (d: Option<Direction>)
    ensures
        d == key_direction(key),
{
    match key.code {
        KeyCode::Up | KeyCode::Char('k') => Some(Direction::Up),
        KeyCode::Down | KeyCode::Char('j') => Some(Direction::Down),
        KeyCode::Left | KeyCode::Char('h') => Some(Direction::Left),
        KeyCode::Right | KeyCode::Char('l') => Some(Direction::Right),
        _ => None,
    }
}

/// Columns of the grid the key handlers navigate: that of an 80-wide area.
pub open spec fn handler_columns() -> int {
    2
}

/// Visible rows of the grid the key handlers navigate: that of a 20-high area.
pub open spec fn handler_rows() -> int {
    2
}

/// One move in the grid that the key handlers assume (80 x 20 cells):
/// returns the new selection and scroll offset.
pub fn navigate_handler_grid(direction: Direction, selected: usize, total: usize, scroll_offset: usize) -> (r: (usize, usize))
    requires
        total > 0,
        selected + 2 <= usize::MAX,
        scroll_offset + 2 <= usize::MAX,
    ensures
        r.0 == navigated_selection(direction, selected as int, total as int, handler_columns()),
        r.1 == scrolled_to(r.0 as int / handler_columns(), scroll_offset as int, handler_rows()),
{
    let cols = grid_columns(80, CARD_WIDTH, GAP_H);
    let vis_rows = grid_visible_rows(20, CARD_HEIGHT, GAP_V);
    assert(cols == 2);
    assert(vis_rows == 2);
    grid_navigate(direction, selected, total, cols, scroll_offset, vis_rows)
}

} // verus!
