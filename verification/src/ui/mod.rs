//! Decision logic of the terminal interface: tabs, the card grid and the
//! state of each tab, apart from drawing.
use vstd::prelude::*;

pub mod app;
pub mod card_grid;
pub mod input;
pub mod character_creation;
pub mod system_panel;
pub mod profession_library;
pub mod skill_library;
pub mod tree_library;
pub mod theme;

verus! {

/// A full-width divider: two spaces of indent, then `width - 4` box-drawing
/// dashes (none when the width is below 4).
pub fn divider(width: u16) -> (s: String)
    ensures
        s@ == "  "@ + Seq::new((if width >= 4 { width - 4 } else { 0 }) as nat, |_i: int| '\u{2500}'),
{
    let w = width.saturating_sub(4);
    let mut s = "  ".to_owned();
    let ghost prefix = s@;
    let mut i: u16 = 0;
    while i < w
        invariant
            i <= w,
            s@ == prefix + Seq::new(i as nat, |_i: int| '\u{2500}'),
        decreases w - i,
    {
        s.push('\u{2500}');
        assert(s@ =~= prefix + Seq::new((i + 1) as nat, |_i: int| '\u{2500}'));
        i = i + 1;
    }
    assert(prefix == "  "@);
    s
}

} // verus!
