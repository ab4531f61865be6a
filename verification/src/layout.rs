//! The one layout figure the host needs from the menu: how tall the window
//! must be for the input row and the current result list.

use vstd::prelude::*;

verus! {

/// The font size of the input row and the list entries, in pixels.
pub const FONT_SIZE: u32 = 16;

/// One list row: the font plus a little breathing room.
pub const ITEM_SIZE: u32 = FONT_SIZE + 2;

/// The canvas border around the rows.
pub const FRAME_PADDING: u32 = 4;

/// The window height that fits the input row and `item_count` result rows.
pub fn menu_height(item_count: usize) -> (h: u32)
    requires
        ITEM_SIZE * (item_count + 1) + FRAME_PADDING <= u32::MAX,
    ensures
        h == ITEM_SIZE * (item_count + 1) + FRAME_PADDING,
{
    proof {
        assert(ITEM_SIZE == 18);
        assert(item_count + 1 <= u32::MAX) by (nonlinear_arith)
            requires
                ITEM_SIZE * (item_count + 1) + FRAME_PADDING <= u32::MAX,
                ITEM_SIZE == 18,
        ;
    }
    ITEM_SIZE * (item_count as u32 + 1) + FRAME_PADDING
}

} // verus!
