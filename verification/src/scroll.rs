//! The scroll window: which lines are visible, given where the cursor is.

use vstd::prelude::*;

verus! {

/// The first visible line after one recalculation: the cursor's row if that lies
/// above the window, one line further down if it lies below, unchanged otherwise.
pub open spec fn scrolled_offset(cursor_y: int, screen_height: int, scroll_offset: int) -> int {
    if cursor_y < scroll_offset {
        cursor_y
    } else if cursor_y > scroll_offset + screen_height - 1 {
        scroll_offset + 1
    } else {
        scroll_offset
    }
}

/// The row at which the cursor is shown in a window of `screen_height` lines that
/// starts at `scroll_offset`: the row itself, pulled into the window.
pub open spec fn shown_row(cursor_y: int, screen_height: int, scroll_offset: int) -> int {
    if cursor_y < scroll_offset {
        scroll_offset
    } else if cursor_y > scroll_offset + screen_height - 1 {
        scroll_offset + screen_height - 1
    } else {
        cursor_y
    }
}

/// Recalculates the scroll window for a cursor on row `cursor_y`.
///
/// The window moves up to the cursor at once but down by one line per call. The
/// row is then pulled into the new window, so that on return the window holds it.
pub fn update_scroll(cursor_y: &mut usize, screen_height: usize, scroll_offset: &mut usize)
    requires
        screen_height >= 1,
    ensures
        *final(scroll_offset) == scrolled_offset(
            *old(cursor_y) as int,
            screen_height as int,
            *old(scroll_offset) as int,
        ),
        *final(cursor_y) == shown_row(
            *old(cursor_y) as int,
            screen_height as int,
            *final(scroll_offset) as int,
        ),
        *final(scroll_offset) <= *final(cursor_y) <= *final(scroll_offset) + screen_height - 1,
        *final(cursor_y) <= *old(cursor_y),
{
    if *cursor_y < *scroll_offset {
        *scroll_offset = *cursor_y;
    } else if *cursor_y - *scroll_offset > screen_height - 1 {
        *scroll_offset += 1;
    }
    if *cursor_y - *scroll_offset > screen_height - 1 {
        *cursor_y = *scroll_offset + (screen_height - 1);
    }
}

} // verus!
