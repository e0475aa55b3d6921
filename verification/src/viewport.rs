use vstd::prelude::*;

verus! {

/// Columns of the terminal that show no text: one at each side, kept for
/// the marks that say that a row goes on beyond the window.
pub const MARGIN_COLUMNS: usize = 2;

/// Rows of the terminal that show no text: the header, the empty row below
/// it and the status row.
pub const CHROME_ROWS: usize = 3;

/// How many columns of text a terminal of this width shows.
pub open spec fn usable_width_of(term_width: usize) -> usize {
    if term_width >= MARGIN_COLUMNS {
        (term_width - MARGIN_COLUMNS) as usize
    } else {
        0
    }
}

/// How many rows of text a terminal of this height shows.
pub open spec fn visible_rows_of(term_height: usize) -> usize {
    if term_height >= CHROME_ROWS {
        (term_height - CHROME_ROWS) as usize
    } else {
        0
    }
}

/// The offset of a window of `extent` cells after it has followed the
/// cursor. A cursor before the window pulls its start to the cursor; a
/// cursor at or behind its end then pulls its last cell to the cursor.
pub open spec fn scroll_after(cursor: int, scroll: int, extent: int) -> int {
    let near = if cursor < scroll {
        cursor
    } else {
        scroll
    };
    if cursor >= near + extent {
        cursor + 1 - extent
    } else {
        near
    }
}

/// A window with at least one cell holds the cursor once it has followed it.
pub proof fn lemma_scroll_holds_cursor(cursor: int, scroll: int, extent: int)
    requires
        0 <= cursor,
        0 <= scroll,
        0 < extent,
    ensures
        0 <= scroll_after(cursor, scroll, extent) <= cursor < scroll_after(cursor, scroll, extent)
            + extent,
{
}

/// A window that holds the cursor already stays where it is.
pub proof fn lemma_scroll_stays(cursor: int, scroll: int, extent: int)
    requires
        scroll <= cursor < scroll + extent,
    ensures
        scroll_after(cursor, scroll, extent) == scroll,
{
}

/// How many columns of text a terminal of this width shows: all but the
/// two at its sides.
pub fn usable_width(term_width: usize) -> (width: usize)
    ensures
        width == usable_width_of(term_width),
{
    if term_width >= MARGIN_COLUMNS {
        term_width - MARGIN_COLUMNS
    } else {
        0
    }
}

/// How many rows of text a terminal of this height shows: all but the rows
/// of the frame. A terminal lower than the frame shows none.
pub fn visible_rows(term_height: usize) -> (rows: usize)
    ensures
        rows == visible_rows_of(term_height),
{
    if term_height >= CHROME_ROWS {
        term_height - CHROME_ROWS
    } else {
        0
    }
}

/// Lets a window of `extent` cells that starts at `scroll` follow the
/// cursor, and returns where it starts then. A window without a cell ends
/// up just behind the cursor, which must leave room for that.
pub fn scroll_to(cursor: usize, scroll: usize, extent: usize) -> (offset: usize)
    requires
        extent > 0 || cursor < usize::MAX,
    ensures
        offset == scroll_after(cursor as int, scroll as int, extent as int),
        extent > 0 ==> offset <= cursor < offset + extent,
{
    let near = if cursor < scroll {
        cursor
    } else {
        scroll
    };
    if cursor - near >= extent {
        if extent == 0 {
            cursor + 1
        } else {
            cursor - (extent - 1)
        }
    } else {
        near
    }
}

} // verus!
