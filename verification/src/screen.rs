use vstd::prelude::*;
use crate::cursor::CursorPos;
use crate::selection::is_selected;
use crate::selection::selected;
use crate::utils::chars_of;

verus! {

/// One character on the screen, and whether it is drawn as selected.
#[derive(Clone, Copy, Debug, PartialEq, Eq, Structural)]
pub struct Cell {
    pub ch: char,
    pub selected: bool,
}

impl Cell {
    /// A character, drawn as selected or not.
    pub fn new(ch: char, selected: bool) -> (cell: Cell)
        ensures
            cell.ch == ch,
            cell.selected == selected,
    {
        Cell { ch, selected }
    }
}

/// Where a box of `inner` cells starts when it is centred among `outer`
/// cells: half of what is left over, rounded down; 0 where it does not fit.
pub open spec fn centered_at(outer: usize, inner: usize) -> usize {
    if outer >= inner {
        ((outer - inner) / 2) as usize
    } else {
        0
    }
}

/// How many characters of a row of `len` characters a window of `width`
/// columns shows when it starts at column `scroll_x`.
pub open spec fn shown_count(len: int, scroll_x: int, width: int) -> int {
    if scroll_x >= len {
        0
    } else if len - scroll_x >= width {
        width
    } else {
        len - scroll_x
    }
}

/// Whether the position `pos` is drawn as selected: an anchor is set and
/// `pos` lies between it and the cursor.
pub open spec fn drawn_selected(pos: CursorPos, anchor: Option<CursorPos>, cursor: CursorPos) -> bool {
    anchor matches Some(a) && selected(pos, a, cursor)
}

/// The column of the screen on which the cursor is drawn: its distance from
/// the start of the window, one further for the margin, and not beyond the
/// last column of the terminal.
pub open spec fn cursor_column(x: usize, scroll_x: usize, term_width: usize) -> usize {
    let inside = if x >= scroll_x {
        x - scroll_x
    } else {
        0
    };
    let last = if term_width >= 1 {
        term_width - 1
    } else {
        0
    };
    if inside + 1 <= last {
        (inside + 1) as usize
    } else {
        last as usize
    }
}

/// Where a box of `inner` cells starts when it is centred among `outer`
/// cells.
pub fn centered(outer: usize, inner: usize) -> (start: usize)
    ensures
        start == centered_at(outer, inner),
{
    if outer >= inner {
        (outer - inner) / 2
    } else {
        0
    }
}

/// Whether the window hides the start of the rows.
pub fn hidden_left(scroll_x: usize) -> (hidden: bool)
    ensures
        hidden == (scroll_x > 0),
{
    scroll_x > 0
}

/// Whether a window of `width` columns from column `scroll_x` on hides the
/// end of a row of `len` characters.
pub fn hidden_right(scroll_x: usize, width: usize, len: usize) -> (hidden: bool)
    ensures
        hidden == (scroll_x + width < len),
{
    scroll_x < len && width < len - scroll_x
}

/// The column of the screen on which the cursor is drawn.
pub fn cursor_screen_column(x: usize, scroll_x: usize, term_width: usize) -> (column: usize)
    ensures
        column == cursor_column(x, scroll_x, term_width),
{
    let inside = if x >= scroll_x {
        x - scroll_x
    } else {
        0
    };
    let last = if term_width >= 1 {
        term_width - 1
    } else {
        0
    };
    if inside < last {
        inside + 1
    } else {
        last
    }
}

/// The row of the screen on which the cursor is drawn: its distance from
/// the first row shown, below the `ui_lines` rows of the header.
pub fn cursor_screen_row(y: usize, scroll_y: usize, ui_lines: usize) -> (row: usize)
    requires
        (if y >= scroll_y {
            y - scroll_y
        } else {
            0
        }) + ui_lines <= usize::MAX,
    ensures
        row == (if y >= scroll_y {
            y - scroll_y
        } else {
            0
        }) + ui_lines,
{
    let inside = if y >= scroll_y {
        y - scroll_y
    } else {
        0
    };
    inside + ui_lines
}

/// How many rows of text are drawn on a terminal of this height below the
/// `ui_lines` rows of the header: the rest, or none where it is lower.
pub fn drawn_rows(term_height: usize, ui_lines: usize) -> (rows: usize)
    ensures
        rows == (if term_height >= ui_lines {
            term_height - ui_lines
        } else {
            0
        }),
{
    if term_height >= ui_lines {
        term_height - ui_lines
    } else {
        0
    }
}

/// The characters of row `y` that a window of `width` columns from column
/// `scroll_x` on shows, each with whether it is drawn as selected.
pub fn row_cells(
    line: &str,
    y: usize,
    scroll_x: usize,
    width: usize,
    anchor: Option<CursorPos>,
    cursor: CursorPos,
) -> (shown: Vec<Cell>)
    ensures
        shown@.len() == shown_count(line@.len() as int, scroll_x as int, width as int),
        forall|i: int|
            0 <= i < shown@.len() ==> (#[trigger] shown@[i]).ch == line@[scroll_x + i]
                && shown@[i].selected == drawn_selected(
                CursorPos { x: (scroll_x + i) as usize, y },
                anchor,
                cursor,
            ),
{
    let chars = chars_of(line);
    let mut cells: Vec<Cell> = Vec::new();
    let mut count: usize = 0;
    while count < width && scroll_x < chars.len() && count < chars.len() - scroll_x
        invariant
            chars@ == line@,
            count == cells@.len(),
            count <= width,
            count == 0 || scroll_x + count <= chars@.len(),
            forall|i: int|
                0 <= i < count ==> (#[trigger] cells@[i]).ch == line@[scroll_x + i]
                    && cells@[i].selected == drawn_selected(
                    CursorPos { x: (scroll_x + i) as usize, y },
                    anchor,
                    cursor,
                ),
        decreases width - count,
    {
        let x = scroll_x + count;
        let marked = match anchor {
            Some(a) => is_selected(CursorPos { x, y }, a, cursor),
            None => false,
        };
        cells.push(Cell::new(chars[x], marked));
        count += 1;
    }
    cells
}

} // verus!
