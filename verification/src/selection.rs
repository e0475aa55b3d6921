use vstd::prelude::*;
use crate::buffer::delete_range;
use crate::buffer::extract_range;
use crate::buffer::splice_text;
use crate::cursor::ordered;
use crate::cursor::pos_le;
use crate::cursor::range_end;
use crate::cursor::range_start;
use crate::cursor::CursorPos;
use crate::text::after_delete_range;
use crate::text::after_splice;
use crate::text::range_text;
use crate::text::splice_end_column;
use crate::text::splice_end_row;
use crate::text::text_of;
use crate::text::valid_pos;

verus! {

/// `pos` lies in the half-open range from `start` to `end`, which are in
/// order: on a row of the range, not before `start` on the first row and
/// before `end` on the last.
pub open spec fn in_range(pos: CursorPos, start: CursorPos, end: CursorPos) -> bool {
    &&& start.y <= pos.y <= end.y
    &&& !(pos.y == start.y && pos.x < start.x)
    &&& !(pos.y == end.y && pos.x >= end.x)
}

/// `pos` lies in the selection whose two ends are `a` and `b`, whichever of
/// them comes first.
pub open spec fn selected(pos: CursorPos, a: CursorPos, b: CursorPos) -> bool {
    in_range(pos, range_start(a, b), range_end(a, b))
}

/// There is a selection: an anchor is set and it is not where the cursor is.
pub open spec fn selection_exists(anchor: Option<CursorPos>, cursor: CursorPos) -> bool {
    anchor matches Some(a) && a != cursor
}

/// Where the selection begins: the earlier of anchor and cursor, or the
/// cursor where no anchor is set.
pub open spec fn selection_start(anchor: Option<CursorPos>, cursor: CursorPos) -> CursorPos {
    match anchor {
        Some(a) => range_start(a, cursor),
        None => cursor,
    }
}

/// Where the selection ends: the later of anchor and cursor, or the cursor
/// where no anchor is set.
pub open spec fn selection_end(anchor: Option<CursorPos>, cursor: CursorPos) -> CursorPos {
    match anchor {
        Some(a) => range_end(a, cursor),
        None => cursor,
    }
}

/// The anchor, where one is set, names a place in `text`.
pub open spec fn valid_anchor(text: Seq<Seq<char>>, anchor: Option<CursorPos>) -> bool {
    anchor matches Some(a) ==> valid_pos(text, a)
}

/// Which end of a selection is called its anchor makes no difference to
/// what is selected.
pub proof fn lemma_selected_symmetric(pos: CursorPos, a: CursorPos, b: CursorPos)
    ensures
        selected(pos, a, b) == selected(pos, b, a),
{
}

/// Nothing is selected between a position and itself.
pub proof fn lemma_selected_empty(pos: CursorPos, a: CursorPos)
    ensures
        !selected(pos, a, a),
{
}

/// Taking out the range from a position to itself changes nothing.
pub proof fn lemma_delete_empty_range(text: Seq<Seq<char>>, at: CursorPos)
    requires
        valid_pos(text, at),
    ensures
        after_delete_range(text, at, at) == text,
{
    let row = text[at.y as int];
    assert(row.take(at.x as int) + row.skip(at.x as int) =~= row);
    assert(after_delete_range(text, at, at) =~= text);
}

/// What is left after a range is taken out still holds the place where the
/// range began.
pub proof fn lemma_delete_range_keeps_start(text: Seq<Seq<char>>, start: CursorPos, end: CursorPos)
    requires
        valid_pos(text, start),
        valid_pos(text, end),
        pos_le(start, end),
    ensures
        valid_pos(after_delete_range(text, start, end), start),
        after_delete_range(text, start, end).len() == text.len() - (end.y - start.y),
{
}

/// Sets the anchor to `cursor` unless one is set already.
pub fn start_selection_if_needed(selection: &mut Option<CursorPos>, cursor: CursorPos)
    ensures
        *final(selection) == (if *old(selection) is None {
            Some(cursor)
        } else {
            *old(selection)
        }),
{
    if selection.is_none() {
        *selection = Some(cursor);
    }
}

/// Whether `pos` lies in the selection between `start` and `end`, given in
/// either order. The later end is not part of the selection.
pub fn is_selected(pos: CursorPos, start: CursorPos, end: CursorPos) -> (r: bool)
    ensures
        r == selected(pos, start, end),
{
    let (first, last) = ordered(start, end);
    if pos.y < first.y || pos.y > last.y {
        return false;
    }
    if pos.y == first.y && pos.x < first.x {
        return false;
    }
    if pos.y == last.y && pos.x >= last.x {
        return false;
    }
    true
}

/// Whether an anchor is set somewhere else than at the cursor.
pub fn has_selection(selection: &Option<CursorPos>, cursor: &CursorPos) -> (r: bool)
    ensures
        r == selection_exists(*selection, *cursor),
{
    if let Some(start) = selection {
        start.x != cursor.x || start.y != cursor.y
    } else {
        false
    }
}

/// Takes the selected text out of the buffer, puts the cursor where the
/// selection began and clears the anchor. Without an anchor nothing
/// changes, wherever the cursor stands.
pub fn delete_selection(
    lines: &mut Vec<String>,
    cursor: &mut CursorPos,
    selection: &mut Option<CursorPos>,
)
    requires
        *old(selection) is Some ==> valid_pos(text_of(old(lines)@), *old(cursor)) && valid_anchor(
            text_of(old(lines)@),
            *old(selection),
        ),
    ensures
        *old(selection) is None ==> final(lines)@ == old(lines)@ && *final(cursor) == *old(
            cursor,
        ),
        *old(selection) is Some ==> text_of(final(lines)@) == after_delete_range(
            text_of(old(lines)@),
            selection_start(*old(selection), *old(cursor)),
            selection_end(*old(selection), *old(cursor)),
        ) && *final(cursor) == selection_start(*old(selection), *old(cursor)) && valid_pos(
            text_of(final(lines)@),
            *final(cursor),
        ),
        *final(selection) is None,
{
    let Some(anchor) = *selection else {
        return ;
    };
    let (start, end) = ordered(anchor, *cursor);
    proof {
        lemma_delete_range_keeps_start(text_of(lines@), start, end);
    }
    delete_range(lines, start, end);
    cursor.x = start.x;
    cursor.y = start.y;
    *selection = None;
}

/// The selected text, with a line feed wherever the selection passes from
/// one row to the next; `None` without an anchor.
pub fn get_selected_text(
    lines: &Vec<String>,
    cursor: &CursorPos,
    selection: &Option<CursorPos>,
) -> (text: Option<String>)
    requires
        *selection is Some ==> valid_pos(text_of(lines@), *cursor) && valid_anchor(
            text_of(lines@),
            *selection,
        ),
    ensures
        *selection is None <==> text is None,
        text matches Some(t) ==> t@ == range_text(
            text_of(lines@),
            selection_start(*selection, *cursor),
            selection_end(*selection, *cursor),
        ),
{
    let Some(anchor) = *selection else {
        return None;
    };
    let (start, end) = ordered(anchor, *cursor);
    Some(extract_range(lines, start, end))
}

/// Puts `text` in place of the selection, or at the cursor where nothing is
/// selected. The cursor ends up just behind what was put in, and the anchor
/// is cleared.
pub fn paste_text(
    lines: &mut Vec<String>,
    cursor: &mut CursorPos,
    selection: &mut Option<CursorPos>,
    text: &str,
)
    requires
        valid_pos(text_of(old(lines)@), *old(cursor)),
        valid_anchor(text_of(old(lines)@), *old(selection)),
    ensures
        text_of(final(lines)@) == after_splice(
            after_delete_range(
                text_of(old(lines)@),
                selection_start(*old(selection), *old(cursor)),
                selection_end(*old(selection), *old(cursor)),
            ),
            selection_start(*old(selection), *old(cursor)),
            text@,
        ),
        final(cursor).y == splice_end_row(selection_start(*old(selection), *old(cursor)), text@),
        final(cursor).x == splice_end_column(
            selection_start(*old(selection), *old(cursor)),
            text@,
        ),
        *final(selection) is None,
        valid_pos(text_of(final(lines)@), *final(cursor)),
{
    proof {
        if *selection is None {
            lemma_delete_empty_range(text_of(lines@), *cursor);
        }
    }
    delete_selection(lines, cursor, selection);
    let end = splice_text(lines, *cursor, text);
    cursor.x = end.x;
    cursor.y = end.y;
    *selection = None;
}

} // verus!
