use vstd::prelude::*;
use vstd::string::StrSliceExecFns;
use vstd::string::StringExecFns;
use crate::cursor::CursorPos;
use crate::cursor::pos_le;
use crate::text::after_delete_char;
use crate::text::after_delete_range;
use crate::text::after_insert_char;
use crate::text::after_merge;
use crate::text::after_newline;
use crate::text::after_splice;
use crate::text::join_lines;
use crate::text::lemma_split_push_newline;
use crate::text::lemma_split_push_other;
use crate::text::range_pieces;
use crate::text::range_text;
use crate::text::splice_end_column;
use crate::text::splice_end_row;
use crate::text::split_newlines;
use crate::text::text_of;
use crate::text::valid_pos;
use crate::utils::push_char;

verus! {

/// Puts `ch` in front of column `at.x` of row `at.y`. Returns the column
/// just behind it.
pub fn insert_char(lines: &mut Vec<String>, at: CursorPos, ch: char) -> (column: usize)
    requires
        valid_pos(text_of(old(lines)@), at),
    ensures
        text_of(final(lines)@) == after_insert_char(text_of(old(lines)@), at, ch),
        column == at.x + 1,
{
    let line = lines[at.y].as_str();
    let len = line.unicode_len();
    let mut row = line.substring_char(0, at.x).to_owned();
    push_char(&mut row, ch);
    let column = row.as_str().unicode_len();
    row.append(line.substring_char(at.x, len));
    lines[at.y] = row;
    assert(text_of(lines@) =~= after_insert_char(text_of(old(lines)@), at, ch));
    column
}

/// Cuts row `at.y` in two at column `at.x`: what stood from there on becomes
/// a row of its own, right below.
pub fn insert_newline(lines: &mut Vec<String>, at: CursorPos)
    requires
        valid_pos(text_of(old(lines)@), at),
    ensures
        text_of(final(lines)@) == after_newline(text_of(old(lines)@), at),
{
    let line = lines[at.y].as_str();
    let len = line.unicode_len();
    let head = line.substring_char(0, at.x).to_owned();
    let tail = line.substring_char(at.x, len).to_owned();
    assert(lines.len() == lines@.len());
    lines[at.y] = head;
    lines.insert(at.y + 1, tail);
    assert(text_of(lines@) =~= after_newline(text_of(old(lines)@), at));
}

/// Takes out the character just before column `at.x` of row `at.y`.
pub fn delete_char_before(lines: &mut Vec<String>, at: CursorPos)
    requires
        valid_pos(text_of(old(lines)@), at),
        at.x > 0,
    ensures
        text_of(final(lines)@) == after_delete_char(text_of(old(lines)@), at),
{
    let line = lines[at.y].as_str();
    let len = line.unicode_len();
    let mut row = line.substring_char(0, at.x - 1).to_owned();
    row.append(line.substring_char(at.x, len));
    lines[at.y] = row;
    assert(text_of(lines@) =~= after_delete_char(text_of(old(lines)@), at));
}

/// Appends row `y` to the row above it and takes row `y` out. Returns the
/// column at which the two were joined: the length that the row above had.
pub fn merge_line_with_previous(lines: &mut Vec<String>, y: usize) -> (column: usize)
    requires
        0 < y < old(lines)@.len(),
    ensures
        text_of(final(lines)@) == after_merge(text_of(old(lines)@), y as int),
        column == old(lines)@[y - 1]@.len(),
{
    let current = lines.remove(y);
    let column = lines[y - 1].as_str().unicode_len();
    lines[y - 1].append(current.as_str());
    assert(text_of(lines@) =~= after_merge(text_of(old(lines)@), y as int));
    column
}

/// Takes out the characters from `start` up to, not including, `end`. Within
/// one row the columns in between go. Over several rows the first is cut
/// off at `start.x`, the rows in between go, and what the last row holds
/// from `end.x` on is appended to the first.
pub fn delete_range(lines: &mut Vec<String>, start: CursorPos, end: CursorPos)
    requires
        valid_pos(text_of(old(lines)@), start),
        valid_pos(text_of(old(lines)@), end),
        pos_le(start, end),
    ensures
        text_of(final(lines)@) == after_delete_range(text_of(old(lines)@), start, end),
{
    let last = lines[end.y].as_str();
    let last_len = last.unicode_len();
    let mut row = lines[start.y].as_str().substring_char(0, start.x).to_owned();
    row.append(last.substring_char(end.x, last_len));
    let mut y = end.y;
    while y > start.y
        invariant
            start.y <= y <= end.y < old(lines)@.len(),
            lines@ == old(lines)@.take(y + 1) + old(lines)@.skip(end.y + 1),
        decreases y,
    {
        lines.remove(y);
        y -= 1;
        assert(lines@ =~= old(lines)@.take(y + 1) + old(lines)@.skip(end.y + 1));
    }
    lines[start.y] = row;
    assert(text_of(lines@) =~= after_delete_range(text_of(old(lines)@), start, end));
}

/// The characters from `start` up to, not including, `end`, with a line feed
/// wherever the range passes from one row to the next. The buffer stays as
/// it is.
pub fn extract_range(lines: &Vec<String>, start: CursorPos, end: CursorPos) -> (text: String)
    requires
        valid_pos(text_of(lines@), start),
        valid_pos(text_of(lines@), end),
        pos_le(start, end),
    ensures
        text@ == range_text(text_of(lines@), start, end),
{
    let first = lines[start.y].as_str();
    if start.y == end.y {
        return first.substring_char(start.x, end.x).to_owned();
    }
    proof {
        reveal_strlit("\n");
    }
    let ghost pieces = range_pieces(text_of(lines@), start, end);
    let first_len = first.unicode_len();
    let mut text = first.substring_char(start.x, first_len).to_owned();
    let mut y = start.y + 1;
    assert(pieces.take(1) =~= seq![pieces[0]]);
    while y < end.y
        invariant
            start.y < y <= end.y < lines@.len(),
            pieces == range_pieces(text_of(lines@), start, end),
            start.y < end.y,
            text@ == join_lines(pieces.take(y - start.y)),
        decreases end.y - y,
    {
        text.append("\n");
        text.append(lines[y].as_str());
        proof {
            reveal_strlit("\n");
            let k = y - start.y;
            assert(pieces.take(k + 1).drop_last() =~= pieces.take(k));
            assert(pieces.take(k + 1).last() == lines@[y as int]@);
            assert("\n"@ =~= seq!['\n']);
        }
        y += 1;
    }
    text.append("\n");
    text.append(lines[end.y].as_str().substring_char(0, end.x));
    proof {
        let k = end.y - start.y;
        assert(pieces.take(k + 1) =~= pieces);
        assert(pieces.drop_last() =~= pieces.take(k));
        assert("\n"@ =~= seq!['\n']);
    }
    text
}

/// Cuts `text` at its line feeds. The pieces come in order, without the line
/// feeds; there is always at least one.
pub fn split_text(text: &str) -> (parts: Vec<String>)
    ensures
        text_of(parts@) == split_newlines(text@),
        parts@.len() >= 1,
{
    broadcast use vstd::string::group_string_axioms;

    let mut parts: Vec<String> = Vec::new();
    let mut piece = String::new();
    let source = text.chars();
    proof {
        assert(text@.take(0) =~= Seq::<char>::empty());
        assert(text_of(parts@).push(piece@) =~= split_newlines(text@.take(0)));
    }
    for c in it: source
        invariant
            it.seq() == text@,
            text_of(parts@).push(piece@) == split_newlines(text@.take(it.index())),
    {
        proof {
            let seen = text@.take(it.index());
            assert(text@.take(it.index() + 1) =~= seen.push(c));
            if c == '\n' {
                lemma_split_push_newline(seen);
            } else {
                lemma_split_push_other(seen, c);
                assert(text_of(parts@).push(piece@).drop_last() =~= text_of(parts@));
            }
        }
        if c == '\n' {
            parts.push(piece);
            piece = String::new();
            assert(text_of(parts@).push(piece@) =~= split_newlines(text@.take(it.index() + 1)));
        } else {
            push_char(&mut piece, c);
            assert(text_of(parts@).push(piece@) =~= split_newlines(text@.take(it.index() + 1)));
        }
    }
    parts.push(piece);
    proof {
        assert(text@.take(text@.len() as int) =~= text@);
        assert(text_of(parts@) =~= split_newlines(text@));
    }
    parts
}

/// Puts `text` in at `at`. Without a line feed in it, the text goes into the
/// row. With line feeds, the row is cut in two at `at.x`: the first piece is
/// appended to the front half, the pieces in between become rows of their
/// own, and the back half follows the last piece. Returns the position just
/// behind what was put in.
pub fn splice_text(lines: &mut Vec<String>, at: CursorPos, text: &str) -> (end: CursorPos)
    requires
        valid_pos(text_of(old(lines)@), at),
    ensures
        text_of(final(lines)@) == after_splice(text_of(old(lines)@), at, text@),
        end.y == splice_end_row(at, text@),
        end.x == splice_end_column(at, text@),
        valid_pos(text_of(final(lines)@), end),
{
    let parts = split_text(text);
    let line = lines[at.y].as_str();
    let len = line.unicode_len();
    let mut row = line.substring_char(0, at.x).to_owned();
    let tail = line.substring_char(at.x, len).to_owned();
    let ghost head = row@;
    row.append(parts[0].as_str());
    if parts.len() == 1 {
        let x = row.as_str().unicode_len();
        row.append(tail.as_str());
        lines[at.y] = row;
        assert(text_of(lines@) =~= after_splice(text_of(old(lines)@), at, text@));
        return CursorPos { x, y: at.y };
    }
    lines[at.y] = row;
    let count = parts.len();
    let mut i: usize = 1;
    while i < count - 1
        invariant
            1 <= i <= count - 1,
            count == parts@.len(),
            at.y < old(lines)@.len(),
            lines@.len() == old(lines)@.len() + i - 1,
            text_of(lines@) == text_of(old(lines)@).take(at.y as int) + seq![
                head + parts@[0]@,
            ] + text_of(parts@).subrange(1, i as int) + text_of(old(lines)@).skip(at.y + 1),
        decreases count - i,
    {
        let ghost before = text_of(lines@);
        assert(lines.len() == lines@.len());
        lines.insert(at.y + i, parts[i].clone());
        i += 1;
        assert(text_of(lines@) =~= before.insert(at.y + i - 1, parts@[i - 1]@));
        assert(text_of(lines@) =~= text_of(old(lines)@).take(at.y as int) + seq![
            head + parts@[0]@,
        ] + text_of(parts@).subrange(1, i as int) + text_of(old(lines)@).skip(at.y + 1));
    }
    let ghost before = text_of(lines@);
    assert(lines.len() == lines@.len());
    let mut last = parts[count - 1].clone();
    let x = last.as_str().unicode_len();
    last.append(tail.as_str());
    lines.insert(at.y + i, last);
    proof {
        assert(text_of(lines@) =~= before.insert(at.y + i, parts@[count - 1]@ + tail@));
        assert(text_of(parts@).last() == parts@[count - 1]@);
        assert(text_of(lines@) =~= after_splice(text_of(old(lines)@), at, text@));
    }
    CursorPos { x, y: at.y + i }
}

} // verus!
